//! The policy: which licenses are accepted, which dependencies are ignored,
//! and the verdict that the policy gives on a retrieved dependency.

use vstd::prelude::*;
use vstd::string::*;
use crate::dependency::{
    clone_texts,
    Dependency,
    DependencyView,
    RetrievedDependency,
    RetrievedDependencyView,
};
use crate::text::str_eq;

verus! {

/// The error of a record whose licenses the policy does not accept.
pub const NOT_COMPLIANT: &'static str = "Not compliant";

/// The number of lookups that run at once where the policy names none.
pub const DEFAULT_RETRIEVER_BUFFER_SIZE: usize = 100;

/// The accepted and the unaccepted licenses. Where both lists are present,
/// the accepted licenses decide and the unaccepted ones are not looked at.
#[derive(Debug, PartialEq, Eq)]
pub struct LicRcLicenses {
    /// The only licenses that are accepted.
    pub accepted: Option<Vec<String>>,
    /// The licenses that are not accepted.
    pub unaccepted: Option<Vec<String>>,
}

/// What a `LicRcLicenses` holds.
pub struct LicRcLicensesView {
    pub accepted: Option<Seq<Seq<char>>>,
    pub unaccepted: Option<Seq<Seq<char>>>,
}

impl View for LicRcLicenses {
    type V = LicRcLicensesView;

    open spec fn view(&self) -> LicRcLicensesView {
        LicRcLicensesView {
            accepted: self.accepted.deep_view(),
            unaccepted: self.unaccepted.deep_view(),
        }
    }
}

/// Which dependencies are not validated.
#[derive(Debug, PartialEq, Eq)]
pub struct LicRcDependencies {
    /// The names of the dependencies that are ignored.
    pub ignored: Option<Vec<String>>,
    /// Whether development dependencies are ignored.
    pub ignore_dev_dependencies: bool,
    /// Whether optional dependencies are ignored.
    pub ignore_optional_dependencies: bool,
}

/// What a `LicRcDependencies` holds.
pub struct LicRcDependenciesView {
    pub ignored: Option<Seq<Seq<char>>>,
    pub ignore_dev_dependencies: bool,
    pub ignore_optional_dependencies: bool,
}

impl View for LicRcDependencies {
    type V = LicRcDependenciesView;

    open spec fn view(&self) -> LicRcDependenciesView {
        LicRcDependenciesView {
            ignored: self.ignored.deep_view(),
            ignore_dev_dependencies: self.ignore_dev_dependencies,
            ignore_optional_dependencies: self.ignore_optional_dependencies,
        }
    }
}

/// How a run behaves. None of this changes a verdict.
#[derive(Debug, PartialEq, Eq, Clone, Copy)]
pub struct LicRcBehavior {
    /// Whether validation runs only when a dependency file has changed.
    pub run_only_on_dependency_modification: Option<bool>,
    /// Whether a dependency that is not valid leaves the run successful.
    pub do_not_block_pr: bool,
    /// How many lookups run at once.
    pub retriever_buffer_size: Option<usize>,
    /// Whether ignored dependencies are left out of the report.
    pub do_not_show_ignored_dependencies: bool,
    /// Whether development dependencies are left out of the report.
    pub do_not_show_dev_dependencies: bool,
    /// Whether optional dependencies are left out of the report.
    pub do_not_show_optional_dependencies: bool,
}

/// The policy of a project.
#[derive(Debug, PartialEq, Eq)]
pub struct LicRc {
    /// The accepted and the unaccepted licenses.
    pub licenses: LicRcLicenses,
    /// The ignored dependencies.
    pub dependencies: LicRcDependencies,
    /// How a run behaves.
    pub behavior: LicRcBehavior,
}

/// What a `LicRc` holds.
pub struct LicRcView {
    pub licenses: LicRcLicensesView,
    pub dependencies: LicRcDependenciesView,
    pub behavior: LicRcBehavior,
}

impl View for LicRc {
    type V = LicRcView;

    open spec fn view(&self) -> LicRcView {
        LicRcView {
            licenses: self.licenses@,
            dependencies: self.dependencies@,
            behavior: self.behavior,
        }
    }
}

impl LicRcView {
    /// The policy ignores a dependency of this name and kind: the name is on
    /// the list of ignored dependencies, or it is a development dependency and
    /// those are ignored, or it is an optional one and those are ignored.
    pub open spec fn ignores(
        self,
        name: Seq<char>,
        is_dev: Option<bool>,
        is_optional: Option<bool>,
    ) -> bool {
        ||| (self.dependencies.ignored matches Some(names) && names.contains(name))
        ||| (self.dependencies.ignore_dev_dependencies && is_dev == Some(true))
        ||| (self.dependencies.ignore_optional_dependencies && is_optional == Some(true))
    }

    /// The policy accepts the license: it is on the list of accepted licenses
    /// where there is one; else it is not on the list of unaccepted licenses.
    pub open spec fn accepts(self, license: Seq<char>) -> bool {
        match self.licenses.accepted {
            Some(accepted) => accepted.contains(license),
            None => match self.licenses.unaccepted {
                Some(unaccepted) => !unaccepted.contains(license),
                None => true,
            },
        }
    }

    /// The policy accepts every one of the licenses.
    pub open spec fn complies(self, licenses: Seq<Seq<char>>) -> bool {
        forall|i: int| 0 <= i < licenses.len() ==> self.accepts(#[trigger] licenses[i])
    }

    /// The record after validation. An ignored record is marked so and is not
    /// looked at further. A record that is valid so far and holds a license
    /// that the policy does not accept becomes invalid, and says so unless it
    /// already holds an error. Any other record is only marked as validated.
    pub open spec fn validated(self, record: RetrievedDependencyView) -> RetrievedDependencyView {
        if self.ignores(record.name, record.is_dev, record.is_optional) {
            RetrievedDependencyView { validated: true, is_ignored: true, ..record }
        } else if record.is_valid && record.licenses is Some && !self.complies(
            record.licenses->0,
        ) {
            RetrievedDependencyView {
                validated: true,
                is_valid: false,
                error: if record.error is Some {
                    record.error
                } else {
                    Some(NOT_COMPLIANT@)
                },
                ..record
            }
        } else {
            RetrievedDependencyView { validated: true, ..record }
        }
    }

    /// How many lookups run at once.
    pub open spec fn buffer_size(self) -> usize {
        match self.behavior.retriever_buffer_size {
            Some(n) => n,
            None => DEFAULT_RETRIEVER_BUFFER_SIZE,
        }
    }
}

/// Whether `text` is one of `list`.
pub fn contains_text(list: &Vec<String>, text: &str) -> (r: bool)
    ensures
        r == list.deep_view().contains(text@),
{
    let mut i: usize = 0;
    while i < list.len()
        invariant
            i <= list.len(),
            forall|k: int| 0 <= k < i ==> list.deep_view()[k] != text@,
        decreases list.len() - i,
    {
        assert(list.deep_view()[i as int] == list@[i as int]@);
        if str_eq(list[i].as_str(), text) {
            return true;
        }
        i = i + 1;
    }
    false
}

impl LicRc {
    /// Whether the policy ignores a dependency of this name and kind.
    pub fn ignores(&self, name: &str, is_dev: Option<bool>, is_optional: Option<bool>) -> (r:
        bool)
        ensures
            r == self@.ignores(name@, is_dev, is_optional),
    {
        let by_name = match &self.dependencies.ignored {
            Some(names) => contains_text(names, name),
            None => false,
        };
        if by_name {
            return true;
        }
        if self.dependencies.ignore_dev_dependencies && matches!(is_dev, Some(true)) {
            return true;
        }
        self.dependencies.ignore_optional_dependencies && matches!(is_optional, Some(true))
    }

    /// Whether a dependency is worth looking up: whether the policy does not
    /// ignore it.
    pub fn filter_dependencies_before_retrieval(&self, dependency: &Dependency) -> (r: bool)
        ensures
            r == !self@.ignores(dependency@.name, dependency@.is_dev, dependency@.is_optional),
    {
        !self.ignores(dependency.name.as_str(), dependency.is_dev, dependency.is_optional)
    }

    /// The dependencies that are worth looking up, in their order.
    pub fn filter_dependencies(&self, dependencies: Vec<Dependency>) -> (r: Vec<Dependency>)
        ensures
            r.deep_view() == dependencies.deep_view().filter(
                |d: DependencyView| !self@.ignores(d.name, d.is_dev, d.is_optional),
            ),
            forall|i: int|
                0 <= i < r.len() ==> !self@.ignores(
                    (#[trigger] r.deep_view()[i]).name,
                    r.deep_view()[i].is_dev,
                    r.deep_view()[i].is_optional,
                ),
    {
        let ghost keep = |d: DependencyView| !self@.ignores(d.name, d.is_dev, d.is_optional);

        let ghost all = dependencies.deep_view();
        let mut r: Vec<Dependency> = Vec::new();
        let mut i: usize = 0;
        proof {
            assert(all.take(0) == Seq::<DependencyView>::empty());
            assert(all.take(0).filter(keep) == Seq::<DependencyView>::empty()) by {
                reveal(Seq::filter);
            }
            assert(r.deep_view() == Seq::<DependencyView>::empty());
        }
        while i < dependencies.len()
            invariant
                i <= dependencies.len(),
                all == dependencies.deep_view(),
                keep == |d: DependencyView| !self@.ignores(d.name, d.is_dev, d.is_optional),
                r.deep_view() == all.take(i as int).filter(keep),
            decreases dependencies.len() - i,
        {
            proof {
                assert(all.take(i + 1).drop_last() == all.take(i as int));
                assert(all.take(i + 1).last() == dependencies@[i as int]@);
                reveal(Seq::filter);
            }
            let ghost before = r.deep_view();
            if self.filter_dependencies_before_retrieval(&dependencies[i]) {
                r.push(dependencies[i].clone());
                assert(r.deep_view() == before.push(dependencies@[i as int]@));
            }
            i = i + 1;
        }
        assert(all.take(dependencies.len() as int) == all);
        assert forall|i: int| 0 <= i < r.len() implies !self@.ignores(
            (#[trigger] r.deep_view()[i]).name,
            r.deep_view()[i].is_dev,
            r.deep_view()[i].is_optional,
        ) by {
            all.lemma_filter_pred(keep, i);
        }
        r
    }

    /// Whether the policy accepts the license.
    pub fn accepts(&self, license: &str) -> (r: bool)
        ensures
            r == self@.accepts(license@),
    {
        match &self.licenses.accepted {
            Some(accepted) => contains_text(accepted, license),
            None => match &self.licenses.unaccepted {
                Some(unaccepted) => !contains_text(unaccepted, license),
                None => true,
            },
        }
    }

    /// Whether the policy accepts every one of the licenses.
    pub fn complies(&self, licenses: &Vec<String>) -> (r: bool)
        ensures
            r == self@.complies(licenses.deep_view()),
    {
        let mut i: usize = 0;
        while i < licenses.len()
            invariant
                i <= licenses.len(),
                forall|k: int| 0 <= k < i ==> self@.accepts(#[trigger] licenses.deep_view()[k]),
            decreases licenses.len() - i,
        {
            assert(licenses.deep_view()[i as int] == licenses@[i as int]@);
            if !self.accepts(licenses[i].as_str()) {
                return false;
            }
            i = i + 1;
        }
        true
    }

    /// Gives the policy's verdict on a retrieved dependency. The record is
    /// marked as validated; it may become ignored, or invalid.
    pub fn validate(&self, dependency: &mut RetrievedDependency)
        ensures
            final(dependency)@ == self@.validated(old(dependency)@),
            final(dependency)@.validated,
            old(dependency)@.well_formed() ==> final(dependency)@.well_formed(),
            old(dependency)@.error is Some ==> final(dependency)@.error == old(dependency)@.error,
    {
        dependency.validated = true;
        if self.ignores(dependency.name.as_str(), dependency.is_dev, dependency.is_optional) {
            dependency.is_ignored = true;
            return ;
        }
        if !dependency.is_valid {
            return ;
        }
        let compliant = match &dependency.licenses {
            Some(licenses) => self.complies(licenses),
            None => true,
        };
        if !compliant {
            make_invalid(dependency);
        }
    }

    /// How many lookups run at once: what the policy names, or one hundred.
    pub fn buffer_size(&self) -> (r: usize)
        ensures
            r == self@.buffer_size(),
    {
        match self.behavior.retriever_buffer_size {
            Some(n) => n,
            None => DEFAULT_RETRIEVER_BUFFER_SIZE,
        }
    }
}

/// Marks a record as invalid. Where it holds no error yet, the error says
/// that it does not comply; an error that is there stays.
pub fn make_invalid(dependency: &mut RetrievedDependency)
    ensures
        final(dependency)@ == (RetrievedDependencyView {
            is_valid: false,
            error: if old(dependency)@.error is Some {
                old(dependency)@.error
            } else {
                Some(NOT_COMPLIANT@)
            },
            ..old(dependency)@
        }),
{
    dependency.is_valid = false;
    if dependency.error.is_none() {
        dependency.error = Some(String::from_str(NOT_COMPLIANT));
    }
}

impl Clone for LicRcLicenses {
    fn clone(&self) -> (r: Self)
        ensures
            r@ == self@,
    {
        LicRcLicenses {
            accepted: match &self.accepted {
                Some(v) => Some(clone_texts(v)),
                None => None,
            },
            unaccepted: match &self.unaccepted {
                Some(v) => Some(clone_texts(v)),
                None => None,
            },
        }
    }
}

impl Clone for LicRcDependencies {
    fn clone(&self) -> (r: Self)
        ensures
            r@ == self@,
    {
        LicRcDependencies {
            ignored: match &self.ignored {
                Some(v) => Some(clone_texts(v)),
                None => None,
            },
            ignore_dev_dependencies: self.ignore_dev_dependencies,
            ignore_optional_dependencies: self.ignore_optional_dependencies,
        }
    }
}

impl Clone for LicRc {
    fn clone(&self) -> (r: Self)
        ensures
            r@ == self@,
    {
        LicRc {
            licenses: self.licenses.clone(),
            dependencies: self.dependencies.clone(),
            behavior: self.behavior,
        }
    }
}

impl Default for LicRcLicenses {
    fn default() -> (r: Self)
        ensures
            r@ == (LicRcLicensesView { accepted: None, unaccepted: None }),
    {
        LicRcLicenses { accepted: None, unaccepted: None }
    }
}

impl Default for LicRcDependencies {
    fn default() -> (r: Self)
        ensures
            r@ == (LicRcDependenciesView {
                ignored: None,
                ignore_dev_dependencies: false,
                ignore_optional_dependencies: false,
            }),
    {
        LicRcDependencies {
            ignored: None,
            ignore_dev_dependencies: false,
            ignore_optional_dependencies: false,
        }
    }
}

impl Default for LicRcBehavior {
    fn default() -> (r: Self)
        ensures
            r == (LicRcBehavior {
                run_only_on_dependency_modification: None,
                do_not_block_pr: false,
                retriever_buffer_size: None,
                do_not_show_ignored_dependencies: false,
                do_not_show_dev_dependencies: false,
                do_not_show_optional_dependencies: false,
            }),
    {
        LicRcBehavior {
            run_only_on_dependency_modification: None,
            do_not_block_pr: false,
            retriever_buffer_size: None,
            do_not_show_ignored_dependencies: false,
            do_not_show_dev_dependencies: false,
            do_not_show_optional_dependencies: false,
        }
    }
}

impl Default for LicRc {
    fn default() -> (r: Self)
        ensures
            r@ == (LicRcView {
                licenses: LicRcLicensesView { accepted: None, unaccepted: None },
                dependencies: LicRcDependenciesView {
                    ignored: None,
                    ignore_dev_dependencies: false,
                    ignore_optional_dependencies: false,
                },
                behavior: LicRcBehavior {
                    run_only_on_dependency_modification: None,
                    do_not_block_pr: false,
                    retriever_buffer_size: None,
                    do_not_show_ignored_dependencies: false,
                    do_not_show_dev_dependencies: false,
                    do_not_show_optional_dependencies: false,
                },
            }),
    {
        LicRc {
            licenses: LicRcLicenses { accepted: None, unaccepted: None },
            dependencies: LicRcDependencies {
                ignored: None,
                ignore_dev_dependencies: false,
                ignore_optional_dependencies: false,
            },
            behavior: LicRcBehavior {
                run_only_on_dependency_modification: None,
                do_not_block_pr: false,
                retriever_buffer_size: None,
                do_not_show_ignored_dependencies: false,
                do_not_show_dev_dependencies: false,
                do_not_show_optional_dependencies: false,
            },
        }
    }
}

/// A record describes a dependency: it carries the dependency's name, and
/// says of its kind what the dependency says or nothing.
pub open spec fn describes(record: RetrievedDependencyView, dependency: DependencyView) -> bool {
    &&& record.name == dependency.name
    &&& (record.is_dev == dependency.is_dev || record.is_dev is None)
    &&& (record.is_optional == dependency.is_optional || record.is_optional is None)
}

/// Validation is idempotent: to validate a validated record again, under the
/// same policy, changes nothing. So a record that validation has marked as
/// ignored stays as it is.
pub proof fn lemma_validate_idempotent(policy: LicRcView, record: RetrievedDependencyView)
    ensures
        policy.validated(policy.validated(record)) == policy.validated(record),
{
}

/// Validation leaves an ignored record otherwise unchanged: neither its
/// validity nor its error depend on the lists of licenses.
pub proof fn lemma_ignored_is_untouched(policy: LicRcView, record: RetrievedDependencyView)
    requires
        policy.ignores(record.name, record.is_dev, record.is_optional),
    ensures
        policy.validated(record) == (RetrievedDependencyView {
            validated: true,
            is_ignored: true,
            ..record
        }),
{
}

/// The filter before the lookup and the validator agree: the validator does
/// not ignore the record of a dependency that the filter has let pass, and
/// leaves the record's `is_ignored` as it was.
pub proof fn lemma_filter_agrees_with_validation(
    policy: LicRcView,
    dependency: DependencyView,
    record: RetrievedDependencyView,
)
    requires
        describes(record, dependency),
        !policy.ignores(dependency.name, dependency.is_dev, dependency.is_optional),
    ensures
        !policy.ignores(record.name, record.is_dev, record.is_optional),
        policy.validated(record).is_ignored == record.is_ignored,
{
}

/// A list of licenses complies exactly where each part of it does: one more
/// license never makes a list compliant, and a license that the policy does
/// not accept makes every list that holds it non-compliant.
pub proof fn lemma_compliance_is_monotonic(
    policy: LicRcView,
    licenses: Seq<Seq<char>>,
    more: Seq<Seq<char>>,
)
    ensures
        policy.complies(licenses + more) <==> policy.complies(licenses) && policy.complies(more),
{
    let all = licenses + more;
    if policy.complies(all) {
        assert forall|i: int| 0 <= i < licenses.len() implies policy.accepts(
            #[trigger] licenses[i],
        ) by {
            assert(all[i] == licenses[i]);
        }
        assert forall|i: int| 0 <= i < more.len() implies policy.accepts(#[trigger] more[i]) by {
            assert(all[licenses.len() + i] == more[i]);
        }
    }
    if policy.complies(licenses) && policy.complies(more) {
        assert forall|i: int| 0 <= i < all.len() implies policy.accepts(#[trigger] all[i]) by {
            if i < licenses.len() {
                assert(all[i] == licenses[i]);
            } else {
                assert(all[i] == more[i - licenses.len()]);
            }
        }
    }
}

/// A valid record stays valid under validation exactly where the policy
/// ignores it or accepts each of its licenses.
pub proof fn lemma_valid_after_validation(policy: LicRcView, record: RetrievedDependencyView)
    requires
        record.is_valid,
        record.licenses is Some,
    ensures
        policy.validated(record).is_valid <==> policy.ignores(
            record.name,
            record.is_dev,
            record.is_optional,
        ) || policy.complies(record.licenses->0),
{
}

/// Validation keeps an error that the record already holds.
pub proof fn lemma_error_preserved(policy: LicRcView, record: RetrievedDependencyView)
    requires
        record.error is Some,
    ensures
        policy.validated(record).error == record.error,
{
}

/// Validation never makes an invalid record valid, and changes nothing of a
/// record but `validated`, `is_ignored`, `is_valid` and `error`.
pub proof fn lemma_validation_only_judges(policy: LicRcView, record: RetrievedDependencyView)
    ensures
        policy.validated(record).is_valid ==> record.is_valid,
        policy.validated(record) == (RetrievedDependencyView {
            validated: true,
            is_ignored: policy.validated(record).is_ignored,
            is_valid: policy.validated(record).is_valid,
            error: policy.validated(record).error,
            ..record
        }),
{
}

} // verus!
