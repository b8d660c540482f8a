//! The dependencies of a Dart project, from `pubspec.lock`.
//!
//! A package comes from the SDK, from pub.dev or from a Git repository. Only
//! the license of a package of pub.dev is looked up.

use vstd::prelude::*;
use vstd::string::*;
use crate::collector::{
    all_pass,
    distinct_names,
    insert_entry,
    position_from,
    with_entry,
    Collector,
    FileCollector,
    Resolution,
    ResolutionView,
};
use crate::dependency::{
    clone_text,
    Comment,
    CommentView,
    Dependency,
    DependencyView,
    RetrievedDependency,
    RetrievedDependencyView,
};
use crate::licrc::{LicRc, LicRcView};
use crate::retriever::hosted::DART;
use crate::retriever::{concat2, one_license};
use crate::score::Score;
use crate::text::{get_last_value, last_value, str_eq};

verus! {

/// The dependency file of pub.
pub const PUBSPEC_LOCK: &'static str = "pubspec.lock";

/// The source of the packages of the SDK.
pub const SDK: &'static str = "sdk";

/// The source of the packages of pub.dev.
pub const HOSTED: &'static str = "hosted";

/// The source of the packages of a Git repository.
pub const GIT: &'static str = "git";

/// The name of a package without a name.
pub const UNKNOWN: &'static str = "unknown";

/// The license of the SDK.
pub const SDK_LICENSE: &'static str = "BSD-3-Clause";

/// Where the SDK lives.
pub const SDK_URL: &'static str = "https://github.com/flutter/flutter";

/// The comment of a package of the SDK.
pub const SDK_COMMENT: &'static str =
    "SDK dependency. **You should accept this dependency**. Consider adding **BSD-3-Clause** to the **.licrc** configuration file.";

/// The error of a package of pub.dev without a name.
pub const NO_NAME: &'static str = "No name found for this dependency";

/// The error of a package of a Git repository.
pub const GIT_NOT_SUPPORTED: &'static str = "Git source is not supported";

/// The comment of a package of a Git repository.
pub const GIT_COMMENT: &'static str =
    "Git projects are not supported yet. We're working on it but there are too many different git hosting providers and supporting private repos is hard. We're marking this as **invalid by default** so you check for yourself the validity of the license. Consider **adding this dependency to the ignored list** in the **.licrc** configuration file if you trust the source.";

/// What a `pubspec.lock` says of where a package comes from.
#[derive(Debug, PartialEq, Eq)]
pub struct Description {
    /// The path in the repository.
    pub path: Option<String>,
    /// The commit.
    pub reference: Option<String>,
    /// The address of the repository or of the host.
    pub url: Option<String>,
    /// The name of the package.
    pub name: Option<String>,
}

/// What a `Description` holds.
pub struct DescriptionView {
    pub path: Option<Seq<char>>,
    pub reference: Option<Seq<char>>,
    pub url: Option<Seq<char>>,
    pub name: Option<Seq<char>>,
}

impl View for Description {
    type V = DescriptionView;

    open spec fn view(&self) -> DescriptionView {
        DescriptionView {
            path: self.path.deep_view(),
            reference: self.reference.deep_view(),
            url: self.url.deep_view(),
            name: self.name.deep_view(),
        }
    }
}

impl DescriptionView {
    /// The description that an object gives: of each of `path`, `ref`, `url`
    /// and `name` the text under the last such key.
    pub open spec fn of_object(entries: Seq<(Seq<char>, Seq<char>)>) -> DescriptionView {
        DescriptionView {
            path: last_value(entries, "path"@),
            reference: last_value(entries, "ref"@),
            url: last_value(entries, "url"@),
            name: last_value(entries, "name"@),
        }
    }
}

impl Description {
    /// The description of a package that the file describes by a text: the
    /// text is its name.
    pub fn from_name(name: &str) -> (r: Self)
        ensures
            r@ == (DescriptionView { path: None, reference: None, url: None, name: Some(name@) }),
    {
        Description { path: None, reference: None, url: None, name: Some(String::from_str(name)) }
    }

    /// The description of a package that the file describes by an object.
    pub fn from_entries(entries: &Vec<(String, String)>) -> (r: Self)
        ensures
            r@ == DescriptionView::of_object(entries.deep_view()),
    {
        Description {
            path: get_last_value(entries, "path"),
            reference: get_last_value(entries, "ref"),
            url: get_last_value(entries, "url"),
            name: get_last_value(entries, "name"),
        }
    }
}

impl Default for Description {
    fn default() -> (r: Self)
        ensures
            r@ == (DescriptionView { path: None, reference: None, url: None, name: None }),
    {
        Description { path: None, reference: None, url: None, name: None }
    }
}

impl Clone for Description {
    fn clone(&self) -> (r: Self)
        ensures
            r@ == self@,
    {
        Description {
            path: clone_text(&self.path),
            reference: clone_text(&self.reference),
            url: clone_text(&self.url),
            name: clone_text(&self.name),
        }
    }
}

/// A package of a `pubspec.lock`.
#[derive(Debug, PartialEq, Eq)]
pub struct DartDependency {
    /// The version.
    pub version: String,
    /// Where the package comes from: `hosted`, `sdk` or `git`.
    pub source: String,
    /// How the project depends on the package: `direct main`, `transitive`...
    pub dependency: String,
    /// Where exactly the package comes from.
    pub description: Description,
    /// Whether this is a development dependency, where that is known.
    pub is_dev: Option<bool>,
    /// Whether this is an optional dependency, where that is known.
    pub is_optional: Option<bool>,
}

/// What a `DartDependency` holds.
pub struct DartDependencyView {
    pub version: Seq<char>,
    pub source: Seq<char>,
    pub dependency: Seq<char>,
    pub description: DescriptionView,
    pub is_dev: Option<bool>,
    pub is_optional: Option<bool>,
}

impl View for DartDependency {
    type V = DartDependencyView;

    open spec fn view(&self) -> DartDependencyView {
        DartDependencyView {
            version: self.version@,
            source: self.source@,
            dependency: self.dependency@,
            description: self.description@,
            is_dev: self.is_dev,
            is_optional: self.is_optional,
        }
    }
}

impl DeepView for DartDependency {
    type V = DartDependencyView;

    open spec fn deep_view(&self) -> DartDependencyView {
        self@
    }
}

impl Clone for DartDependency {
    fn clone(&self) -> (r: Self)
        ensures
            r@ == self@,
    {
        DartDependency {
            version: self.version.clone(),
            source: self.source.clone(),
            dependency: self.dependency.clone(),
            description: self.description.clone(),
            is_dev: self.is_dev,
            is_optional: self.is_optional,
        }
    }
}

impl DartDependencyView {
    /// The name of the package, or `unknown`.
    pub open spec fn name(self) -> Seq<char> {
        match self.description.name {
            Some(name) => name,
            None => UNKNOWN@,
        }
    }

    /// The record of the package.
    pub open spec fn record(
        self,
        licenses: Option<Seq<Seq<char>>>,
        error: Option<Seq<char>>,
        url: Option<Seq<char>>,
        comment: Option<CommentView>,
        suggested_licenses: Option<Seq<(Seq<char>, Score)>>,
    ) -> RetrievedDependencyView {
        RetrievedDependencyView::new(
            self.name(),
            self.version,
            DART@,
            url,
            licenses,
            error,
            comment,
            suggested_licenses,
            None,
            None,
        )
    }

    /// The record of a package of the SDK: the SDK has the 3-Clause BSD
    /// License.
    pub open spec fn sdk(self) -> RetrievedDependencyView {
        self.record(
            Some(seq![SDK_LICENSE@]),
            None,
            Some(SDK_URL@),
            Some(CommentView { text: SDK_COMMENT@, remove_when_valid: true }),
            None,
        )
    }

    /// What is to be done about a package of pub.dev: its license is looked
    /// up, where the package has a name.
    pub open spec fn hosted(self) -> ResolutionView {
        match self.description.name {
            Some(name) => ResolutionView::Retrieve(
                DependencyView {
                    name,
                    version: self.version,
                    is_dev: self.is_dev,
                    is_optional: self.is_optional,
                },
            ),
            None => ResolutionView::Resolved(self.record(None, Some(NO_NAME@), None, None, None)),
        }
    }

    /// The record of a package of a Git repository: it is not supported.
    pub open spec fn git(self) -> RetrievedDependencyView {
        self.record(
            None,
            Some(GIT_NOT_SUPPORTED@),
            self.description.url,
            Some(CommentView { text: GIT_COMMENT@, remove_when_valid: true }),
            None,
        )
    }

    /// The record of a package from a source that is not known.
    pub open spec fn unknown(self) -> RetrievedDependencyView {
        self.record(None, Some("Not supported source "@ + self.source), None, None, None)
    }

    /// What is to be done about the package, by its source.
    pub open spec fn resolution(self) -> ResolutionView {
        if self.source == SDK@ {
            ResolutionView::Resolved(self.sdk())
        } else if self.source == HOSTED@ {
            self.hosted()
        } else if self.source == GIT@ {
            ResolutionView::Resolved(self.git())
        } else {
            ResolutionView::Resolved(self.unknown())
        }
    }
}

/// The packages of a `pubspec.lock`, each under its name. No name occurs
/// twice.
#[derive(Debug, PartialEq, Eq)]
pub struct DartDependencies {
    packages: Vec<(String, DartDependency)>,
}

impl View for DartDependencies {
    type V = Seq<(Seq<char>, DartDependencyView)>;

    closed spec fn view(&self) -> Seq<(Seq<char>, DartDependencyView)> {
        self.packages.deep_view()
    }
}

/// The packages of the entries, in their order, each with the name of its
/// entry where it had none.
pub open spec fn named_packages(entries: Seq<(Seq<char>, DartDependencyView)>) -> Seq<
    DartDependencyView,
> {
    Seq::new(
        entries.len(),
        |i: int|
            if entries[i].1.description.name is None {
                DartDependencyView {
                    description: DescriptionView {
                        name: Some(entries[i].0),
                        ..entries[i].1.description
                    },
                    ..entries[i].1
                }
            } else {
                entries[i].1
            },
    )
}

impl DartDependencies {
    /// No name occurs twice.
    pub open spec fn well_formed(&self) -> bool {
        distinct_names(self@)
    }

    /// No packages.
    pub fn new() -> (r: Self)
        ensures
            r@ == Seq::<(Seq<char>, DartDependencyView)>::empty(),
            r.well_formed(),
    {
        let r = DartDependencies { packages: Vec::new() };
        assert(r@ =~= Seq::empty());
        r
    }

    /// Puts `package` under `name`, in the place of the package that was
    /// under the name, which is handed back, or at the end.
    pub fn insert(&mut self, name: String, package: DartDependency) -> (r: Option<DartDependency>)
        ensures
            final(self)@ == with_entry(old(self)@, name@, package@),
            old(self).well_formed() ==> final(self).well_formed(),
            match position_from(old(self)@, name@, 0) {
                Some(at) => r.deep_view() == Some(old(self)@[at].1),
                None => r is None,
            },
    {
        insert_entry(&mut self.packages, name, package)
    }

    /// The packages, in the order of the entries, each with the name of its
    /// entry where it had none.
    pub fn into_vec_collection(self) -> (r: Vec<DartDependency>)
        ensures
            r.deep_view() == named_packages(self@),
    {
        let ghost entries = self@;
        let mut r: Vec<DartDependency> = Vec::new();
        let mut i: usize = 0;
        while i < self.packages.len()
            invariant
                i <= self.packages.len(),
                entries == self.packages.deep_view(),
                r.len() == i,
                forall|k: int| 0 <= k < i ==> r@[k]@ == named_packages(entries)[k],
            decreases self.packages.len() - i,
        {
            assert(entries[i as int] == self.packages@[i as int].deep_view());
            assert(entries[i as int].0 == self.packages@[i as int].0@);
            assert(entries[i as int].1 == self.packages@[i as int].1@);
            let entry = &self.packages[i];
            let mut package = entry.1.clone();
            if package.description.name.is_none() {
                package.description.name = Some(entry.0.clone());
            }
            r.push(package);
            i = i + 1;
        }
        assert(r.deep_view() =~= named_packages(entries));
        r
    }
}

/// What is to be done about the packages that the policy does not ignore, in
/// their order.
pub open spec fn resolutions(packages: Seq<DartDependencyView>, policy: LicRcView) -> Seq<
    ResolutionView,
>
    decreases packages.len(),
{
    if packages.len() == 0 {
        Seq::empty()
    } else {
        let package = packages.last();
        let before = resolutions(packages.drop_last(), policy);
        if policy.ignores(package.name(), package.is_dev, package.is_optional) {
            before
        } else {
            before.push(package.resolution())
        }
    }
}

/// The policy lets pass whatever is to be done about the packages that it
/// does not ignore.
pub proof fn lemma_resolutions_pass(packages: Seq<DartDependencyView>, policy: LicRcView)
    ensures
        all_pass(resolutions(packages, policy), policy),
    decreases packages.len(),
{
    if packages.len() > 0 {
        lemma_resolutions_pass(packages.drop_last(), policy);
        let before = resolutions(packages.drop_last(), policy);
        let after = resolutions(packages, policy);
        assert forall|i: int| 0 <= i < after.len() implies (#[trigger] after[i]).passes(policy) by {
            if i < before.len() {
                assert(after[i] == before[i]);
            }
        }
    }
}

/// The record of a package.
pub fn retrieved_dependency(
    dependency: &DartDependency,
    licenses: Option<Vec<String>>,
    error: Option<String>,
    url: Option<String>,
    comment: Option<Comment>,
    suggested_licenses: Option<Vec<(String, Score)>>,
) -> (r: RetrievedDependency)
    ensures
        r@ == dependency@.record(
            licenses.deep_view(),
            error.deep_view(),
            url.deep_view(),
            comment.deep_view(),
            suggested_licenses.deep_view(),
        ),
        r@.well_formed(),
{
    let name = match &dependency.description.name {
        Some(name) => name.clone(),
        None => String::from_str(UNKNOWN),
    };
    RetrievedDependency::new(
        name,
        dependency.version.clone(),
        String::from_str(DART),
        url,
        licenses,
        error,
        comment,
        suggested_licenses,
        None,
        None,
    )
}

/// The record of a package of the SDK.
pub fn resolve_sdk_dependency(dependency: &DartDependency) -> (r: RetrievedDependency)
    ensures
        r@ == dependency@.sdk(),
        r@.well_formed(),
        r@.is_valid,
{
    retrieved_dependency(
        dependency,
        Some(one_license(SDK_LICENSE)),
        None,
        Some(String::from_str(SDK_URL)),
        Some(Comment::removable(SDK_COMMENT)),
        None,
    )
}

/// What is to be done about a package of pub.dev.
pub fn resolve_hosted_dependency(dependency: &DartDependency) -> (r: Resolution)
    ensures
        r@ == dependency@.hosted(),
        r matches Resolution::Resolved(record) ==> record@.well_formed(),
{
    match &dependency.description.name {
        Some(name) => Resolution::Retrieve(
            Dependency {
                name: name.clone(),
                version: dependency.version.clone(),
                is_dev: dependency.is_dev,
                is_optional: dependency.is_optional,
            },
        ),
        None => Resolution::Resolved(
            retrieved_dependency(
                dependency,
                None,
                Some(String::from_str(NO_NAME)),
                None,
                None,
                None,
            ),
        ),
    }
}

/// The record of a package of a Git repository.
pub fn resolve_git_dependency(dependency: &DartDependency) -> (r: RetrievedDependency)
    ensures
        r@ == dependency@.git(),
        r@.well_formed(),
        !r@.is_valid,
{
    retrieved_dependency(
        dependency,
        None,
        Some(String::from_str(GIT_NOT_SUPPORTED)),
        clone_text(&dependency.description.url),
        Some(Comment::removable(GIT_COMMENT)),
        None,
    )
}

/// The record of a package from a source that is not known.
pub fn resolve_unknown_dependency(dependency: &DartDependency) -> (r: RetrievedDependency)
    ensures
        r@ == dependency@.unknown(),
        r@.well_formed(),
        !r@.is_valid,
{
    retrieved_dependency(
        dependency,
        None,
        Some(concat2("Not supported source ", dependency.source.as_str())),
        None,
        None,
        None,
    )
}

/// What is to be done about a package, by its source.
pub fn get_dependency(dependency: &DartDependency) -> (r: Resolution)
    ensures
        r@ == dependency@.resolution(),
        r matches Resolution::Resolved(record) ==> record@.well_formed(),
{
    if str_eq(dependency.source.as_str(), SDK) {
        Resolution::Resolved(resolve_sdk_dependency(dependency))
    } else if str_eq(dependency.source.as_str(), HOSTED) {
        resolve_hosted_dependency(dependency)
    } else if str_eq(dependency.source.as_str(), GIT) {
        Resolution::Resolved(resolve_git_dependency(dependency))
    } else {
        Resolution::Resolved(resolve_unknown_dependency(dependency))
    }
}

/// The collector of the dependencies of a `pubspec.lock`.
#[derive(Debug, Clone, Copy, PartialEq, Eq)]
pub struct Dart {}

impl Dart {
    /// A collector.
    pub fn new() -> (r: Self)
        ensures
            r == (Dart {  }),
    {
        Dart {  }
    }

    /// The packages of a `pubspec.lock` that has been read.
    pub fn get_dependencies(&self, lock: DartDependencies) -> (r: Vec<DartDependency>)
        ensures
            r.deep_view() == named_packages(lock@),
    {
        lock.into_vec_collection()
    }

    /// What is to be done about the packages that the policy does not
    /// ignore.
    pub fn retrieve_dependencies(&self, packages: &Vec<DartDependency>, policy: &LicRc) -> (r: Vec<
        Resolution,
    >)
        ensures
            r.deep_view() == resolutions(packages.deep_view(), policy@),
            all_pass(r.deep_view(), policy@),
    {
        proof {
            lemma_resolutions_pass(packages.deep_view(), policy@);
        }
        let ghost views = packages.deep_view();
        let mut r: Vec<Resolution> = Vec::new();
        let mut i: usize = 0;
        assert(views.take(0) == Seq::<DartDependencyView>::empty());
        assert(r.deep_view() == Seq::<ResolutionView>::empty());
        while i < packages.len()
            invariant
                i <= packages.len(),
                views == packages.deep_view(),
                r.deep_view() == resolutions(views.take(i as int), policy@),
            decreases packages.len() - i,
        {
            assert(views.take(i + 1).drop_last() == views.take(i as int));
            assert(views.take(i + 1).last() == packages@[i as int]@);
            let ghost before = r.deep_view();
            let ignored = match &packages[i].description.name {
                Some(name) => policy.ignores(
                    name.as_str(),
                    packages[i].is_dev,
                    packages[i].is_optional,
                ),
                None => policy.ignores(UNKNOWN, packages[i].is_dev, packages[i].is_optional),
            };
            if !ignored {
                let resolution = get_dependency(&packages[i]);
                let ghost view = resolution@;
                r.push(resolution);
                assert(r.deep_view() == before.push(view));
            }
            i = i + 1;
        }
        assert(views.take(packages.len() as int) == views);
        r
    }
}

impl Collector for Dart {
    open spec fn name(&self) -> Seq<char> {
        DART@
    }

    fn get_name(&self) -> (r: String) {
        String::from_str(DART)
    }
}

impl FileCollector for Dart {
    open spec fn dependency_filename(&self) -> Seq<char> {
        PUBSPEC_LOCK@
    }

    fn get_dependency_filename(&self) -> (r: String) {
        String::from_str(PUBSPEC_LOCK)
    }
}

} // verus!
