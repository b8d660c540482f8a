//! Reading the dependencies of a project from its dependency file.
//!
//! Each kind of project has its collector, chosen by the name of the
//! dependency file. A collector lists the dependencies that the file names;
//! of some it knows the record without a lookup.

use vstd::prelude::*;
use vstd::string::*;
use crate::dependency::{
    Dependency,
    DependencyView,
    RetrievedDependency,
    RetrievedDependencyView,
};
use crate::licrc::LicRcView;
use crate::text::{contains, str_contains, str_eq};

pub mod dart;
pub mod js;
pub mod rust;

verus! {

/// The error of `yarn_lock_parser`.
#[verifier::external_type_specification]
#[verifier::external_body]
pub struct ExYarnLockError(yarn_lock_parser::YarnLockError);

/// The error of `cargo_lock`.
#[verifier::external_type_specification]
#[verifier::external_body]
pub struct ExCargoLockError(cargo_lock::Error);

/// Why a dependency file could not be read.
#[derive(Debug)]
pub enum CollectorError {
    /// The file is no `yarn.lock`.
    YarnLock(yarn_lock_parser::YarnLockError),
    /// The file is no `Cargo.lock`.
    CargoLock(cargo_lock::Error),
}

/// What reads the dependencies of one kind of project.
pub trait Collector: std::fmt::Debug + Send + Sync {
    /// The type of the dependencies (npm, dart, rust...).
    spec fn name(&self) -> Seq<char>;

    /// The type of the dependencies.
    fn get_name(&self) -> (r: String)
        ensures
            r@ == self.name(),
    ;
}

/// A collector that reads a dependency file.
pub trait FileCollector: Collector {
    /// The name of the dependency file.
    spec fn dependency_filename(&self) -> Seq<char>;

    /// The name of the dependency file.
    fn get_dependency_filename(&self) -> (r: String)
        ensures
            r@ == self.dependency_filename(),
    ;
}

/// What is to be done about a dependency that a file names.
#[derive(Debug, PartialEq, Eq)]
pub enum Resolution {
    /// Its license is to be looked up.
    Retrieve(Dependency),
    /// Its record is known without a lookup.
    Resolved(RetrievedDependency),
}

/// What a `Resolution` holds.
pub enum ResolutionView {
    Retrieve(DependencyView),
    Resolved(RetrievedDependencyView),
}

impl View for Resolution {
    type V = ResolutionView;

    open spec fn view(&self) -> ResolutionView {
        match self {
            Resolution::Retrieve(dependency) => ResolutionView::Retrieve(dependency@),
            Resolution::Resolved(record) => ResolutionView::Resolved(record@),
        }
    }
}

impl ResolutionView {
    /// The policy lets the dependency pass: it does not ignore the
    /// dependency that is to be looked up, nor the record that is known,
    /// which is not ignored as it stands.
    pub open spec fn passes(self, policy: LicRcView) -> bool {
        match self {
            ResolutionView::Retrieve(dependency) => !policy.ignores(
                dependency.name,
                dependency.is_dev,
                dependency.is_optional,
            ),
            ResolutionView::Resolved(record) => !record.is_ignored && !policy.ignores(
                record.name,
                record.is_dev,
                record.is_optional,
            ),
        }
    }
}

/// The policy lets every one of the dependencies pass.
pub open spec fn all_pass(tasks: Seq<ResolutionView>, policy: LicRcView) -> bool {
    forall|i: int| 0 <= i < tasks.len() ==> (#[trigger] tasks[i]).passes(policy)
}

impl DeepView for Resolution {
    type V = ResolutionView;

    open spec fn deep_view(&self) -> ResolutionView {
        self@
    }
}

impl Clone for Resolution {
    fn clone(&self) -> (r: Self)
        ensures
            r@ == self@,
    {
        match self {
            Resolution::Retrieve(dependency) => Resolution::Retrieve(dependency.clone()),
            Resolution::Resolved(record) => Resolution::Resolved(record.clone()),
        }
    }
}

/// No name occurs twice.
pub open spec fn distinct_names<V>(entries: Seq<(Seq<char>, V)>) -> bool {
    forall|i: int, j: int|
        0 <= i < j < entries.len() ==> (#[trigger] entries[i]).0 != (#[trigger] entries[j]).0
}

/// The index of the entry under `name`, at or after `from`.
pub open spec fn position_from<V>(entries: Seq<(Seq<char>, V)>, name: Seq<char>, from: int) -> Option<
    int,
>
    decreases entries.len() - from,
{
    if from < 0 || from >= entries.len() {
        None
    } else if entries[from].0 == name {
        Some(from)
    } else {
        position_from(entries, name, from + 1)
    }
}

/// Where `position_from` finds a name, it stands there; where it finds
/// none, none of the entries that it went through has it.
pub proof fn lemma_position_from<V>(entries: Seq<(Seq<char>, V)>, name: Seq<char>, from: int)
    requires
        0 <= from,
    ensures
        match position_from(entries, name, from) {
            Some(at) => from <= at < entries.len() && entries[at].0 == name,
            None => forall|i: int| from <= i < entries.len() ==> (#[trigger] entries[i]).0 != name,
        },
    decreases entries.len() - from,
{
    if from < entries.len() && entries[from].0 != name {
        lemma_position_from(entries, name, from + 1);
    }
}

/// The entries with `entry` under `name`: in the place of the entry that
/// was under the name, or at the end.
pub open spec fn with_entry<V>(entries: Seq<(Seq<char>, V)>, name: Seq<char>, entry: V) -> Seq<
    (Seq<char>, V),
> {
    match position_from(entries, name, 0) {
        Some(at) => entries.update(at, (name, entry)),
        None => entries.push((name, entry)),
    }
}

/// To put an entry under a name keeps the names distinct.
pub proof fn lemma_with_entry_distinct<V>(entries: Seq<(Seq<char>, V)>, name: Seq<char>, entry: V)
    requires
        distinct_names(entries),
    ensures
        distinct_names(with_entry(entries, name, entry)),
{
    lemma_position_from(entries, name, 0);
    let after = with_entry(entries, name, entry);
    assert forall|i: int, j: int| 0 <= i < j < after.len() implies (#[trigger] after[i]).0 != (
    #[trigger] after[j]).0 by {
        match position_from(entries, name, 0) {
            Some(at) => {
                assert(after[i].0 == entries[i].0);
                assert(after[j].0 == entries[j].0);
            },
            None => {
                if j < entries.len() {
                    assert(after[i] == entries[i]);
                    assert(after[j] == entries[j]);
                } else {
                    assert(after[i] == entries[i]);
                }
            },
        }
    }
}

/// Puts `value` under `name`, in the place of the value that was under the
/// name, which is handed back, or at the end.
pub fn insert_entry<V: DeepView>(entries: &mut Vec<(String, V)>, name: String, value: V) -> (r:
    Option<V>)
    ensures
        final(entries).deep_view() == with_entry(old(entries).deep_view(), name@, value.deep_view()),
        distinct_names(old(entries).deep_view()) ==> distinct_names(final(entries).deep_view()),
        match position_from(old(entries).deep_view(), name@, 0) {
            Some(at) => r.deep_view() == Some(old(entries).deep_view()[at].1),
            None => r is None,
        },
{
    let ghost before = entries.deep_view();
    proof {
        if distinct_names(before) {
            lemma_with_entry_distinct(before, name@, value.deep_view());
        }
    }
    let mut i: usize = 0;
    while i < entries.len()
        invariant
            i <= entries.len(),
            entries.deep_view() == before,
            before == old(entries).deep_view(),
            distinct_names(before) ==> distinct_names(
                with_entry(before, name@, value.deep_view()),
            ),
            position_from(before, name@, 0) == position_from(before, name@, i as int),
        decreases entries.len() - i,
    {
        assert(before[i as int] == entries@[i as int].deep_view());
        assert(before[i as int].0 == entries@[i as int].0@);
        if str_eq(entries[i].0.as_str(), name.as_str()) {
            let ghost entry = (name@, value.deep_view());
            let mut fresh = (name, value);
            let slot = &mut entries[i];
            std::mem::swap(slot, &mut fresh);
            assert(entries.deep_view() =~= before.update(i as int, entry));
            assert(fresh.deep_view() == before[i as int]);
            return Some(fresh.1);
        }
        i = i + 1;
    }
    let ghost entry = (name@, value.deep_view());
    entries.push((name, value));
    assert(entries.deep_view() =~= before.push(entry));
    None
}

/// The kinds of project that have a collector, in the order in which a
/// dependency file is tried on them.
#[derive(Debug, Clone, Copy, PartialEq, Eq, Structural)]
pub enum Ecosystem {
    /// A `package-lock.json`.
    Npm,
    /// A `yarn.lock`.
    Yarn,
    /// A `Cargo.lock`.
    Rust,
    /// A `pubspec.lock`.
    Dart,
}

impl Ecosystem {
    /// The name of the dependency file.
    pub open spec fn filename(self) -> Seq<char> {
        match self {
            Ecosystem::Npm => js::PACKAGE_LOCK@,
            Ecosystem::Yarn => js::YARN_LOCK@,
            Ecosystem::Rust => rust::CARGO_LOCK@,
            Ecosystem::Dart => dart::PUBSPEC_LOCK@,
        }
    }

    /// The kind of project whose dependency file is at `path`: the first
    /// kind whose file name stands in the path.
    pub open spec fn of(path: Seq<char>) -> Option<Ecosystem> {
        if contains(path, Ecosystem::Npm.filename()) {
            Some(Ecosystem::Npm)
        } else if contains(path, Ecosystem::Yarn.filename()) {
            Some(Ecosystem::Yarn)
        } else if contains(path, Ecosystem::Rust.filename()) {
            Some(Ecosystem::Rust)
        } else if contains(path, Ecosystem::Dart.filename()) {
            Some(Ecosystem::Dart)
        } else {
            None
        }
    }
}

/// The kind of project whose dependency file is at `dependency_file`, where
/// there is a collector for it.
pub fn find_collector(dependency_file: &str) -> (r: Option<Ecosystem>)
    ensures
        r == Ecosystem::of(dependency_file@),
{
    if str_contains(dependency_file, js::PACKAGE_LOCK) {
        Some(Ecosystem::Npm)
    } else if str_contains(dependency_file, js::YARN_LOCK) {
        Some(Ecosystem::Yarn)
    } else if str_contains(dependency_file, rust::CARGO_LOCK) {
        Some(Ecosystem::Rust)
    } else if str_contains(dependency_file, dart::PUBSPEC_LOCK) {
        Some(Ecosystem::Dart)
    } else {
        None
    }
}

} // verus!
