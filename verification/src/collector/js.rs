//! The dependencies of a JavaScript project, from `package-lock.json` or
//! from `yarn.lock`.

use vstd::prelude::*;
use vstd::string::*;
use crate::collector::{
    distinct_names,
    insert_entry,
    position_from,
    with_entry,
    Collector,
    CollectorError,
    FileCollector,
    Resolution,
    ResolutionView,
};
use crate::dependency::{Dependency, DependencyView};

verus! {

/// The type of the dependencies of a JavaScript project.
pub const NPM: &'static str = "npm";

/// The dependency file of npm.
pub const PACKAGE_LOCK: &'static str = "package-lock.json";

/// The dependency file of Yarn.
pub const YARN_LOCK: &'static str = "yarn.lock";

/// What a `package-lock.json` says of one dependency.
#[derive(Debug, PartialEq, Eq)]
pub struct NpmDependency {
    /// The version.
    pub version: String,
    /// Whether this is a development dependency, where the file says.
    pub is_dev: Option<bool>,
    /// Whether this is an optional dependency, where the file says.
    pub is_optional: Option<bool>,
}

/// What an `NpmDependency` holds.
pub struct NpmDependencyView {
    pub version: Seq<char>,
    pub is_dev: Option<bool>,
    pub is_optional: Option<bool>,
}

impl View for NpmDependency {
    type V = NpmDependencyView;

    open spec fn view(&self) -> NpmDependencyView {
        NpmDependencyView {
            version: self.version@,
            is_dev: self.is_dev,
            is_optional: self.is_optional,
        }
    }
}

impl DeepView for NpmDependency {
    type V = NpmDependencyView;

    open spec fn deep_view(&self) -> NpmDependencyView {
        self@
    }
}

/// The dependencies of a `package-lock.json`, each under its name. No name
/// occurs twice.
#[derive(Debug, PartialEq, Eq)]
pub struct NpmDependencies {
    dependencies: Vec<(String, NpmDependency)>,
}

impl View for NpmDependencies {
    type V = Seq<(Seq<char>, NpmDependencyView)>;

    closed spec fn view(&self) -> Seq<(Seq<char>, NpmDependencyView)> {
        self.dependencies.deep_view()
    }
}

/// The dependencies that the entries name, in their order.
pub open spec fn npm_dependencies(entries: Seq<(Seq<char>, NpmDependencyView)>) -> Seq<
    DependencyView,
> {
    Seq::new(
        entries.len(),
        |i: int|
            DependencyView {
                name: entries[i].0,
                version: entries[i].1.version,
                is_dev: entries[i].1.is_dev,
                is_optional: entries[i].1.is_optional,
            },
    )
}

impl NpmDependencies {
    /// No name occurs twice.
    pub open spec fn well_formed(&self) -> bool {
        distinct_names(self@)
    }

    /// No dependencies.
    pub fn new() -> (r: Self)
        ensures
            r@ == Seq::<(Seq<char>, NpmDependencyView)>::empty(),
            r.well_formed(),
    {
        let r = NpmDependencies { dependencies: Vec::new() };
        assert(r@ =~= Seq::empty());
        r
    }

    /// Puts `dependency` under `name`, in the place of the dependency that
    /// was under the name, which is handed back, or at the end.
    pub fn insert(&mut self, name: String, dependency: NpmDependency) -> (r: Option<NpmDependency>)
        ensures
            final(self)@ == with_entry(old(self)@, name@, dependency@),
            old(self).well_formed() ==> final(self).well_formed(),
            match position_from(old(self)@, name@, 0) {
                Some(at) => r.deep_view() == Some(old(self)@[at].1),
                None => r is None,
            },
    {
        insert_entry(&mut self.dependencies, name, dependency)
    }

    /// The dependencies, in the order of the entries.
    pub fn into_vec_collection(self) -> (r: Vec<Dependency>)
        ensures
            r.deep_view() == npm_dependencies(self@),
    {
        let ghost entries = self@;
        let mut r: Vec<Dependency> = Vec::new();
        let mut i: usize = 0;
        while i < self.dependencies.len()
            invariant
                i <= self.dependencies.len(),
                entries == self.dependencies.deep_view(),
                r.len() == i,
                forall|k: int| 0 <= k < i ==> r@[k]@ == npm_dependencies(entries)[k],
            decreases self.dependencies.len() - i,
        {
            assert(entries[i as int] == self.dependencies@[i as int].deep_view());
            assert(entries[i as int].0 == self.dependencies@[i as int].0@);
            assert(entries[i as int].1 == self.dependencies@[i as int].1@);
            let entry = &self.dependencies[i];
            r.push(
                Dependency {
                    name: entry.0.clone(),
                    version: entry.1.version.clone(),
                    is_dev: entry.1.is_dev,
                    is_optional: entry.1.is_optional,
                },
            );
            i = i + 1;
        }
        assert(r.deep_view() =~= npm_dependencies(entries));
        r
    }
}

/// What `yarn_lock_parser` reads from the text of a `yarn.lock`: nothing
/// where it takes the text for no `yarn.lock`; else the name and the version
/// of each entry, in the order of the file.
pub uninterp spec fn yarn_lock_entries(content: Seq<char>) -> Option<Seq<(Seq<char>, Seq<char>)>>;

/// `yarn_lock_parser::parse_str` on `content`. The contract claims that
/// whether the text is read, and what entries it is read as, depends on
/// nothing but the text. Of each entry the name and the version are handed
/// out.
#[verifier::external_body]
pub(crate) fn parse_yarn_lock(content: &str) -> (r: Result<
    Vec<(String, String)>,
    yarn_lock_parser::YarnLockError,
>)
    ensures
        match r {
            Ok(entries) => yarn_lock_entries(content@) == Some(entries.deep_view()),
            Err(_) => yarn_lock_entries(content@) is None,
        },
{
    let lockfile = yarn_lock_parser::parse_str(content)?;
    Ok(lockfile.entries.iter().map(|e| (e.name.to_owned(), e.version.to_owned())).collect())
}

/// The dependencies that the entries of a `yarn.lock` name, in their order.
pub open spec fn yarn_dependencies(entries: Seq<(Seq<char>, Seq<char>)>) -> Seq<DependencyView> {
    Seq::new(
        entries.len(),
        |i: int|
            DependencyView {
                name: entries[i].0,
                version: entries[i].1,
                is_dev: None,
                is_optional: None,
            },
    )
}

/// What is to be done about the dependencies of a JavaScript project: the
/// license of each is looked up.
pub fn retrieve_from_npm(deps: Vec<Dependency>) -> (r: Vec<Resolution>)
    ensures
        r.deep_view() == Seq::new(
            deps.len() as nat,
            |i: int| ResolutionView::Retrieve(deps.deep_view()[i]),
        ),
{
    let mut r: Vec<Resolution> = Vec::new();
    let mut i: usize = 0;
    while i < deps.len()
        invariant
            i <= deps.len(),
            r.len() == i,
            forall|k: int| 0 <= k < i ==> r@[k]@ == ResolutionView::Retrieve(deps@[k]@),
        decreases deps.len() - i,
    {
        r.push(Resolution::Retrieve(deps[i].clone()));
        i = i + 1;
    }
    assert(r.deep_view() =~= Seq::new(
        deps.len() as nat,
        |i: int| ResolutionView::Retrieve(deps.deep_view()[i]),
    ));
    r
}

/// The collector of the dependencies of a `package-lock.json`.
#[derive(Debug, Clone, Copy, PartialEq, Eq)]
pub struct Npm {}

impl Npm {
    /// A collector.
    pub fn new() -> (r: Self)
        ensures
            r == (Npm {  }),
    {
        Npm {  }
    }

    /// The dependencies of a `package-lock.json` that has been read.
    pub fn get_dependencies(&self, lock: NpmDependencies) -> (r: Vec<Dependency>)
        ensures
            r.deep_view() == npm_dependencies(lock@),
    {
        lock.into_vec_collection()
    }
}

impl Collector for Npm {
    open spec fn name(&self) -> Seq<char> {
        NPM@
    }

    fn get_name(&self) -> (r: String) {
        String::from_str(NPM)
    }
}

impl FileCollector for Npm {
    open spec fn dependency_filename(&self) -> Seq<char> {
        PACKAGE_LOCK@
    }

    fn get_dependency_filename(&self) -> (r: String) {
        String::from_str(PACKAGE_LOCK)
    }
}

/// The collector of the dependencies of a `yarn.lock`.
#[derive(Debug, Clone, Copy, PartialEq, Eq)]
pub struct Yarn {}

impl Yarn {
    /// A collector.
    pub fn new() -> (r: Self)
        ensures
            r == (Yarn {  }),
    {
        Yarn {  }
    }

    /// The dependencies that the text of a `yarn.lock` names, in the order
    /// of the file.
    pub fn get_dependencies(&self, dependency_file_content: &str) -> (r: Result<
        Vec<Dependency>,
        CollectorError,
    >)
        ensures
            match yarn_lock_entries(dependency_file_content@) {
                Some(entries) => r is Ok && r->Ok_0.deep_view() == yarn_dependencies(entries),
                None => r is Err && r->Err_0 is YarnLock,
            },
    {
        match parse_yarn_lock(dependency_file_content) {
            Err(error) => Err(CollectorError::YarnLock(error)),
            Ok(entries) => Ok(Self::dependencies_of(&entries)),
        }
    }

    /// The dependencies that the entries of a `yarn.lock` name, each entry
    /// given as a name and a version.
    pub fn dependencies_of(entries: &Vec<(String, String)>) -> (r: Vec<Dependency>)
        ensures
            r.deep_view() == yarn_dependencies(entries.deep_view()),
    {
        let ghost views = entries.deep_view();
        let mut r: Vec<Dependency> = Vec::new();
        let mut i: usize = 0;
        while i < entries.len()
            invariant
                i <= entries.len(),
                views == entries.deep_view(),
                r.len() == i,
                forall|k: int| 0 <= k < i ==> r@[k]@ == yarn_dependencies(views)[k],
            decreases entries.len() - i,
        {
            assert(views[i as int] == entries@[i as int].deep_view());
            assert(views[i as int].0 == entries@[i as int].0@);
            assert(views[i as int].1 == entries@[i as int].1@);
            r.push(
                Dependency {
                    name: entries[i].0.clone(),
                    version: entries[i].1.clone(),
                    is_dev: None,
                    is_optional: None,
                },
            );
            i = i + 1;
        }
        assert(r.deep_view() =~= yarn_dependencies(views));
        r
    }
}

impl Collector for Yarn {
    open spec fn name(&self) -> Seq<char> {
        NPM@
    }

    fn get_name(&self) -> (r: String) {
        String::from_str(NPM)
    }
}

impl FileCollector for Yarn {
    open spec fn dependency_filename(&self) -> Seq<char> {
        YARN_LOCK@
    }

    fn get_dependency_filename(&self) -> (r: String) {
        String::from_str(YARN_LOCK)
    }
}

} // verus!
