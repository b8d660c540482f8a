//! The dependencies of a Rust project, from `Cargo.lock`.

use vstd::prelude::*;
use vstd::string::*;
use crate::collector::{
    all_pass,
    Collector,
    CollectorError,
    FileCollector,
    Resolution,
    ResolutionView,
};
use crate::dependency::{
    Comment,
    CommentView,
    Dependency,
    DependencyView,
    RetrievedDependency,
    RetrievedDependencyView,
};
use crate::licrc::{LicRc, LicRcView};
use crate::retriever::crates_io::RUST;

verus! {

/// The dependency file of Cargo.
pub const CARGO_LOCK: &'static str = "Cargo.lock";

/// The error of a package that comes from anywhere but crates.io.
pub const NOT_SUPPORTED: &'static str = "Crate type not Supported";

/// The comment of a package that comes from anywhere but crates.io.
pub const NOT_SUPPORTED_COMMENT: &'static str =
    "Git, Local and Remote registries are not supported yet. We're working on it. We're marking this as invalid by default so you can check the validity of the license. Consider adding this dependency to the ignored list in the .licrc configuration file if you trust the source.";

/// Where a package comes from, as far as the lookup of its license asks.
#[derive(Debug, Clone, Copy, PartialEq, Eq, Structural)]
pub struct Source {
    /// A registry, local or not.
    pub is_registry: bool,
    /// The registry of crates.io.
    pub is_default_registry: bool,
    /// A registry that is not local.
    pub is_remote_registry: bool,
    /// A Git repository.
    pub is_git: bool,
}

/// A package of a `Cargo.lock`.
#[derive(Debug, PartialEq, Eq)]
pub struct Package {
    /// The name.
    pub name: String,
    /// The version.
    pub version: String,
    /// Where the package comes from, where the file says.
    pub source: Option<Source>,
}

/// What a `Package` holds.
pub struct PackageView {
    pub name: Seq<char>,
    pub version: Seq<char>,
    pub source: Option<Source>,
}

impl View for Package {
    type V = PackageView;

    open spec fn view(&self) -> PackageView {
        PackageView { name: self.name@, version: self.version@, source: self.source }
    }
}

impl DeepView for Package {
    type V = PackageView;

    open spec fn deep_view(&self) -> PackageView {
        self@
    }
}

/// What `cargo_lock` reads from the text of a `Cargo.lock`: nothing where it
/// takes the text for no `Cargo.lock`; else the packages, in the order of the
/// file.
pub uninterp spec fn cargo_lock_packages(content: Seq<char>) -> Option<Seq<PackageView>>;

/// `cargo_lock::Lockfile::from_str` on `content`. The contract claims that
/// whether the text is read, and what packages it is read as, depends on
/// nothing but the text. Of each package the name and the version are handed
/// out as texts, and of its source what `SourceId::is_registry`,
/// `is_default_registry`, `is_remote_registry` and `is_git` say.
#[verifier::external_body]
pub(crate) fn parse_cargo_lock(content: &str) -> (r: Result<Vec<Package>, cargo_lock::Error>)
    ensures
        match r {
            Ok(packages) => cargo_lock_packages(content@) == Some(packages.deep_view()),
            Err(_) => cargo_lock_packages(content@) is None,
        },
{
    let lockfile = content.parse::<cargo_lock::Lockfile>()?;
    let source = |s: &cargo_lock::SourceId| Source {
        is_registry: s.is_registry(),
        is_default_registry: s.is_default_registry(),
        is_remote_registry: s.is_remote_registry(),
        is_git: s.is_git(),
    };
    let package = |p: &cargo_lock::Package| Package {
        name: p.name.as_str().to_owned(),
        version: p.version.to_string(),
        source: p.source.as_ref().map(source),
    };
    Ok(lockfile.packages.iter().map(package).collect())
}

impl PackageView {
    /// The package as a dependency.
    pub open spec fn dependency(self) -> DependencyView {
        DependencyView { name: self.name, version: self.version, is_dev: None, is_optional: None }
    }

    /// The record of a package whose license is not looked up.
    pub open spec fn not_supported(self) -> RetrievedDependencyView {
        RetrievedDependencyView {
            name: self.name,
            version: self.version,
            dependency_type: RUST@,
            url: None,
            licenses: None,
            validated: false,
            is_valid: false,
            is_ignored: false,
            error: Some(NOT_SUPPORTED@),
            comment: Some(CommentView { text: NOT_SUPPORTED_COMMENT@, remove_when_valid: true }),
            suggested_licenses: None,
            is_dev: None,
            is_optional: None,
        }
    }

    /// What is to be done about the package: the license of a package of
    /// crates.io is looked up; a package from anywhere else, be it another
    /// registry, a Git repository or a path, is not supported.
    pub open spec fn resolution(self) -> ResolutionView {
        if self.source matches Some(source) && source.is_registry && source.is_default_registry {
            ResolutionView::Retrieve(self.dependency())
        } else {
            ResolutionView::Resolved(self.not_supported())
        }
    }
}

/// What is to be done about the packages that the policy does not ignore, in
/// their order.
pub open spec fn resolutions(packages: Seq<PackageView>, policy: LicRcView) -> Seq<ResolutionView>
    decreases packages.len(),
{
    if packages.len() == 0 {
        Seq::empty()
    } else {
        let package = packages.last();
        let before = resolutions(packages.drop_last(), policy);
        if policy.ignores(package.name, None, None) {
            before
        } else {
            before.push(package.resolution())
        }
    }
}

/// The policy lets pass whatever is to be done about the packages that it
/// does not ignore.
pub proof fn lemma_resolutions_pass(packages: Seq<PackageView>, policy: LicRcView)
    ensures
        all_pass(resolutions(packages, policy), policy),
    decreases packages.len(),
{
    if packages.len() > 0 {
        lemma_resolutions_pass(packages.drop_last(), policy);
        let before = resolutions(packages.drop_last(), policy);
        let after = resolutions(packages, policy);
        assert forall|i: int| 0 <= i < after.len() implies (#[trigger] after[i]).passes(policy) by {
            if i < before.len() {
                assert(after[i] == before[i]);
            }
        }
    }
}

/// What is to be done about a package.
pub fn get_dependency(package: &Package) -> (r: Resolution)
    ensures
        r@ == package@.resolution(),
        r matches Resolution::Resolved(record) ==> record@.well_formed(),
{
    let from_crates_io = match package.source {
        Some(source) => source.is_registry && source.is_default_registry,
        None => false,
    };
    if from_crates_io {
        Resolution::Retrieve(
            Dependency {
                name: package.name.clone(),
                version: package.version.clone(),
                is_dev: None,
                is_optional: None,
            },
        )
    } else {
        Resolution::Resolved(
            RetrievedDependency {
                name: package.name.clone(),
                version: package.version.clone(),
                dependency_type: String::from_str(RUST),
                url: None,
                licenses: None,
                validated: false,
                is_valid: false,
                is_ignored: false,
                error: Some(String::from_str(NOT_SUPPORTED)),
                comment: Some(Comment::removable(NOT_SUPPORTED_COMMENT)),
                suggested_licenses: None,
                is_dev: None,
                is_optional: None,
            },
        )
    }
}

/// The collector of the dependencies of a `Cargo.lock`.
#[derive(Debug, Clone, Copy, PartialEq, Eq)]
pub struct Rust {}

impl Rust {
    /// A collector.
    pub fn new() -> (r: Self)
        ensures
            r == (Rust {  }),
    {
        Rust {  }
    }

    /// The packages that the text of a `Cargo.lock` names, in the order of
    /// the file.
    pub fn get_dependencies(&self, dependency_file_content: &str) -> (r: Result<
        Vec<Package>,
        CollectorError,
    >)
        ensures
            match cargo_lock_packages(dependency_file_content@) {
                Some(packages) => r is Ok && r->Ok_0.deep_view() == packages,
                None => r is Err && r->Err_0 is CargoLock,
            },
    {
        match parse_cargo_lock(dependency_file_content) {
            Ok(packages) => Ok(packages),
            Err(error) => Err(CollectorError::CargoLock(error)),
        }
    }

    /// What is to be done about the packages that the policy does not
    /// ignore.
    pub fn retrieve_dependencies(&self, packages: &Vec<Package>, policy: &LicRc) -> (r: Vec<
        Resolution,
    >)
        ensures
            r.deep_view() == resolutions(packages.deep_view(), policy@),
            all_pass(r.deep_view(), policy@),
    {
        proof {
            lemma_resolutions_pass(packages.deep_view(), policy@);
        }
        let ghost views = packages.deep_view();
        let mut r: Vec<Resolution> = Vec::new();
        let mut i: usize = 0;
        assert(views.take(0) == Seq::<PackageView>::empty());
        assert(r.deep_view() == Seq::<ResolutionView>::empty());
        while i < packages.len()
            invariant
                i <= packages.len(),
                views == packages.deep_view(),
                r.deep_view() == resolutions(views.take(i as int), policy@),
            decreases packages.len() - i,
        {
            assert(views.take(i + 1).drop_last() == views.take(i as int));
            assert(views.take(i + 1).last() == packages@[i as int]@);
            let ghost before = r.deep_view();
            if !policy.ignores(packages[i].name.as_str(), None, None) {
                let resolution = get_dependency(&packages[i]);
                let ghost view = resolution@;
                r.push(resolution);
                assert(r.deep_view() == before.push(view));
            }
            i = i + 1;
        }
        assert(views.take(packages.len() as int) == views);
        r
    }
}

impl Collector for Rust {
    open spec fn name(&self) -> Seq<char> {
        RUST@
    }

    fn get_name(&self) -> (r: String) {
        String::from_str(RUST)
    }
}

impl FileCollector for Rust {
    open spec fn dependency_filename(&self) -> Seq<char> {
        CARGO_LOCK@
    }

    fn get_dependency_filename(&self) -> (r: String) {
        String::from_str(CARGO_LOCK)
    }
}

} // verus!
