//! The license of a package, as the npm registry declares it.
//!
//! The registry describes a package in one document: a license for the
//! package as a whole, and metadata for each of its versions, which may name
//! a license or a list of licenses of its own.

use vstd::prelude::*;
use vstd::string::*;
use crate::dependency::{
    Comment,
    CommentView,
    Dependency,
    DependencyView,
    RetrievedDependency,
    RetrievedDependencyView,
    NO_LICENSE,
};
use crate::licrc::describes;
use crate::retriever::{concat2, concat4, Request, RequestView, USER_AGENT};
use crate::text::{
    chars_of,
    get_last_value,
    last_value,
    remove_char,
    remove_char_exec,
    string_of,
};

verus! {

/// The type of the dependencies that the npm registry holds.
pub const NPM: &'static str = "npm";

/// Where the registry describes its packages.
pub const REGISTRY_URL: &'static str = "https://registry.npmjs.org/";

/// Where npm shows its packages.
pub const PACKAGE_URL: &'static str = "https://www.npmjs.com/package/";

/// The comment of a record for which the registry names no license.
pub const NO_LICENSE_COMMENT: &'static str =
    "Consider **ignoring** this specific dependency. You can also accept the **NO-LICENSE** key to avoid these issues.";

/// The metadata of one version of a package.
#[derive(Debug, PartialEq, Eq)]
pub struct NpmMetadata {
    /// The name of the package.
    pub name: String,
    /// The version.
    pub version: String,
    /// The license that the version names.
    pub license: Option<String>,
    /// The licenses that the version lists.
    pub licenses: Option<Vec<String>>,
}

/// What an `NpmMetadata` holds.
pub struct NpmMetadataView {
    pub name: Seq<char>,
    pub version: Seq<char>,
    pub license: Option<Seq<char>>,
    pub licenses: Option<Seq<Seq<char>>>,
}

impl View for NpmMetadata {
    type V = NpmMetadataView;

    open spec fn view(&self) -> NpmMetadataView {
        NpmMetadataView {
            name: self.name@,
            version: self.version@,
            license: self.license.deep_view(),
            licenses: self.licenses.deep_view(),
        }
    }
}

impl DeepView for NpmMetadata {
    type V = NpmMetadataView;

    open spec fn deep_view(&self) -> NpmMetadataView {
        self@
    }
}

impl NpmMetadataView {
    /// The licenses of the version: those that it lists; else the one that it
    /// names, without quotation marks.
    pub open spec fn licenses(self) -> Option<Seq<Seq<char>>> {
        if self.licenses is Some {
            self.licenses
        } else {
            match self.license {
                Some(license) => Some(seq![remove_char(license, '"')]),
                None => None,
            }
        }
    }
}

impl NpmMetadata {
    /// The licenses of the version.
    pub fn get_licenses(self) -> (r: Option<Vec<String>>)
        ensures
            r.deep_view() == self@.licenses(),
    {
        if self.licenses.is_some() {
            self.licenses
        } else {
            match self.license {
                Some(license) => {
                    let text = chars_of(license.as_str());
                    let plain = string_of(&remove_char_exec(&text, '"'));
                    let mut r: Vec<String> = Vec::new();
                    r.push(plain);
                    assert(r.deep_view() =~= seq![remove_char(license@, '"')]);
                    Some(r)
                },
                None => None,
            }
        }
    }
}

/// The key under which an object names its license.
pub const TYPE: &'static str = "type";

/// The license that an object names: the text under its last `type`, or the
/// empty text.
pub open spec fn license_of_object(entries: Seq<(Seq<char>, Seq<char>)>) -> Seq<char> {
    match last_value(entries, TYPE@) {
        Some(license) => license,
        None => Seq::empty(),
    }
}

/// The licenses that a list of objects names, one each: nothing where the
/// list is empty, or an object names none.
pub open spec fn licenses_of_objects(objects: Seq<Seq<(Seq<char>, Seq<char>)>>) -> Option<
    Seq<Seq<char>>,
> {
    if objects.len() > 0 && forall|i: int|
        0 <= i < objects.len() ==> last_value(#[trigger] objects[i], TYPE@) is Some {
        Some(Seq::new(objects.len(), |i: int| last_value(objects[i], TYPE@)->0))
    } else {
        None
    }
}

/// Why a list of objects names no licenses.
#[derive(Debug, Clone, Copy, PartialEq, Eq, Structural)]
pub enum LicenseListError {
    /// The list is empty.
    Empty,
    /// One of the objects has no `type`.
    NoType,
}

/// The license that an object names.
pub fn get_license_of_object(entries: &Vec<(String, String)>) -> (r: String)
    ensures
        r@ == license_of_object(entries.deep_view()),
{
    match get_last_value(entries, TYPE) {
        Some(license) => license,
        None => String::new(),
    }
}

/// The licenses that a list of objects names, one each.
pub fn get_licenses_of_objects(objects: &Vec<Vec<(String, String)>>) -> (r: Result<
    Vec<String>,
    LicenseListError,
>)
    ensures
        match licenses_of_objects(objects.deep_view()) {
            Some(licenses) => r is Ok && r->Ok_0.deep_view() == licenses,
            None => r == Err::<Vec<String>, LicenseListError>(
                if objects.len() == 0 {
                    LicenseListError::Empty
                } else {
                    LicenseListError::NoType
                },
            ),
        },
{
    if objects.len() == 0 {
        return Err(LicenseListError::Empty);
    }
    let ghost views = objects.deep_view();
    let mut r: Vec<String> = Vec::new();
    let mut i: usize = 0;
    while i < objects.len()
        invariant
            i <= objects.len(),
            views == objects.deep_view(),
            views.len() == objects.len(),
            r.len() == i,
            forall|k: int| 0 <= k < i ==> last_value(#[trigger] views[k], TYPE@) == Some(r@[k]@),
        decreases objects.len() - i,
    {
        assert(views[i as int] == objects@[i as int].deep_view());
        match get_last_value(&objects[i], TYPE) {
            Some(license) => {
                r.push(license);
            },
            None => {
                return Err(LicenseListError::NoType);
            },
        }
        i = i + 1;
    }
    assert(r.deep_view() =~= licenses_of_objects(views)->0);
    Ok(r)
}

/// The license that the registry gives for a package as a whole.
#[derive(Debug, PartialEq, Eq)]
pub enum PackageLicense {
    /// A text.
    Text(String),
    /// An object, with its `type` where that is a text.
    Object(Option<String>),
    /// Anything else, or nothing.
    Other,
}

/// What a `PackageLicense` holds.
pub enum PackageLicenseView {
    Text(Seq<char>),
    Object(Option<Seq<char>>),
    Other,
}

impl View for PackageLicense {
    type V = PackageLicenseView;

    open spec fn view(&self) -> PackageLicenseView {
        match self {
            PackageLicense::Text(text) => PackageLicenseView::Text(text@),
            PackageLicense::Object(license_type) => PackageLicenseView::Object(
                license_type.deep_view(),
            ),
            PackageLicense::Other => PackageLicenseView::Other,
        }
    }
}

impl PackageLicenseView {
    /// The name of the license: the text, or the type of the object.
    pub open spec fn name(self) -> Option<Seq<char>> {
        match self {
            PackageLicenseView::Text(text) => Some(text),
            PackageLicenseView::Object(license_type) => license_type,
            PackageLicenseView::Other => None,
        }
    }
}

/// What the registry's description of a package holds for one version.
#[derive(Debug, PartialEq, Eq)]
pub struct NpmPackage {
    /// The license of the package as a whole.
    pub license: PackageLicense,
    /// The metadata of the version, where the description holds it.
    pub version: Option<NpmMetadata>,
}

/// What an `NpmPackage` holds.
pub struct NpmPackageView {
    pub license: PackageLicenseView,
    pub version: Option<NpmMetadataView>,
}

impl View for NpmPackage {
    type V = NpmPackageView;

    open spec fn view(&self) -> NpmPackageView {
        NpmPackageView { license: self.license@, version: self.version.deep_view() }
    }
}

impl NpmPackageView {
    /// The licenses of the version: those of its metadata, the license of
    /// the package standing in where the metadata names none. A version
    /// without metadata has no licenses.
    pub open spec fn licenses(self) -> Option<Seq<Seq<char>>> {
        match self.version {
            None => None,
            Some(metadata) => if metadata.license is None {
                (NpmMetadataView { license: self.license.name(), ..metadata }).licenses()
            } else {
                metadata.licenses()
            },
        }
    }
}

impl NpmPackage {
    /// The licenses of the version.
    pub fn get_licenses(self) -> (r: Option<Vec<String>>)
        ensures
            r.deep_view() == self@.licenses(),
    {
        match self.version {
            None => None,
            Some(metadata) => {
                if metadata.license.is_none() {
                    let license = match self.license {
                        PackageLicense::Text(text) => Some(text),
                        PackageLicense::Object(license_type) => license_type,
                        PackageLicense::Other => None,
                    };
                    let filled = NpmMetadata {
                        name: metadata.name,
                        version: metadata.version,
                        license,
                        licenses: metadata.licenses,
                    };
                    filled.get_licenses()
                } else {
                    metadata.get_licenses()
                }
            },
        }
    }
}

/// Where the registry describes the package.
pub open spec fn registry_url(dependency: DependencyView) -> Seq<char> {
    REGISTRY_URL@ + dependency.name
}

/// The page of the package version.
pub open spec fn package_url(dependency: DependencyView) -> Seq<char> {
    PACKAGE_URL@ + dependency.name + "/v/"@ + dependency.version
}

/// The record of a package version. It is valid where licenses were found
/// and nothing went wrong. Where no license was found it says so, and
/// remarks on what can be done about it.
pub open spec fn package_record(
    dependency: DependencyView,
    licenses: Option<Seq<Seq<char>>>,
    error: Option<Seq<char>>,
) -> RetrievedDependencyView {
    RetrievedDependencyView {
        name: dependency.name,
        version: dependency.version,
        dependency_type: NPM@,
        url: Some(package_url(dependency)),
        licenses,
        validated: false,
        is_valid: licenses is Some && error is None,
        is_ignored: false,
        error: if error is Some || licenses is Some {
            error
        } else {
            Some(NO_LICENSE@)
        },
        comment: if licenses is Some {
            None
        } else {
            Some(CommentView { text: NO_LICENSE_COMMENT@, remove_when_valid: true })
        },
        suggested_licenses: None,
        is_dev: dependency.is_dev,
        is_optional: dependency.is_optional,
    }
}

/// The record of a package version.
pub fn build_retrieved_dependency(
    dependency: &Dependency,
    licenses: Option<Vec<String>>,
    error: Option<String>,
) -> (r: RetrievedDependency)
    ensures
        r@ == package_record(dependency@, licenses.deep_view(), error.deep_view()),
        r@.well_formed(),
        describes(r@, dependency@),
{
    let url = concat4(PACKAGE_URL, dependency.name.as_str(), "/v/", dependency.version.as_str());
    let comment = if licenses.is_some() {
        None
    } else {
        Some(Comment::removable(NO_LICENSE_COMMENT))
    };
    RetrievedDependency::new(
        dependency.name.clone(),
        dependency.version.clone(),
        String::from_str(NPM),
        Some(url),
        licenses,
        error,
        comment,
        None,
        dependency.is_dev,
        dependency.is_optional,
    )
}

/// The lookup of the license of a package in the npm registry.
#[derive(Debug, Clone, Copy, PartialEq, Eq)]
pub struct Npm {}

impl Npm {
    /// A lookup.
    pub fn new() -> (r: Self)
        ensures
            r == (Npm {  }),
    {
        Npm {  }
    }

    /// The request that a lookup begins with: the registry's description of
    /// the package.
    pub fn get_dependency(&self, dependency: &Dependency) -> (r: Request)
        ensures
            r@ == (RequestView { url: registry_url(dependency@), user_agent: USER_AGENT@ }),
    {
        Request::to(concat2(REGISTRY_URL, dependency.name.as_str()))
    }

    /// The record after the answer of the registry: what its description
    /// holds for the version, or what went wrong.
    pub fn on_metadata(&self, dependency: &Dependency, answer: Result<NpmPackage, String>) -> (r:
        RetrievedDependency)
        ensures
            r@ == match answer {
                Ok(package) => package_record(dependency@, package@.licenses(), None),
                Err(error) => package_record(dependency@, None, Some(error@)),
            },
            r@.well_formed(),
            describes(r@, dependency@),
    {
        match answer {
            Ok(package) => build_retrieved_dependency(dependency, package.get_licenses(), None),
            Err(error) => build_retrieved_dependency(dependency, None, Some(error)),
        }
    }
}

} // verus!
