//! The license of a crate, as the crates.io API declares it.
//!
//! The API names a license for every crate. Where the crate ships a license
//! file of its own the name is `non-standard`, and the lookup goes on at
//! docs.rs.

use vstd::prelude::*;
use vstd::string::*;
use crate::dependency::{
    Comment,
    CommentView,
    Dependency,
    DependencyView,
    RetrievedDependency,
    RetrievedDependencyView,
};
use crate::licrc::describes;
use crate::retriever::docs_rs::{manifest_request, DocsRs};
use crate::retriever::{concat4, one_license, Next, NextView, Request, RequestView, USER_AGENT};
use crate::score::Score;
use crate::text::str_eq;

verus! {

/// The type of the dependencies that crates.io holds.
pub const RUST: &'static str = "rust";

/// Where crates.io shows its crates.
pub const CRATES_URL: &'static str = "https://crates.io/crates/";

/// Where crates.io answers questions about its crates.
pub const API_URL: &'static str = "https://crates.io/api/v1/crates/";

/// The license that the API names where a crate ships its own license file.
pub const NON_STANDARD: &'static str = "non-standard";

/// The error of a crate for which the API names no license.
pub const NO_LICENSE_IN_API: &'static str = "No license found in Crates.io API";

/// The page of the crate version.
pub open spec fn crate_url(dependency: DependencyView) -> Seq<char> {
    CRATES_URL@ + dependency.name + "/"@ + dependency.version
}

/// Where the API describes the crate version.
pub open spec fn api_url(dependency: DependencyView) -> Seq<char> {
    API_URL@ + dependency.name + "/"@ + dependency.version
}

/// A comment, where there is one, as a comment that is left out once the
/// dependency is valid.
pub open spec fn as_removable(comment: Option<Seq<char>>) -> Option<CommentView> {
    match comment {
        Some(text) => Some(CommentView { text, remove_when_valid: true }),
        None => None,
    }
}

/// The record of a crate.
pub open spec fn crate_record(
    dependency: DependencyView,
    licenses: Option<Seq<Seq<char>>>,
    error: Option<Seq<char>>,
    comment: Option<Seq<char>>,
    suggested_licenses: Option<Seq<(Seq<char>, Score)>>,
) -> RetrievedDependencyView {
    RetrievedDependencyView::new(
        dependency.name,
        dependency.version,
        RUST@,
        Some(crate_url(dependency)),
        licenses,
        error,
        as_removable(comment),
        suggested_licenses,
        None,
        None,
    )
}

/// The record of a crate that could not be looked up.
pub open spec fn crate_failure(dependency: DependencyView, error: Seq<char>) -> RetrievedDependencyView {
    crate_record(dependency, None, Some(error), None, None)
}

/// What follows the answer of the API: the license that it names, where it
/// names one. A license of the crate's own sends the lookup on to docs.rs;
/// any other is the license of the crate.
pub open spec fn metadata_outcome(dependency: DependencyView, license: Option<Seq<char>>) -> NextView {
    match license {
        None => NextView::Done(crate_failure(dependency, NO_LICENSE_IN_API@)),
        Some(name) => if name == NON_STANDARD@ {
            NextView::Fetch(manifest_request(dependency))
        } else {
            NextView::Done(crate_record(dependency, Some(seq![name]), None, None, None))
        },
    }
}

/// The record of a crate.
pub fn crates_io_retrieved_dependency(
    dependency: &Dependency,
    licenses: Option<Vec<String>>,
    error: Option<&str>,
    comment: Option<String>,
    suggested_licenses: Option<Vec<(String, Score)>>,
) -> (r: RetrievedDependency)
    ensures
        r@ == crate_record(
            dependency@,
            licenses.deep_view(),
            error.deep_view(),
            comment.deep_view(),
            suggested_licenses.deep_view(),
        ),
        r@.well_formed(),
        describes(r@, dependency@),
{
    let url = concat4(CRATES_URL, dependency.name.as_str(), "/", dependency.version.as_str());
    RetrievedDependency::new(
        dependency.name.clone(),
        dependency.version.clone(),
        String::from_str(RUST),
        Some(url),
        licenses,
        match error {
            Some(e) => Some(String::from_str(e)),
            None => None,
        },
        match comment {
            Some(text) => Some(Comment { text, remove_when_valid: true }),
            None => None,
        },
        suggested_licenses,
        None,
        None,
    )
}

/// The lookup of the license of a crate in the crates.io API.
#[derive(Debug, Clone, Copy, PartialEq, Eq)]
pub struct CratesIo {
    /// Whether the known licenses are at hand, for a license file to be
    /// compared with them.
    pub corpus: bool,
}

impl CratesIo {
    /// A lookup with or without the known licenses at hand.
    pub fn new(corpus: bool) -> (r: Self)
        ensures
            r.corpus == corpus,
    {
        CratesIo { corpus }
    }

    /// The request that a lookup begins with: the API's description of the
    /// crate version.
    pub fn get_dependency(&self, dependency: &Dependency) -> (r: Request)
        ensures
            r@ == (RequestView { url: api_url(dependency@), user_agent: USER_AGENT@ }),
    {
        Request::to(concat4(API_URL, dependency.name.as_str(), "/", dependency.version.as_str()))
    }

    /// What follows the answer of the API: the license in its description of
    /// the version, where that is a text, or what went wrong. A request that
    /// follows is for the crate's manifest at docs.rs, and the lookup goes on
    /// there.
    pub fn on_metadata(&self, dependency: &Dependency, answer: Result<Option<String>, String>) -> (r:
        Next)
        ensures
            r@ == match answer {
                Ok(license) => metadata_outcome(dependency@, license.deep_view()),
                Err(error) => NextView::Done(crate_failure(dependency@, error@)),
            },
            r matches Next::Done(record) ==> record@.well_formed() && describes(
                record@,
                dependency@,
            ),
            !(r is Analyze),
    {
        match answer {
            Err(error) => Next::Done(
                crates_io_retrieved_dependency(dependency, None, Some(error.as_str()), None, None),
            ),
            Ok(None) => Next::Done(
                crates_io_retrieved_dependency(dependency, None, Some(NO_LICENSE_IN_API), None, None),
            ),
            Ok(Some(license)) => {
                if str_eq(license.as_str(), NON_STANDARD) {
                    Next::Fetch(DocsRs::new(self.corpus).get_dependency(dependency))
                } else {
                    Next::Done(
                        crates_io_retrieved_dependency(
                            dependency,
                            Some(one_license(license.as_str())),
                            None,
                            None,
                            None,
                        ),
                    )
                }
            },
        }
    }
}

} // verus!
