//! Dependencies, and what is known of a dependency once its license has been
//! looked up.

use vstd::prelude::*;
use vstd::string::*;
use crate::score::Score;

verus! {

/// The error of a record for which no license was found.
pub const NO_LICENSE: &'static str = "No License";

/// The comment of a record for which no license was found.
pub const NO_LICENSE_COMMENT: &'static str =
    "Consider manually checking this dependency's license. Remember this: https://choosealicense.com/no-permission/ and ignore it if you feel confident about it to avoid this warning.";

/// A dependency as a lock file names it: a name and a version.
#[derive(Debug, PartialEq, Eq)]
pub struct Dependency {
    /// Dependency name.
    pub name: String,
    /// Dependency version.
    pub version: String,
    /// Whether this is a development dependency, where that is known.
    pub is_dev: Option<bool>,
    /// Whether this is an optional dependency, where that is known.
    pub is_optional: Option<bool>,
}

/// What a `Dependency` holds.
pub struct DependencyView {
    pub name: Seq<char>,
    pub version: Seq<char>,
    pub is_dev: Option<bool>,
    pub is_optional: Option<bool>,
}

impl View for Dependency {
    type V = DependencyView;

    open spec fn view(&self) -> DependencyView {
        DependencyView {
            name: self.name@,
            version: self.version@,
            is_dev: self.is_dev,
            is_optional: self.is_optional,
        }
    }
}

impl DeepView for Dependency {
    type V = DependencyView;

    open spec fn deep_view(&self) -> DependencyView {
        self@
    }
}

impl Dependency {
    /// A dependency of which neither is known whether it is a development
    /// dependency nor whether it is optional.
    pub fn new(name: &str, version: &str) -> (r: Self)
        ensures
            r@ == (DependencyView {
                name: name@,
                version: version@,
                is_dev: None,
                is_optional: None,
            }),
    {
        Dependency {
            name: String::from_str(name),
            version: String::from_str(version),
            is_dev: None,
            is_optional: None,
        }
    }
}

impl Clone for Dependency {
    fn clone(&self) -> (r: Self)
        ensures
            r@ == self@,
    {
        Dependency {
            name: self.name.clone(),
            version: self.version.clone(),
            is_dev: self.is_dev,
            is_optional: self.is_optional,
        }
    }
}

impl Default for Dependency {
    fn default() -> (r: Self)
        ensures
            r@ == (DependencyView {
                name: Seq::empty(),
                version: Seq::empty(),
                is_dev: None,
                is_optional: None,
            }),
    {
        Dependency { name: String::new(), version: String::new(), is_dev: None, is_optional: None }
    }
}

/// A remark on how a license was found, or on why none was.
#[derive(Debug, PartialEq, Eq)]
pub struct Comment {
    /// The comment text.
    pub text: String,
    /// Whether the comment is left out of a report once the dependency is
    /// valid or ignored. It has no part in the verdict.
    pub remove_when_valid: bool,
}

/// What a `Comment` holds.
pub struct CommentView {
    pub text: Seq<char>,
    pub remove_when_valid: bool,
}

impl View for Comment {
    type V = CommentView;

    open spec fn view(&self) -> CommentView {
        CommentView { text: self.text@, remove_when_valid: self.remove_when_valid }
    }
}

impl DeepView for Comment {
    type V = CommentView;

    open spec fn deep_view(&self) -> CommentView {
        self@
    }
}

impl Comment {
    /// A comment that is left out once the dependency is valid.
    pub fn removable(text: &str) -> (r: Self)
        ensures
            r@ == (CommentView { text: text@, remove_when_valid: true }),
    {
        Comment { text: String::from_str(text), remove_when_valid: true }
    }

    /// A comment that is shown whether the dependency is valid or not.
    pub fn non_removable(text: &str) -> (r: Self)
        ensures
            r@ == (CommentView { text: text@, remove_when_valid: false }),
    {
        Comment { text: String::from_str(text), remove_when_valid: false }
    }
}

impl Clone for Comment {
    fn clone(&self) -> (r: Self)
        ensures
            r@ == self@,
    {
        Comment { text: self.text.clone(), remove_when_valid: self.remove_when_valid }
    }
}

impl Default for Comment {
    fn default() -> (r: Self)
        ensures
            r@ == (CommentView { text: Seq::empty(), remove_when_valid: false }),
    {
        Comment { text: String::new(), remove_when_valid: false }
    }
}

/// A dependency whose license has been looked up, with the verdict on it once
/// it has been validated.
#[derive(Debug, PartialEq, Eq)]
pub struct RetrievedDependency {
    /// Dependency name.
    pub name: String,
    /// Dependency version.
    pub version: String,
    /// Dependency type (npm, dart, rust...).
    pub dependency_type: String,
    /// Url of the dependency if available.
    pub url: Option<String>,
    /// The licenses of the dependency, where any was found.
    pub licenses: Option<Vec<String>>,
    /// Whether the dependency has been validated against the policy.
    pub validated: bool,
    /// Whether the licenses are acceptable under the policy.
    pub is_valid: bool,
    /// Whether the policy ignores the dependency.
    pub is_ignored: bool,
    /// What went wrong while the license was looked up or validated.
    pub error: Option<String>,
    /// A remark on the lookup.
    pub comment: Option<Comment>,
    /// The licenses that an analysis of the license text suggested, each with
    /// its score.
    pub suggested_licenses: Option<Vec<(String, Score)>>,
    /// Whether this is a development dependency, where that is known.
    pub is_dev: Option<bool>,
    /// Whether this is an optional dependency, where that is known.
    pub is_optional: Option<bool>,
}

/// What a `RetrievedDependency` holds.
pub struct RetrievedDependencyView {
    pub name: Seq<char>,
    pub version: Seq<char>,
    pub dependency_type: Seq<char>,
    pub url: Option<Seq<char>>,
    pub licenses: Option<Seq<Seq<char>>>,
    pub validated: bool,
    pub is_valid: bool,
    pub is_ignored: bool,
    pub error: Option<Seq<char>>,
    pub comment: Option<CommentView>,
    pub suggested_licenses: Option<Seq<(Seq<char>, Score)>>,
    pub is_dev: Option<bool>,
    pub is_optional: Option<bool>,
}

impl View for RetrievedDependency {
    type V = RetrievedDependencyView;

    open spec fn view(&self) -> RetrievedDependencyView {
        RetrievedDependencyView {
            name: self.name@,
            version: self.version@,
            dependency_type: self.dependency_type@,
            url: self.url.deep_view(),
            licenses: self.licenses.deep_view(),
            validated: self.validated,
            is_valid: self.is_valid,
            is_ignored: self.is_ignored,
            error: self.error.deep_view(),
            comment: self.comment.deep_view(),
            suggested_licenses: self.suggested_licenses.deep_view(),
            is_dev: self.is_dev,
            is_optional: self.is_optional,
        }
    }
}

impl DeepView for RetrievedDependency {
    type V = RetrievedDependencyView;

    open spec fn deep_view(&self) -> RetrievedDependencyView {
        self@
    }
}

impl RetrievedDependencyView {
    /// A record without licenses is not valid and says why.
    pub open spec fn well_formed(self) -> bool {
        self.licenses is None ==> !self.is_valid && self.error is Some
    }

    /// The record of a lookup that has just ended. It is valid where licenses
    /// were found and nothing went wrong. Where none was found it says so, in
    /// `error` and `comment`, unless the lookup had more to say.
    pub open spec fn new(
        name: Seq<char>,
        version: Seq<char>,
        dependency_type: Seq<char>,
        url: Option<Seq<char>>,
        licenses: Option<Seq<Seq<char>>>,
        error: Option<Seq<char>>,
        comment: Option<CommentView>,
        suggested_licenses: Option<Seq<(Seq<char>, Score)>>,
        is_dev: Option<bool>,
        is_optional: Option<bool>,
    ) -> RetrievedDependencyView {
        RetrievedDependencyView {
            name,
            version,
            dependency_type,
            url,
            licenses,
            validated: false,
            is_valid: licenses is Some && error is None,
            is_ignored: false,
            error: if error is Some || licenses is Some {
                error
            } else {
                Some(NO_LICENSE@)
            },
            comment: if comment is Some || licenses is Some {
                comment
            } else {
                Some(CommentView { text: NO_LICENSE_COMMENT@, remove_when_valid: true })
            },
            suggested_licenses,
            is_dev,
            is_optional,
        }
    }
}

impl RetrievedDependency {
    /// The record of a lookup that has just ended.
    pub fn new(
        name: String,
        version: String,
        dependency_type: String,
        url: Option<String>,
        licenses: Option<Vec<String>>,
        error: Option<String>,
        comment: Option<Comment>,
        suggested_licenses: Option<Vec<(String, Score)>>,
        is_dev: Option<bool>,
        is_optional: Option<bool>,
    ) -> (r: Self)
        ensures
            r@ == RetrievedDependencyView::new(
                name@,
                version@,
                dependency_type@,
                url.deep_view(),
                licenses.deep_view(),
                error.deep_view(),
                comment.deep_view(),
                suggested_licenses.deep_view(),
                is_dev,
                is_optional,
            ),
            r@.well_formed(),
    {
        let has_licenses = licenses.is_some();
        let is_valid = has_licenses && error.is_none();
        let error = match error {
            Some(e) => Some(e),
            None => if has_licenses {
                None
            } else {
                Some(String::from_str(NO_LICENSE))
            },
        };
        let comment = match comment {
            Some(c) => Some(c),
            None => if has_licenses {
                None
            } else {
                Some(Comment::removable(NO_LICENSE_COMMENT))
            },
        };
        RetrievedDependency {
            name,
            version,
            dependency_type,
            url,
            licenses,
            validated: false,
            is_valid,
            is_ignored: false,
            error,
            comment,
            suggested_licenses,
            is_dev,
            is_optional,
        }
    }
}

impl Clone for RetrievedDependency {
    fn clone(&self) -> (r: Self)
        ensures
            r@ == self@,
    {
        RetrievedDependency {
            name: self.name.clone(),
            version: self.version.clone(),
            dependency_type: self.dependency_type.clone(),
            url: clone_text(&self.url),
            licenses: match &self.licenses {
                Some(v) => Some(clone_texts(v)),
                None => None,
            },
            validated: self.validated,
            is_valid: self.is_valid,
            is_ignored: self.is_ignored,
            error: clone_text(&self.error),
            comment: match &self.comment {
                Some(c) => Some(c.clone()),
                None => None,
            },
            suggested_licenses: match &self.suggested_licenses {
                Some(v) => Some(clone_suggestions(v)),
                None => None,
            },
            is_dev: self.is_dev,
            is_optional: self.is_optional,
        }
    }
}

impl Default for RetrievedDependency {
    fn default() -> (r: Self)
        ensures
            r@ == (RetrievedDependencyView {
                name: Seq::empty(),
                version: Seq::empty(),
                dependency_type: Seq::empty(),
                url: None,
                licenses: None,
                validated: false,
                is_valid: false,
                is_ignored: false,
                error: None,
                comment: None,
                suggested_licenses: None,
                is_dev: None,
                is_optional: None,
            }),
    {
        RetrievedDependency {
            name: String::new(),
            version: String::new(),
            dependency_type: String::new(),
            url: None,
            licenses: None,
            validated: false,
            is_valid: false,
            is_ignored: false,
            error: None,
            comment: None,
            suggested_licenses: None,
            is_dev: None,
            is_optional: None,
        }
    }
}

/// A copy of an optional text.
pub fn clone_text(text: &Option<String>) -> (r: Option<String>)
    ensures
        r.deep_view() == text.deep_view(),
{
    match text {
        Some(t) => Some(t.clone()),
        None => None,
    }
}

/// A copy of a list of texts.
pub fn clone_texts(texts: &Vec<String>) -> (r: Vec<String>)
    ensures
        r.deep_view() == texts.deep_view(),
{
    let mut r: Vec<String> = Vec::new();
    let mut i: usize = 0;
    while i < texts.len()
        invariant
            i <= texts.len(),
            r.len() == i,
            forall|k: int| 0 <= k < i ==> r@[k]@ == texts@[k]@,
        decreases texts.len() - i,
    {
        r.push(texts[i].clone());
        i = i + 1;
    }
    assert(r.deep_view() =~= texts.deep_view());
    r
}

/// A copy of a list of suggestions.
pub fn clone_suggestions(suggestions: &Vec<(String, Score)>) -> (r: Vec<(String, Score)>)
    ensures
        r.deep_view() == suggestions.deep_view(),
{
    let mut r: Vec<(String, Score)> = Vec::new();
    let mut i: usize = 0;
    while i < suggestions.len()
        invariant
            i <= suggestions.len(),
            r.len() == i,
            forall|k: int| 0 <= k < i ==> r@[k].0@ == suggestions@[k].0@ && r@[k].1 == suggestions@[k].1,
        decreases suggestions.len() - i,
    {
        r.push((suggestions[i].0.clone(), suggestions[i].1));
        i = i + 1;
    }
    assert(r.deep_view() =~= suggestions.deep_view());
    r
}

} // verus!
