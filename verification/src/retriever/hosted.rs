//! The license of a package that pub.dev hosts, read from the package's
//! license page.
//!
//! The page names a license in a few words and shows the license text. The
//! name is imprecise, so where the known licenses are at hand the text is
//! compared with them and a confident match wins over the name.

use vstd::prelude::*;
use vstd::string::*;
use crate::dependency::{
    Comment,
    CommentView,
    Dependency,
    DependencyView,
    RetrievedDependency,
    RetrievedDependencyView,
};
use crate::licrc::describes;
use crate::retriever::{
    concat2,
    concat4,
    one_license,
    LicenseMatch,
    LicenseMatchView,
    Request,
    RequestView,
    USER_AGENT,
};
use crate::score::{percent_text, Score};
use crate::scrape::{select_elements, selected_elements};
use crate::text::{
    chars_eq,
    chars_of,
    contains,
    find,
    find_from_exec,
    map_char,
    map_char_exec,
    occurs_at_exec,
    slice,
    starts_with,
    str_eq,
    string_of,
};

verus! {

/// The type of the dependencies that pub.dev hosts.
pub const DART: &'static str = "dart";

/// Where pub.dev keeps its packages.
pub const PACKAGES_URL: &'static str = "https://pub.dev/packages/";

/// The elements that may title the name of the license.
pub const TITLE_SELECTOR: &'static str = "h3[class=\"title\"]";

/// The title above the name of the license.
pub const LICENSE_TITLE: &'static str = "License";

/// The element that holds the license text.
pub const HIGHLIGHT_SELECTOR: &'static str = ".detail-container.detail-body-main .highlight pre";

/// The element that holds the license text on pages laid out otherwise.
pub const TAB_SELECTOR: &'static str = ".detail-container.detail-body-main .tab-content";

/// The license that pub.dev names precisely enough.
pub const MIT: &'static str = "MIT";

/// The comment of a record that rests on the name alone.
pub const GENERIC_LICENSE_COMMENT: &'static str =
    "Using **Pub Dev Generic License**. We couldn't get the original license.";

/// The page of the package version.
pub open spec fn package_url(dependency: DependencyView) -> Seq<char> {
    PACKAGES_URL@ + dependency.name + "/versions/"@ + dependency.version
}

/// The name in the element that follows the title: what stands before the
/// first `" ("`, without the image that may lead it.
pub open spec fn imprecise_license(inner_html: Seq<char>) -> Option<Seq<char>> {
    match find(inner_html, " ("@) {
        None => None,
        Some(end) => {
            let head = inner_html.take(end);
            if starts_with(head, "<img"@) && contains(head, "\">"@) {
                Some(head.skip(find(head, "\">"@)->0 + 2))
            } else {
                Some(head)
            }
        },
    }
}

/// The index, at or after `from`, of the first element whose inner HTML is the
/// license title.
pub open spec fn license_title_from(
    elements: Seq<(Seq<char>, Option<Seq<char>>)>,
    from: int,
) -> Option<int>
    decreases elements.len() - from,
{
    if from < 0 || from >= elements.len() {
        None
    } else if elements[from].0 == LICENSE_TITLE@ {
        Some(from)
    } else {
        license_title_from(elements, from + 1)
    }
}

/// The license that the titles of a page name: the name in the element that
/// follows the first license title.
pub open spec fn declared_among(titles: Seq<(Seq<char>, Option<Seq<char>>)>) -> Option<Seq<char>> {
    match license_title_from(titles, 0) {
        None => None,
        Some(i) => match titles[i].1 {
            None => None,
            Some(sibling) => imprecise_license(sibling),
        },
    }
}

/// The license that the page names.
pub open spec fn declared_license(html: Seq<char>) -> Option<Seq<char>> {
    match selected_elements(html, TITLE_SELECTOR@) {
        None => None,
        Some(titles) => declared_among(titles),
    }
}

/// The inner HTML of the first of the elements.
pub open spec fn first_of(elements: Seq<(Seq<char>, Option<Seq<char>>)>) -> Option<Seq<char>> {
    if elements.len() > 0 {
        Some(elements[0].0)
    } else {
        None
    }
}

/// The inner HTML of the first element that `selector` selects.
pub open spec fn first_selected(html: Seq<char>, selector: Seq<char>) -> Option<Seq<char>> {
    match selected_elements(html, selector) {
        Some(elements) => first_of(elements),
        None => None,
    }
}

/// The license text that the page shows.
pub open spec fn official_license(html: Seq<char>) -> Option<Seq<char>> {
    if first_selected(html, HIGHLIGHT_SELECTOR@) is Some {
        first_selected(html, HIGHLIGHT_SELECTOR@)
    } else {
        first_selected(html, TAB_SELECTOR@)
    }
}

/// A license, where there is one, as a list of licenses.
pub open spec fn as_licenses(license: Option<Seq<char>>) -> Option<Seq<Seq<char>>> {
    match license {
        Some(l) => Some(seq![l]),
        None => None,
    }
}

/// The record of a hosted package.
pub open spec fn hosted_record(
    dependency: DependencyView,
    licenses: Option<Seq<Seq<char>>>,
    error: Option<Seq<char>>,
    url: Option<Seq<char>>,
    comment: Option<CommentView>,
    suggested_licenses: Option<Seq<(Seq<char>, Score)>>,
) -> RetrievedDependencyView {
    RetrievedDependencyView::new(
        dependency.name,
        dependency.version,
        DART@,
        url,
        licenses,
        error,
        comment,
        suggested_licenses,
        None,
        None,
    )
}

/// What follows the license page.
#[derive(Debug, PartialEq, Eq)]
pub enum PageOutcome {
    /// The lookup has ended.
    Done(RetrievedDependency),
    /// The license text is to be compared with the known licenses.
    Analyze {
        /// The license that the page names.
        declared: Option<String>,
        /// The license text.
        text: String,
    },
}

/// What a `PageOutcome` holds.
pub enum PageOutcomeView {
    Done(RetrievedDependencyView),
    Analyze { declared: Option<Seq<char>>, text: Seq<char> },
}

impl View for PageOutcome {
    type V = PageOutcomeView;

    open spec fn view(&self) -> PageOutcomeView {
        match self {
            PageOutcome::Done(record) => PageOutcomeView::Done(record@),
            PageOutcome::Analyze { declared, text } => PageOutcomeView::Analyze {
                declared: declared.deep_view(),
                text: text@,
            },
        }
    }
}

/// What follows a license page that names the license `declared` and shows
/// the license text `official`. Where the page shows a license text and the
/// known licenses are at hand, the text is analysed, unless the page names
/// MIT, which is taken as it is. Else the record rests on the name that the
/// page gives, and says so.
pub open spec fn decided(
    dependency: DependencyView,
    corpus: bool,
    declared: Option<Seq<char>>,
    official: Option<Seq<char>>,
) -> PageOutcomeView {
    let url = Some(package_url(dependency));
    if official is Some && corpus {
        if declared == Some(MIT@) {
            PageOutcomeView::Done(hosted_record(dependency, as_licenses(declared), None, url, None, None))
        } else {
            PageOutcomeView::Analyze { declared, text: official->0 }
        }
    } else {
        PageOutcomeView::Done(
            hosted_record(
                dependency,
                as_licenses(declared),
                None,
                url,
                Some(CommentView { text: GENERIC_LICENSE_COMMENT@, remove_when_valid: true }),
                None,
            ),
        )
    }
}

/// What follows a license page with this body.
pub open spec fn page_outcome(dependency: DependencyView, corpus: bool, html: Seq<char>) -> PageOutcomeView {
    decided(dependency, corpus, declared_license(html), official_license(html))
}

/// The record of a package whose license page could not be fetched.
pub open spec fn fetch_failure(dependency: DependencyView, error: Seq<char>) -> RetrievedDependencyView {
    hosted_record(dependency, None, Some(error), Some(package_url(dependency)), None, None)
}

/// The comment of a confident match that differs from the name on the page.
pub open spec fn confident_comment(declared: Option<Seq<char>>, found: LicenseMatchView) -> Seq<
    char,
> {
    "Pub Dev license: "@ + (match declared {
        Some(d) => d,
        None => "NOT DECLARED"@,
    }) + ". Our score for **"@ + found.name + "** is **"@ + percent_text(found.score.spec_bits())
        + "%**."@
}

/// The comment of a match that is not confident.
pub open spec fn doubtful_comment(found: LicenseMatchView) -> Seq<char> {
    "Using **Pub Dev Generic License**. Our analysis, though, estimated that it could be **"@
        + found.name + "** with a **"@ + percent_text(found.score.spec_bits()) + "%** score."@
}

/// The record after the analysis of the license text. A confident match is
/// the license; the record remarks on it unless the page names the same
/// license (with spaces for hyphens). A match that is not confident leaves
/// the name on the page as the license, where there is one, and the record
/// says what the analysis guessed. Either way the match is kept as a
/// suggestion.
pub open spec fn analysis_outcome(
    dependency: DependencyView,
    declared: Option<Seq<char>>,
    found: LicenseMatchView,
) -> RetrievedDependencyView {
    let url = Some(package_url(dependency));
    let suggested = Some(seq![(found.name, found.score)]);
    if found.score.spec_is_confident() {
        hosted_record(
            dependency,
            Some(seq![found.name]),
            None,
            url,
            if declared == Some(map_char(found.name, '-', ' ')) {
                None
            } else {
                Some(
                    CommentView {
                        text: confident_comment(declared, found),
                        remove_when_valid: false,
                    },
                )
            },
            suggested,
        )
    } else {
        hosted_record(
            dependency,
            as_licenses(declared),
            None,
            url,
            Some(CommentView { text: doubtful_comment(found), remove_when_valid: false }),
            suggested,
        )
    }
}

/// The name in the element that follows the title.
pub fn get_imprecise_license(inner_html: &str) -> (r: Option<String>)
    ensures
        r.deep_view() == imprecise_license(inner_html@),
{
    let lic = chars_of(inner_html);
    let open = chars_of(" (");
    match find_from_exec(&lic, &open, 0) {
        None => None,
        Some(end) => {
            let head = slice(&lic, 0, end);
            assert(head@ == lic@.take(end as int));
            let image = chars_of("<img");
            let close = chars_of("\">");
            proof {
                reveal_strlit("\">");
            }
            if occurs_at_exec(&head, &image, 0) {
                match find_from_exec(&head, &close, 0) {
                    Some(at) => {
                        let name = slice(&head, at + 2, head.len());
                        assert(name@ == head@.skip(at + 2));
                        return Some(string_of(&name));
                    },
                    None => {},
                }
            }
            Some(string_of(&head))
        },
    }
}

/// The license that the titles of a page name, each title given as its
/// inner HTML and that of the element that follows it.
pub fn get_declared_among(titles: &Vec<(String, Option<String>)>) -> (r: Option<String>)
    ensures
        r.deep_view() == declared_among(titles.deep_view()),
{
    let ghost views = titles.deep_view();
    let mut i: usize = 0;
    while i < titles.len()
        invariant
            i <= titles.len(),
            views == titles.deep_view(),
            views.len() == titles.len(),
            license_title_from(views, 0) == license_title_from(views, i as int),
        decreases titles.len() - i,
    {
        assert(views[i as int] == titles@[i as int].deep_view());
        assert(views[i as int].0 == titles@[i as int].0@);
        assert(views[i as int].1 == titles@[i as int].1.deep_view());
        if str_eq(titles[i].0.as_str(), LICENSE_TITLE) {
            return match &titles[i].1 {
                None => None,
                Some(sibling) => get_imprecise_license(sibling.as_str()),
            };
        }
        i = i + 1;
    }
    None
}

/// The license that the page names.
pub fn get_declared_license(html: &str) -> (r: Option<String>)
    ensures
        r.deep_view() == declared_license(html@),
{
    match select_elements(html, TITLE_SELECTOR) {
        None => None,
        Some(titles) => get_declared_among(&titles),
    }
}

/// The inner HTML of the first of the elements.
pub fn get_first_of(elements: &Vec<(String, Option<String>)>) -> (r: Option<String>)
    ensures
        r.deep_view() == first_of(elements.deep_view()),
{
    if elements.len() > 0 {
        assert(elements.deep_view()[0] == elements@[0].deep_view());
        Some(elements[0].0.clone())
    } else {
        None
    }
}

/// The inner HTML of the first element that `selector` selects.
pub fn get_first_selected(html: &str, selector: &str) -> (r: Option<String>)
    ensures
        r.deep_view() == first_selected(html@, selector@),
{
    match select_elements(html, selector) {
        Some(elements) => get_first_of(&elements),
        None => None,
    }
}

/// The license text that the page shows.
pub fn get_official_license(html: &str) -> (r: Option<String>)
    ensures
        r.deep_view() == official_license(html@),
{
    match get_first_selected(html, HIGHLIGHT_SELECTOR) {
        Some(text) => Some(text),
        None => get_first_selected(html, TAB_SELECTOR),
    }
}

/// The record of a hosted package.
pub fn retrieved_dependency(
    dependency: &Dependency,
    licenses: Option<Vec<String>>,
    error: Option<String>,
    url: Option<String>,
    comment: Option<Comment>,
    suggested_licenses: Option<Vec<(String, Score)>>,
) -> (r: RetrievedDependency)
    ensures
        r@ == hosted_record(
            dependency@,
            licenses.deep_view(),
            error.deep_view(),
            url.deep_view(),
            comment.deep_view(),
            suggested_licenses.deep_view(),
        ),
        r@.well_formed(),
        describes(r@, dependency@),
{
    RetrievedDependency::new(
        dependency.name.clone(),
        dependency.version.clone(),
        String::from_str(DART),
        url,
        licenses,
        error,
        comment,
        suggested_licenses,
        None,
        None,
    )
}

/// A license, where there is one, as a list of licenses.
fn licenses_of(license: &Option<String>) -> (r: Option<Vec<String>>)
    ensures
        r.deep_view() == as_licenses(license.deep_view()),
{
    match license {
        Some(l) => Some(one_license(l.as_str())),
        None => None,
    }
}

/// The lookup of the license of a package that pub.dev hosts.
#[derive(Debug, Clone, Copy, PartialEq, Eq)]
pub struct Hosted {
    /// Whether the known licenses are at hand, for a license text to be
    /// compared with them.
    pub corpus: bool,
}

impl Hosted {
    /// A lookup with or without the known licenses at hand.
    pub fn new(corpus: bool) -> (r: Self)
        ensures
            r.corpus == corpus,
    {
        Hosted { corpus }
    }

    /// The page of the package version.
    pub fn package_url(dependency: &Dependency) -> (r: String)
        ensures
            r@ == package_url(dependency@),
    {
        concat4(PACKAGES_URL, dependency.name.as_str(), "/versions/", dependency.version.as_str())
    }

    /// The request that a lookup begins with: the license page of the
    /// package version.
    pub fn get_dependency(&self, dependency: &Dependency) -> (r: Request)
        ensures
            r@ == (RequestView {
                url: package_url(dependency@) + "/license"@,
                user_agent: USER_AGENT@,
            }),
    {
        let url = Self::package_url(dependency);
        Request::to(concat2(url.as_str(), "/license"))
    }

    /// What follows the answer to the request for the license page: the body
    /// of the page, or what went wrong.
    pub fn on_license_page(&self, dependency: &Dependency, answer: Result<String, String>) -> (r:
        PageOutcome)
        ensures
            r@ == match answer {
                Ok(html) => page_outcome(dependency@, self.corpus, html@),
                Err(error) => PageOutcomeView::Done(fetch_failure(dependency@, error@)),
            },
            r matches PageOutcome::Done(record) ==> record@.well_formed() && describes(
                record@,
                dependency@,
            ),
    {
        match answer {
            Err(error) => PageOutcome::Done(
                retrieved_dependency(
                    dependency,
                    None,
                    Some(error),
                    Some(Self::package_url(dependency)),
                    None,
                    None,
                ),
            ),
            Ok(html) => {
                let declared = get_declared_license(html.as_str());
                let official = get_official_license(html.as_str());
                self.on_scraped(dependency, declared, official)
            },
        }
    }

    /// What follows a license page that names the license `declared` and
    /// shows the license text `official`.
    pub fn on_scraped(
        &self,
        dependency: &Dependency,
        declared: Option<String>,
        official: Option<String>,
    ) -> (r: PageOutcome)
        ensures
            r@ == decided(dependency@, self.corpus, declared.deep_view(), official.deep_view()),
            r matches PageOutcome::Done(record) ==> record@.well_formed() && describes(
                record@,
                dependency@,
            ),
    {
        let url = Self::package_url(dependency);
        match official {
            Some(text) => {
                if self.corpus {
                    let is_mit = match &declared {
                        Some(d) => str_eq(d.as_str(), MIT),
                        None => false,
                    };
                    if is_mit {
                        return PageOutcome::Done(
                            retrieved_dependency(
                                dependency,
                                licenses_of(&declared),
                                None,
                                Some(url),
                                None,
                                None,
                            ),
                        );
                    }
                    return PageOutcome::Analyze { declared, text };
                }
            },
            None => {},
        }
        PageOutcome::Done(
            retrieved_dependency(
                dependency,
                licenses_of(&declared),
                None,
                Some(url),
                Some(Comment::removable(GENERIC_LICENSE_COMMENT)),
                None,
            ),
        )
    }

    /// The record after the analysis of the license text.
    pub fn on_analysis(
        &self,
        dependency: &Dependency,
        declared: Option<String>,
        found: &LicenseMatch,
    ) -> (r: RetrievedDependency)
        ensures
            r@ == analysis_outcome(dependency@, declared.deep_view(), found@),
            r@.well_formed(),
            describes(r@, dependency@),
    {
        let url = Self::package_url(dependency);
        let percent = found.score.percent_text();
        let mut suggested: Vec<(String, Score)> = Vec::new();
        suggested.push((found.name.clone(), found.score));
        assert(suggested.deep_view() =~= seq![(found@.name, found@.score)]);
        if found.score.is_confident() {
            let same = match &declared {
                Some(d) => {
                    let name = chars_of(found.name.as_str());
                    let spaced = map_char_exec(&name, '-', ' ');
                    let d = chars_of(d.as_str());
                    chars_eq(&d, &spaced)
                },
                None => false,
            };
            let comment = if same {
                None
            } else {
                let named = match &declared {
                    Some(d) => d.clone(),
                    None => String::from_str("NOT DECLARED"),
                };
                let mut text = concat4(
                    "Pub Dev license: ",
                    named.as_str(),
                    ". Our score for **",
                    found.name.as_str(),
                );
                text.append("** is **");
                text.append(percent.as_str());
                text.append("%**.");
                Some(Comment { text, remove_when_valid: false })
            };
            retrieved_dependency(
                dependency,
                Some(one_license(found.name.as_str())),
                None,
                Some(url),
                comment,
                Some(suggested),
            )
        } else {
            let mut text = concat4(
                "Using **Pub Dev Generic License**. Our analysis, though, estimated that it could be **",
                found.name.as_str(),
                "** with a **",
                percent.as_str(),
            );
            text.append("%** score.");
            retrieved_dependency(
                dependency,
                licenses_of(&declared),
                None,
                Some(url),
                Some(Comment { text, remove_when_valid: false }),
                Some(suggested),
            )
        }
    }
}

} // verus!
