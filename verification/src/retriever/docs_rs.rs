//! The license of a crate, read from the crate's source as docs.rs shows it.
//!
//! The manifest of the crate declares a license by name, or names a license
//! file. A license file is fetched and compared with the known licenses: a
//! confident match is the license of the crate, and any other match leaves
//! the crate without a license.

use vstd::prelude::*;
use vstd::string::*;
use crate::dependency::{Dependency, DependencyView, RetrievedDependency, RetrievedDependencyView};
use crate::licrc::describes;
use crate::retriever::crates_io::{crate_failure, crate_record, crates_io_retrieved_dependency};
use crate::retriever::{
    concat2,
    concat3,
    concat4,
    one_license,
    LicenseMatch,
    LicenseMatchView,
    Next,
    NextView,
    Request,
    RequestView,
    USER_AGENT,
};
use crate::score::{percent_text, Score};
use crate::scrape::{match_pattern, pattern_matches, render_text, rendered_text};
use crate::text::{
    chars_of,
    find,
    find_from_exec,
    join,
    join_exec,
    line_with_prefix,
    line_with_prefix_exec,
    remove_char,
    remove_char_exec,
    replace,
    replace_exec,
    slice,
    str_eq,
    string_of,
    trim,
    trim_exec,
};

verus! {

/// Where docs.rs shows its crates.
pub const DOCS_RS_URL: &'static str = "https://docs.rs/crate/";

/// The shape of a page that shows a source file: the file stands in the
/// place of the variable.
pub const SOURCE_TEMPLATE: &'static str =
    "<div id=\"source-code\"><pre><code>{{value}}</code></pre></div>";

/// The variable of the template.
pub const VALUE: &'static str = "value";

/// The manifest of a crate.
pub const MANIFEST: &'static str = "Cargo.toml";

/// The key of a license declared by name.
pub const LICENSE: &'static str = "license";

/// The key of a license declared by file.
pub const LICENSE_FILE: &'static str = "license-file";

/// The width of the lines on which a license file is laid out.
pub const TEXT_WIDTH: usize = 3000;

/// The error of a page that could not be read.
pub const PARSE_ERROR: &'static str = "Error trying to parse docs.rs";

/// The error of a manifest that declares no license.
pub const NO_DECLARATION: &'static str =
    "No information found in Cargo.toml regarding license or license-file.";

/// The error of a manifest whose license line has an unknown key.
pub const UNEXPECTED_KEY: &'static str = "Unexpected license key while parsing cargo.toml";

/// The error of a license file with no known licenses at hand.
pub const NO_CORPUS: &'static str = "No askalono store present";

/// The error of a license file that no known license matches with
/// confidence.
pub const LOW_CONFIDENCE: &'static str = "Low confidence match";

/// The source of the crate version at docs.rs.
pub open spec fn source_url(name: Seq<char>, version: Seq<char>) -> Seq<char> {
    DOCS_RS_URL@ + name + "/"@ + version + "/source/"@
}

/// The request for the manifest of the crate version.
pub open spec fn manifest_request(dependency: DependencyView) -> RequestView {
    RequestView {
        url: source_url(dependency.name, dependency.version) + MANIFEST@,
        user_agent: USER_AGENT@,
    }
}

/// The text that a match gives the variable `name`, at or after index `from`
/// of the match.
pub open spec fn variable_from(found: Seq<(Seq<char>, Seq<char>)>, name: Seq<char>, from: int) -> Option<
    Seq<char>,
>
    decreases found.len() - from,
{
    if from < 0 || from >= found.len() {
        None
    } else if found[from].0 == name {
        Some(found[from].1)
    } else {
        variable_from(found, name, from + 1)
    }
}

/// The texts that the matches give the variable of the template, in the
/// order of the matches.
pub open spec fn values(matches: Seq<Seq<(Seq<char>, Seq<char>)>>) -> Seq<Seq<char>>
    decreases matches.len(),
{
    if matches.len() == 0 {
        Seq::empty()
    } else {
        match variable_from(matches.last(), VALUE@, 0) {
            Some(v) => values(matches.drop_last()).push(v),
            None => values(matches.drop_last()),
        }
    }
}

/// What a manifest, given as the pieces of text that its page shows, declares
/// of its license: the key and the value of the first line that begins with
/// `license`. The pieces stand on lines of their own, an equals sign between
/// two of them too, which is put back on the line of its neighbours. Key and
/// value are what stands before and after the first equals sign of the line,
/// up to a second one, without the white space around them; the value is
/// without its quotation marks. A line without an equals sign declares
/// nothing.
pub open spec fn license_declaration(pieces: Seq<Seq<char>>) -> Option<(Seq<char>, Seq<char>)> {
    let text = replace(join(pieces, "\n"@), "\n=\n"@, "="@);
    match line_with_prefix(text, LICENSE@) {
        None => None,
        Some(line) => match find(line, "="@) {
            None => None,
            Some(at) => {
                let rest = line.skip(at + 1);
                let value = match find(rest, "="@) {
                    None => rest,
                    Some(end) => rest.take(end),
                };
                Some((trim(line.take(at)), remove_char(trim(value), '"')))
            },
        },
    }
}

/// What follows a manifest with this declaration. A license declared by name
/// is the license. A license file is fetched where the known licenses are at
/// hand. Anything else ends the lookup without a license.
pub open spec fn declaration_outcome(
    dependency: DependencyView,
    corpus: bool,
    declaration: Option<(Seq<char>, Seq<char>)>,
) -> NextView {
    match declaration {
        None => NextView::Done(crate_failure(dependency, NO_DECLARATION@)),
        Some((key, value)) => if key == LICENSE@ {
            NextView::Done(crate_record(dependency, Some(seq![value]), None, None, None))
        } else if key == LICENSE_FILE@ {
            if corpus {
                NextView::Fetch(
                    RequestView {
                        url: source_url(dependency.name, dependency.version) + value,
                        user_agent: USER_AGENT@,
                    },
                )
            } else {
                NextView::Done(crate_failure(dependency, NO_CORPUS@))
            }
        } else {
            NextView::Done(crate_failure(dependency, UNEXPECTED_KEY@))
        },
    }
}

/// What follows the manifest page with this body.
pub open spec fn manifest_outcome(dependency: DependencyView, corpus: bool, html: Seq<char>) -> NextView {
    match pattern_matches(SOURCE_TEMPLATE@, html) {
        None => NextView::Done(crate_failure(dependency, PARSE_ERROR@)),
        Some(matches) => declaration_outcome(dependency, corpus, license_declaration(values(matches))),
    }
}

/// The record of a crate whose license file could not be had from
/// `license_url`.
pub open spec fn not_declared(dependency: DependencyView, license_url: Seq<char>) -> RetrievedDependencyView {
    crate_failure(dependency, "Not declared in Cargo.toml. Check the url: "@ + license_url)
}

/// The first piece of text that the matches of a page hold.
pub open spec fn first_piece(matches: Seq<Seq<(Seq<char>, Seq<char>)>>) -> Option<Seq<char>> {
    if matches.len() == 0 {
        None
    } else {
        variable_from(matches[0], VALUE@, 0)
    }
}

/// The license text that a page with this body shows: the first piece of the
/// page, laid out as plain text.
pub open spec fn license_text(html: Seq<char>) -> Option<Seq<char>> {
    match pattern_matches(SOURCE_TEMPLATE@, html) {
        None => None,
        Some(matches) => match first_piece(matches) {
            None => None,
            Some(piece) => rendered_text(piece, TEXT_WIDTH as nat),
        },
    }
}

/// What follows the license text of the file at `license_url`: its
/// analysis, where there is a text.
pub open spec fn text_outcome(
    dependency: DependencyView,
    license_url: Seq<char>,
    text: Option<Seq<char>>,
) -> NextView {
    match text {
        Some(text) => NextView::Analyze(text),
        None => NextView::Done(not_declared(dependency, license_url)),
    }
}

/// What follows the page of the license file with this body.
pub open spec fn license_file_outcome(
    dependency: DependencyView,
    license_url: Seq<char>,
    html: Seq<char>,
) -> NextView {
    text_outcome(dependency, license_url, license_text(html))
}

/// The comment of a confident match.
pub open spec fn confident_comment(found: LicenseMatchView) -> Seq<char> {
    "Our score for this license is "@ + percent_text(found.score.spec_bits()) + "%."@
}

/// The comment of a match that is not confident.
pub open spec fn doubtful_comment(found: LicenseMatchView) -> Seq<char> {
    "Our analysis estimated that it could be **"@ + found.name + "** with a **"@ + percent_text(
        found.score.spec_bits(),
    ) + "%** score."@
}

/// The record after the analysis of the license file. A confident match is
/// the license, and the record tells its score. A match that is not confident
/// is no license: the manifest names none to fall back on, so the record is
/// left without one, and says what the analysis guessed. Either way the match
/// is kept as a suggestion.
pub open spec fn analysis_outcome(dependency: DependencyView, found: LicenseMatchView) -> RetrievedDependencyView {
    if found.score.spec_is_confident() {
        crate_record(
            dependency,
            Some(seq![found.name]),
            None,
            Some(confident_comment(found)),
            Some(seq![(found.name, found.score)]),
        )
    } else {
        crate_record(
            dependency,
            None,
            Some(LOW_CONFIDENCE@),
            Some(doubtful_comment(found)),
            Some(seq![(found.name, found.score)]),
        )
    }
}

/// The source of the crate version at docs.rs.
pub fn docs_rs_url(dependency_name: &str, dependency_version: &str) -> (r: String)
    ensures
        r@ == source_url(dependency_name@, dependency_version@),
{
    let mut r = concat4(DOCS_RS_URL, dependency_name, "/", dependency_version);
    r.append("/source/");
    r
}

/// The text that a match gives the variable `name`.
pub fn get_variable(found: &Vec<(String, String)>, name: &str) -> (r: Option<String>)
    ensures
        r.deep_view() == variable_from(found.deep_view(), name@, 0),
{
    let ghost views = found.deep_view();
    let mut i: usize = 0;
    while i < found.len()
        invariant
            i <= found.len(),
            views == found.deep_view(),
            views.len() == found.len(),
            variable_from(views, name@, 0) == variable_from(views, name@, i as int),
        decreases found.len() - i,
    {
        assert(views[i as int] == found@[i as int].deep_view());
        assert(views[i as int].0 == found@[i as int].0@);
        assert(views[i as int].1 == found@[i as int].1@);
        if str_eq(found[i].0.as_str(), name) {
            return Some(found[i].1.clone());
        }
        i = i + 1;
    }
    None
}

/// The texts that the matches give the variable of the template.
pub fn get_values(matches: &Vec<Vec<(String, String)>>) -> (r: Vec<String>)
    ensures
        r.deep_view() == values(matches.deep_view()),
{
    let ghost views = matches.deep_view();
    let mut r: Vec<String> = Vec::new();
    let mut i: usize = 0;
    assert(views.take(0) == Seq::<Seq<(Seq<char>, Seq<char>)>>::empty());
    assert(r.deep_view() == Seq::<Seq<char>>::empty());
    while i < matches.len()
        invariant
            i <= matches.len(),
            views == matches.deep_view(),
            views.len() == matches.len(),
            r.deep_view() == values(views.take(i as int)),
        decreases matches.len() - i,
    {
        assert(views.take(i + 1).drop_last() == views.take(i as int));
        assert(views.take(i + 1).last() == matches@[i as int].deep_view());
        let ghost before = r.deep_view();
        match get_variable(&matches[i], VALUE) {
            Some(v) => {
                let ghost text = v@;
                r.push(v);
                assert(r.deep_view() == before.push(text));
            },
            None => {},
        }
        i = i + 1;
    }
    assert(views.take(matches.len() as int) == views);
    r
}

/// What a manifest, given as the pieces of text that its page shows, declares
/// of its license.
pub fn get_license_declaration(pieces: &Vec<String>) -> (r: Option<(String, String)>)
    ensures
        r.deep_view() == license_declaration(pieces.deep_view()),
{
    let line_feed = chars_of("\n");
    let split = chars_of("\n=\n");
    let equals = chars_of("=");
    let prefix = chars_of(LICENSE);
    let joined = join_exec(pieces, &line_feed);
    let text = replace_exec(&joined, &split, &equals);
    proof {
        reveal_strlit("=");
    }
    match line_with_prefix_exec(&text, &prefix) {
        None => None,
        Some(line) => match find_from_exec(&line, &equals, 0) {
            None => None,
            Some(at) => {
                let rest = slice(&line, at + 1, line.len());
                assert(rest@ == line@.skip(at + 1));
                let value = match find_from_exec(&rest, &equals, 0) {
                    None => rest,
                    Some(end) => {
                        let v = slice(&rest, 0, end);
                        assert(v@ == rest@.take(end as int));
                        v
                    },
                };
                let key = slice(&line, 0, at);
                assert(key@ == line@.take(at as int));
                let key = trim_exec(&key);
                let value = trim_exec(&value);
                let value = remove_char_exec(&value, '"');
                Some((string_of(&key), string_of(&value)))
            },
        },
    }
}

/// The first piece of text that the matches of a page hold.
pub fn get_first_piece(matches: &Vec<Vec<(String, String)>>) -> (r: Option<String>)
    ensures
        r.deep_view() == first_piece(matches.deep_view()),
{
    if matches.len() == 0 {
        None
    } else {
        assert(matches.deep_view()[0] == matches@[0].deep_view());
        get_variable(&matches[0], VALUE)
    }
}

/// The license text that a page with this body shows.
pub fn get_license_text(html: &str) -> (r: Option<String>)
    ensures
        r.deep_view() == license_text(html@),
{
    match match_pattern(SOURCE_TEMPLATE, html) {
        None => None,
        Some(matches) => match get_first_piece(&matches) {
            None => None,
            Some(piece) => render_text(piece.as_str(), TEXT_WIDTH),
        },
    }
}

/// The lookup of the license of a crate at docs.rs.
#[derive(Debug, Clone, Copy, PartialEq, Eq)]
pub struct DocsRs {
    /// Whether the known licenses are at hand, for a license file to be
    /// compared with them.
    pub corpus: bool,
}

impl DocsRs {
    /// A lookup with or without the known licenses at hand.
    pub fn new(corpus: bool) -> (r: Self)
        ensures
            r.corpus == corpus,
    {
        DocsRs { corpus }
    }

    /// The request that a lookup begins with: the manifest of the crate
    /// version.
    pub fn get_dependency(&self, dependency: &Dependency) -> (r: Request)
        ensures
            r@ == manifest_request(dependency@),
    {
        let source = docs_rs_url(dependency.name.as_str(), dependency.version.as_str());
        Request::to(concat2(source.as_str(), MANIFEST))
    }

    /// What follows the answer to the request for the manifest: the body of
    /// the page, or what went wrong. A request that follows is for the
    /// license file.
    pub fn on_manifest(&self, dependency: &Dependency, answer: Result<String, String>) -> (r: Next)
        ensures
            r@ == match answer {
                Ok(html) => manifest_outcome(dependency@, self.corpus, html@),
                Err(error) => NextView::Done(crate_failure(dependency@, error@)),
            },
            r matches Next::Done(record) ==> record@.well_formed() && describes(
                record@,
                dependency@,
            ),
            !(r is Analyze),
    {
        match answer {
            Err(error) => Next::Done(
                crates_io_retrieved_dependency(dependency, None, Some(error.as_str()), None, None),
            ),
            Ok(html) => match match_pattern(SOURCE_TEMPLATE, html.as_str()) {
                None => Next::Done(
                    crates_io_retrieved_dependency(dependency, None, Some(PARSE_ERROR), None, None),
                ),
                Some(matches) => {
                    let pieces = get_values(&matches);
                    self.on_declaration(dependency, get_license_declaration(&pieces))
                },
            },
        }
    }

    /// What follows a manifest with this declaration: the key and the value
    /// of its license line, where it has one.
    pub fn on_declaration(&self, dependency: &Dependency, declaration: Option<(String, String)>) -> (r:
        Next)
        ensures
            r@ == declaration_outcome(dependency@, self.corpus, declaration.deep_view()),
            r matches Next::Done(record) ==> record@.well_formed() && describes(
                record@,
                dependency@,
            ),
            !(r is Analyze),
    {
        match declaration {
            None => Next::Done(
                crates_io_retrieved_dependency(dependency, None, Some(NO_DECLARATION), None, None),
            ),
            Some((key, value)) => {
                if str_eq(key.as_str(), LICENSE) {
                    Next::Done(
                        crates_io_retrieved_dependency(
                            dependency,
                            Some(one_license(value.as_str())),
                            None,
                            None,
                            None,
                        ),
                    )
                } else if str_eq(key.as_str(), LICENSE_FILE) {
                    get_retrieved_dependency_from_license_file(
                        self.corpus,
                        docs_rs_url(dependency.name.as_str(), dependency.version.as_str()),
                        value,
                        dependency,
                    )
                } else {
                    Next::Done(
                        crates_io_retrieved_dependency(
                            dependency,
                            None,
                            Some(UNEXPECTED_KEY),
                            None,
                            None,
                        ),
                    )
                }
            },
        }
    }

    /// What follows the answer to the request for the license file at
    /// `license_url`: the body of the page, or what went wrong.
    pub fn on_license_file(
        &self,
        dependency: &Dependency,
        license_url: &str,
        answer: Result<String, String>,
    ) -> (r: Next)
        ensures
            r@ == match answer {
                Ok(html) => license_file_outcome(dependency@, license_url@, html@),
                Err(_) => NextView::Done(not_declared(dependency@, license_url@)),
            },
            r matches Next::Done(record) ==> record@.well_formed() && describes(
                record@,
                dependency@,
            ),
            !(r is Fetch),
    {
        let text = match answer {
            Ok(html) => get_license_from_docs_rs(html.as_str()),
            Err(_) => None,
        };
        self.on_license_text(dependency, license_url, text)
    }

    /// What follows the license text of the file at `license_url`: its
    /// analysis, where there is a text.
    pub fn on_license_text(&self, dependency: &Dependency, license_url: &str, text: Option<String>) -> (r:
        Next)
        ensures
            r@ == text_outcome(dependency@, license_url@, text.deep_view()),
            r matches Next::Done(record) ==> record@.well_formed() && describes(
                record@,
                dependency@,
            ),
            !(r is Fetch),
    {
        match text {
            Some(text) => Next::Analyze(text),
            None => {
                let error = concat2("Not declared in Cargo.toml. Check the url: ", license_url);
                Next::Done(
                    crates_io_retrieved_dependency(dependency, None, Some(error.as_str()), None, None),
                )
            },
        }
    }

    /// The record after the analysis of the license file.
    pub fn on_analysis(&self, dependency: &Dependency, found: &LicenseMatch) -> (r:
        RetrievedDependency)
        ensures
            r@ == analysis_outcome(dependency@, found@),
            r@.well_formed(),
            r@.is_valid <==> found@.score.spec_is_confident(),
            r@.licenses is Some <==> found@.score.spec_is_confident(),
            describes(r@, dependency@),
    {
        let percent = found.score.percent_text();
        let mut suggested: Vec<(String, Score)> = Vec::new();
        suggested.push((found.name.clone(), found.score));
        assert(suggested.deep_view() =~= seq![(found@.name, found@.score)]);
        if found.score.is_confident() {
            let comment = concat3("Our score for this license is ", percent.as_str(), "%.");
            crates_io_retrieved_dependency(
                dependency,
                Some(one_license(found.name.as_str())),
                None,
                Some(comment),
                Some(suggested),
            )
        } else {
            let mut comment = concat4(
                "Our analysis estimated that it could be **",
                found.name.as_str(),
                "** with a **",
                percent.as_str(),
            );
            comment.append("%** score.");
            crates_io_retrieved_dependency(
                dependency,
                None,
                Some(LOW_CONFIDENCE),
                Some(comment),
                Some(suggested),
            )
        }
    }
}

/// What follows a manifest that names the license file `license`: the
/// request for the file, below the source at `crate_url`, where the known
/// licenses are at hand.
pub fn get_retrieved_dependency_from_license_file(
    corpus: bool,
    crate_url: String,
    license: String,
    dependency: &Dependency,
) -> (r: Next)
    ensures
        r@ == if corpus {
            NextView::Fetch(RequestView { url: crate_url@ + license@, user_agent: USER_AGENT@ })
        } else {
            NextView::Done(crate_failure(dependency@, NO_CORPUS@))
        },
        r matches Next::Done(record) ==> record@.well_formed() && describes(record@, dependency@),
{
    if corpus {
        Next::Fetch(Request::to(concat2(crate_url.as_str(), license.as_str())))
    } else {
        Next::Done(crates_io_retrieved_dependency(dependency, None, Some(NO_CORPUS), None, None))
    }
}

/// The license text that a page of docs.rs with this body shows.
pub fn get_license_from_docs_rs(html: &str) -> (r: Option<String>)
    ensures
        r.deep_view() == license_text(html@),
{
    get_license_text(html)
}

} // verus!
