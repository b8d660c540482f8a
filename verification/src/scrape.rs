//! What the library has from the crates that read HTML. Verus takes the
//! contracts in this file on trust.

use vstd::prelude::*;
use crate::retriever::docs_rs::SOURCE_TEMPLATE;

verus! {

/// What `easy_scraper` finds of `template` in `html`: nothing where the
/// template is not an HTML pattern; else one entry for each match, holding the
/// template's variables with the texts they stand for, ordered by variable.
pub uninterp spec fn pattern_matches(template: Seq<char>, html: Seq<char>) -> Option<
    Seq<Seq<(Seq<char>, Seq<char>)>>,
>;

/// What `html2text` makes of `html` on lines of `width` columns: nothing where
/// it gives up on the document.
pub uninterp spec fn rendered_text(html: Seq<char>, width: nat) -> Option<Seq<char>>;

/// What `scraper` selects from `html` with the CSS `selector`: nothing where
/// the selector is not one; else, for each element selected, in document
/// order, its inner HTML and that of the next element beside it, if any.
pub uninterp spec fn selected_elements(html: Seq<char>, selector: Seq<char>) -> Option<
    Seq<(Seq<char>, Option<Seq<char>>)>,
>;

/// `easy_scraper::Pattern::new` on `template`, then `Pattern::matches` on
/// `html`. The contract claims only that the outcome depends on nothing but
/// the two texts. Each match is handed out as the pairs of its map, which the
/// map keeps ordered by variable. The template is the one of source pages:
/// `easy_scraper` gives up on a template whose braces do not pair.
#[verifier::external_body]
pub(crate) fn match_pattern(template: &str, html: &str) -> (r: Option<Vec<Vec<(String, String)>>>)
    requires
        template@ == SOURCE_TEMPLATE@,
    ensures
        r.deep_view() == pattern_matches(template@, html@),
{
    let pattern = easy_scraper::Pattern::new(template).ok()?;
    Some(pattern.matches(html).into_iter().map(|m| m.into_iter().collect()).collect())
}

/// `html2text::from_read` on the bytes of `html`. The contract claims only
/// that the outcome depends on nothing but the text and the width.
#[verifier::external_body]
pub(crate) fn render_text(html: &str, width: usize) -> (r: Option<String>)
    ensures
        r.deep_view() == rendered_text(html@, width as nat),
{
    html2text::from_read(html.as_bytes(), width).ok()
}

/// `scraper::Selector::parse` on `selector` and `scraper::Html::parse_document`
/// on `html`, then `Html::select`; of each element `ElementRef::inner_html`,
/// and the same of its `next_sibling_element`. The contract claims only that
/// the outcome depends on nothing but the two texts.
#[verifier::external_body]
pub(crate) fn select_elements(html: &str, selector: &str) -> (r: Option<
    Vec<(String, Option<String>)>,
>)
    ensures
        r.deep_view() == selected_elements(html@, selector@),
{
    let selector = scraper::Selector::parse(selector).ok()?;
    let document = scraper::Html::parse_document(html);
    Some(
        document.select(&selector).map(
            |e| (e.inner_html(), scraper::Element::next_sibling_element(&e).map(|s| s.inner_html())),
        ).collect(),
    )
}

} // verus!
