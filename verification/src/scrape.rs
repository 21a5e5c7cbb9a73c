//! Text extraction from a page of markup. The markup engine is an outside
//! crate; what it returns is named here and not described.

use vstd::prelude::*;
use scraper::{ElementRef, Html, Selector};

verus! {

/// The longest markup, in characters, that is handed to the markup engine.
/// The engine stops where one of its buffers would pass 2^31 bytes, and no
/// buffer holds more than four bytes for each character of the markup.
pub const MAX_DOCUMENT_CHARS: usize = 0x1FFF_FFFF;

/// The longest selector, in characters, that is handed to the markup engine.
/// The engine reads a nested selector by calling itself, once for each
/// nesting; a selector this short nests a few times at most.
pub const MAX_SELECTOR_CHARS: usize = 32;

/// The texts of the elements of `html` that `css` selects, one per element, in
/// the order in which the markup engine yields them; `None` where the engine
/// does not accept `css` as a selector.
pub uninterp spec fn selected_texts(html: Seq<char>, css: Seq<char>) -> Option<Seq<Seq<char>>>;

/// For each element of `html` that `row` selects, in the engine's order, a
/// pair. Its first part holds, for each selector of `fields` in order, the
/// texts of the row's descendants that it selects. Its second part holds,
/// for each descendant of the row that `cell` selects, the same list taken
/// inside that cell. `None` where the engine does not accept one of the
/// selectors.
pub uninterp spec fn selected_table(
    html: Seq<char>,
    row: Seq<char>,
    cell: Seq<char>,
    fields: Seq<Seq<char>>,
) -> Option<Seq<(Seq<Seq<Seq<char>>>, Seq<Seq<Seq<Seq<char>>>>)>>;

/// Compiles `css` with `scraper::Selector::parse`, parses `html` with
/// `scraper::Html::parse_document`, walks the matches with `Html::select`
/// and collects `ElementRef::text` of each. The contract claims only that
/// the result is a function of the two texts. Longer markup is left out, as
/// `parse_document` panics where a buffer would pass 2^31 bytes; a longer
/// selector is left out, as `Selector::parse` calls itself for each nesting.
#[verifier::external_body]
pub(crate) fn document_texts(html: &str, css: &str) -> (texts: Option<Vec<String>>)
    requires
        html@.len() <= MAX_DOCUMENT_CHARS,
        css@.len() <= MAX_SELECTOR_CHARS,
    ensures
        texts.deep_view() == selected_texts(html@, css@),
{
    let selector = Selector::parse(css).ok()?;
    let document = Html::parse_document(html);
    Some(document.select(&selector).map(|found| found.text().collect()).collect())
}

/// Compiles the selectors with `scraper::Selector::parse`, parses `html`
/// with `scraper::Html::parse_document`, walks the rows with `Html::select`
/// and, inside each row and each of its cells, the fields' matches with
/// `ElementRef::select`, and collects `ElementRef::text` of every match. The
/// contract claims only that the result is a function of the arguments.
/// Longer markup is left out, as `parse_document` panics where a buffer
/// would pass 2^31 bytes; longer selectors are left out, as
/// `Selector::parse` calls itself for each nesting.
#[verifier::external_body]
pub(crate) fn table_texts(html: &str, row: &str, cell: &str, fields: &Vec<&str>) -> (rows: Option<
    Vec<(Vec<Vec<String>>, Vec<Vec<Vec<String>>>)>,
>)
    requires
        html@.len() <= MAX_DOCUMENT_CHARS,
        row@.len() <= MAX_SELECTOR_CHARS,
        cell@.len() <= MAX_SELECTOR_CHARS,
        forall|i: int| 0 <= i < fields@.len() ==> (#[trigger] fields@[i])@.len() <= MAX_SELECTOR_CHARS,
    ensures
        rows.deep_view() == selected_table(html@, row@, cell@, fields.deep_view()),
{
    let (row, cell) = (Selector::parse(row).ok()?, Selector::parse(cell).ok()?);
    let fields: Vec<Selector> = fields.iter().map(|css| Selector::parse(css).ok()).collect::<Option<_>>()?;
    let texts = |scope: ElementRef| -> Vec<Vec<String>> {
        fields.iter().map(|field| scope.select(field).map(|found| found.text().collect()).collect()).collect()
    };
    let document = Html::parse_document(html);
    Some(document.select(&row).map(|r| (texts(r), r.select(&cell).map(texts).collect())).collect())
}

} // verus!
