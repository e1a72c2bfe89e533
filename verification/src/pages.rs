//! Page counting: scraping the HTML listing page for the "no posts"
//! marker and the last pagination label decides whether the tag query
//! has results and how many pages it spans.

use vstd::prelude::*;

use crate::text::{all_digits, digits_val, parse_decimal};

verus! {

/// Whether any element of an HTML document matches a CSS selector.
pub uninterp spec fn selector_hits(html: Seq<char>, selector: Seq<char>) -> bool;

/// The inner HTML bytes of the last element of a document matching a
/// CSS selector, when one matches at all.
pub uninterp spec fn last_match_text(html: Seq<char>, selector: Seq<char>) -> Option<Seq<u8>>;

/// Relies on `scraper` (`Html::parse_document`, `Selector::parse` and
/// `Html::select`): reports whether any element of the document
/// matches the selector. The result depends on the two strings alone.
#[verifier::external_body]
fn any_selector_match(html: &str, selector: &str) -> (r: bool)
    ensures
        r == selector_hits(html@, selector@),
{
    let doc = scraper::Html::parse_document(html);
    match scraper::Selector::parse(selector) {
        Ok(sel) => doc.select(&sel).next().is_some(),
        Err(_) => false,
    }
}

/// Relies on `scraper` (`Html::parse_document`, `Selector::parse`,
/// `Html::select` and `ElementRef::inner_html`): hands back the inner
/// HTML of the last element matching the selector, as bytes. The
/// result depends on the two strings alone.
#[verifier::external_body]
fn last_selector_inner_html(html: &str, selector: &str) -> (r: Option<Vec<u8>>)
    ensures
        r.deep_view() == last_match_text(html@, selector@),
{
    let doc = scraper::Html::parse_document(html);
    match scraper::Selector::parse(selector) {
        Ok(sel) => doc.select(&sel).last().map(|e| e.inner_html().into_bytes()),
        Err(_) => None,
    }
}

/// The selector of the "no posts" marker region of a listing page.
pub open spec fn no_posts_selector_spec() -> Seq<char> {
    "#posts > div > p"@
}

fn no_posts_selector() -> (r: &'static str)
    ensures
        r@ == no_posts_selector_spec(),
{
    "#posts > div > p"
}

/// The selector of the pagination controls of a listing page.
pub open spec fn pagination_selector_spec() -> Seq<char> {
    ".paginator-page.desktop-only"@
}

fn pagination_selector() -> (r: &'static str)
    ensures
        r@ == pagination_selector_spec(),
{
    ".paginator-page.desktop-only"
}

/// Why counting pages can fail.
#[derive(Clone, Copy, Debug, PartialEq, Eq)]
pub enum PageError {
    /// The document carries the "no posts" marker: the tag query has
    /// no results at all. Terminal for the whole run.
    NoResults,
    /// The last pagination label is not a decimal number.
    BadPageLabel,
    /// The listing request itself failed. Raised by the caller that
    /// performs the transfer, never by the parser.
    Transport,
}

/// Whether a pagination label reads as a page count.
pub open spec fn label_is_count(t: Seq<u8>) -> bool {
    t.len() > 0 && all_digits(t) && digits_val(t) <= u64::MAX
}

/// Reads the total page count off a scraped listing document.
///
/// The outcome, exactly: a document with the "no posts" marker is
/// `Err(NoResults)` whatever else it holds; otherwise a document with
/// no pagination controls fits on a single page, `Ok(1)`; otherwise
/// the last pagination label is the count, read as a decimal number,
/// and a non-numeric label is `Err(BadPageLabel)`.
pub fn get_total_pages(html: &str) -> (r: Result<u64, PageError>)
    ensures
        selector_hits(html@, no_posts_selector_spec()) ==> r == Err::<u64, PageError>(
            PageError::NoResults,
        ),
        !selector_hits(html@, no_posts_selector_spec()) ==> match last_match_text(
            html@,
            pagination_selector_spec(),
        ) {
            None => r == Ok::<u64, PageError>(1u64),
            Some(t) => if label_is_count(t) {
                r == Ok::<u64, PageError>(digits_val(t) as u64)
            } else {
                r == Err::<u64, PageError>(PageError::BadPageLabel)
            },
        },
{
    if any_selector_match(html, no_posts_selector()) {
        return Err(PageError::NoResults);
    }
    match last_selector_inner_html(html, pagination_selector()) {
        None => Ok(1),
        Some(label) => {
            proof {
                assert(label.deep_view() =~= label@);
            }
            match parse_decimal(&label) {
                Some(n) => Ok(n),
                None => Err(PageError::BadPageLabel),
            }
        },
    }
}

} // verus!
