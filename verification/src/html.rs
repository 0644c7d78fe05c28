//! The HTML engine.
//!
//! Parsing a page and matching CSS selectors against it is the work of the
//! `scraper` crate. This module is the only place that calls it. Each call
//! is a deterministic function of its arguments, far too large to write
//! down; its result is therefore given a name, and the rest of the crate
//! states its contracts over those names.

use vstd::prelude::*;
use crate::extract::catalog_selectors;

verus! {

/// A parsed page: `scraper::Html`, opaque to the verifier.
#[verifier::external_type_specification]
#[verifier::external_body]
pub struct ExHtml(scraper::Html);

/// A compiled CSS selector group: `scraper::Selector`, opaque to the verifier.
#[verifier::external_type_specification]
#[verifier::external_body]
pub struct ExSelector(scraper::Selector);

/// A reference to an element of a parsed page: `scraper::ElementRef`,
/// opaque to the verifier.
#[verifier::external_type_specification]
#[verifier::external_body]
pub struct ExElementRef<'a>(scraper::ElementRef<'a>);

/// What `scraper::Selector::parse` reports of a text that is no selector
/// group: `scraper::error::SelectorErrorKind`, opaque to the verifier.
#[verifier::external_type_specification]
#[verifier::external_body]
pub struct ExSelectorErrorKind(scraper::error::SelectorErrorKind);

/// The number of bytes of the largest page that is parsed: 256 MiB. The
/// parser keeps text in buffers whose length and capacity are 32-bit
/// numbers, grows them to the next power of two, and stops the program
/// where that does not fit. What it writes for a page can be longer than
/// the page (three bytes stand for a NUL that it replaces); the limit
/// leaves an eightfold margin below two to the power of 31.
pub const MAX_PAGE_BYTES: usize = 0x1000_0000;

/// Whether a page of this text is small enough to be parsed.
pub open spec fn page_fits(html: Seq<char>) -> bool {
    vstd::utf8::encode_utf8(html).len() <= MAX_PAGE_BYTES
}

/// The page that `scraper::Html::parse_document` builds from `html`.
pub uninterp spec fn parsed_document(html: Seq<char>) -> scraper::Html;

/// What `scraper::Selector::parse` returns for `css`: the selector, or the
/// error.
pub uninterp spec fn compiled_selector(css: Seq<char>) -> Result<
    scraper::Selector,
    scraper::error::SelectorErrorKind,
>;

/// The words in which a `scraper::error::SelectorErrorKind` displays
/// itself.
pub uninterp spec fn selector_error_text(error: scraper::error::SelectorErrorKind) -> Seq<char>;

/// The elements that `scraper::Html::select` yields, in the order in which
/// it yields them.
pub uninterp spec fn document_matches(doc: scraper::Html, selector: scraper::Selector) -> Seq<
    scraper::ElementRef<'static>,
>;

/// The elements that `scraper::ElementRef::select` yields, in the order in
/// which it yields them.
pub uninterp spec fn element_matches(
    element: scraper::ElementRef<'_>,
    selector: scraper::Selector,
) -> Seq<scraper::ElementRef<'static>>;

/// The text nodes that `scraper::ElementRef::text` yields, in the order in
/// which it yields them.
pub uninterp spec fn element_texts(element: scraper::ElementRef<'_>) -> Seq<Seq<char>>;

/// What `scraper::ElementRef::attr` returns for the attribute `name`.
pub uninterp spec fn element_attribute(element: scraper::ElementRef<'_>, name: Seq<char>) -> Option<
    Seq<char>,
>;

/// Whether `selector` is what one of the catalog's own selector texts
/// compiles to.
pub open spec fn is_catalog_selector(selector: scraper::Selector) -> bool {
    exists|i: int|
        0 <= i < catalog_selectors().len() && compiled_selector(#[trigger] catalog_selectors()[i])
            == Ok::<scraper::Selector, scraper::error::SelectorErrorKind>(selector)
}

/// Parses a page with `scraper::Html::parse_document`, which accepts every
/// text of a length that its buffers can hold; longer texts are left out.
/// The contract only names the result.
#[verifier::external_body]
pub(crate) fn parse_document(html: &str) -> (doc: scraper::Html)
    requires
        page_fits(html@),
    ensures
        doc == parsed_document(html@),
{
    scraper::Html::parse_document(html)
}

/// Compiles a selector group with `scraper::Selector::parse`. The contract
/// only names the result.
#[verifier::external_body]
pub(crate) fn compile_selector(css: &str) -> (r: Result<
    scraper::Selector,
    scraper::error::SelectorErrorKind,
>)
    ensures
        r == compiled_selector(css@),
{
    scraper::Selector::parse(css)
}

/// The words of a selector error, as its `Display` impl in `scraper` writes
/// them. The contract only names the result.
#[verifier::external_body]
pub(crate) fn selector_error_message(error: &scraper::error::SelectorErrorKind) -> (r: String)
    ensures
        r@ == selector_error_text(*error),
{
    error.to_string()
}

/// Collects what `scraper::Html::select` yields, for a selector of the
/// catalog. The contract only names the result.
///
/// Matching recurses along the selector; for a selector with a relative
/// part, such as `:has(..)`, it recurses along the page as well, and a page
/// nested deeply enough ends the program. The selectors of the catalog have
/// at most three compounds and no relative part, so they are matched in a
/// few frames whatever the page; others are left out.
#[verifier::external_body]
pub(crate) fn select_in_document<'a>(doc: &'a scraper::Html, selector: &scraper::Selector) -> (r:
    Vec<scraper::ElementRef<'a>>)
    requires
        is_catalog_selector(*selector),
    ensures
        r@ == document_matches(*doc, *selector),
{
    doc.select(selector).collect()
}

/// Collects what `scraper::ElementRef::select` yields, for a selector of
/// the catalog (see `select_in_document`). The contract only names the
/// result.
#[verifier::external_body]
pub(crate) fn select_in_element<'a>(
    element: &scraper::ElementRef<'a>,
    selector: &scraper::Selector,
) -> (r: Vec<scraper::ElementRef<'a>>)
    requires
        is_catalog_selector(*selector),
    ensures
        r@ == element_matches(*element, *selector),
{
    element.select(selector).collect()
}

/// Collects, as owned texts, what `scraper::ElementRef::text` yields. The
/// contract only names the result.
#[verifier::external_body]
pub(crate) fn texts_of(element: &scraper::ElementRef<'_>) -> (r: Vec<String>)
    ensures
        r.deep_view() == element_texts(*element),
{
    element.text().map(String::from).collect()
}

/// Calls `scraper::ElementRef::attr` and owns the value. The contract only
/// names the result.
#[verifier::external_body]
pub(crate) fn attribute_of(element: &scraper::ElementRef<'_>, name: &str) -> (r: Option<String>)
    ensures
        r.deep_view() == element_attribute(*element, name@),
{
    element.attr(name).map(String::from)
}

} // verus!
