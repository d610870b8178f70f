//! The HTML side of scraping: parsed documents, CSS selectors and the
//! elements they match, as the `scraper` crate provides them.
//!
//! Nothing in this file is proved. Each function calls one method of
//! `scraper` and hands the result back as it is, or item by item as plain
//! values; its contract gives the result a name, which says that the result
//! depends on the arguments alone. What the names stand for is what
//! `scraper` does: no contract says more of them.

use vstd::prelude::*;

verus! {

/// `scraper::Html`, a parsed document. Nothing inside it is visible here.
#[verifier::external_type_specification]
#[verifier::external_body]
pub struct ExHtml(scraper::Html);

/// `scraper::Selector`, a parsed group of CSS selectors.
#[verifier::external_type_specification]
#[verifier::external_body]
pub struct ExSelector(scraper::Selector);

/// `scraper::ElementRef`, a reference to one element of a document.
#[verifier::external_type_specification]
#[verifier::external_body]
pub struct ExElementRef<'a>(scraper::ElementRef<'a>);

/// The document that `Html::parse_document` builds from `html`.
pub uninterp spec fn parsed_document(html: Seq<char>) -> scraper::Html;

/// The selector that `Selector::parse` builds from `text`, if it accepts it.
pub uninterp spec fn parsed_selector(text: Seq<char>) -> Option<scraper::Selector>;

/// The elements of `document` that match `selector`, in the order in which
/// `Html::select` yields them: that in which the parser created them while
/// it read the text from its start.
pub uninterp spec fn document_matches(
    document: scraper::Html,
    selector: scraper::Selector,
) -> Seq<scraper::ElementRef<'static>>;

/// The elements below `element` that match `selector`, in the order of the
/// tree, parents before their children.
pub uninterp spec fn element_matches(
    element: scraper::ElementRef<'static>,
    selector: scraper::Selector,
) -> Seq<scraper::ElementRef<'static>>;

/// The text nodes below `element`, at any depth, in the order of the tree.
pub uninterp spec fn element_text(element: scraper::ElementRef<'static>) -> Seq<Seq<char>>;

/// The children of `element` in their order: of a text node its text, of
/// any other node `None`.
pub uninterp spec fn element_children(element: scraper::ElementRef<'static>) -> Seq<
    Option<Seq<char>>,
>;

/// The value of the attribute `name` of `element`, if it has one.
pub uninterp spec fn element_attribute(
    element: scraper::ElementRef<'static>,
    name: Seq<char>,
) -> Option<Seq<char>>;

/// `Html::parse_document`: parses `html` as a whole document. Parsing never
/// fails; malformed input still yields a tree.
#[verifier::external_body]
pub(crate) fn parse_document(html: &str) -> (document: scraper::Html)
    ensures
        document == parsed_document(html@),
{
    scraper::Html::parse_document(html)
}

/// `Selector::parse`: parses a CSS selector group, `None` where the text is
/// no selector.
#[verifier::external_body]
pub(crate) fn parse_selector(text: &str) -> (selector: Option<scraper::Selector>)
    ensures
        selector == parsed_selector(text@),
{
    scraper::Selector::parse(text).ok()
}

/// `Html::select`: every element of the document that matches, in the order
/// in which the parser created them.
#[verifier::external_body]
pub(crate) fn select_in_document<'a>(
    document: &'a scraper::Html,
    selector: &scraper::Selector,
) -> (found: Vec<scraper::ElementRef<'a>>)
    ensures
        found@ == document_matches(*document, *selector),
{
    document.select(selector).collect()
}

/// `ElementRef::select`: every element below `element` that matches, in the
/// order of the tree. The element itself is not among them.
#[verifier::external_body]
pub(crate) fn select_in_element<'a>(
    element: scraper::ElementRef<'a>,
    selector: &scraper::Selector,
) -> (found: Vec<scraper::ElementRef<'a>>)
    ensures
        found@ == element_matches(element, *selector),
{
    element.select(selector).collect()
}

/// `ElementRef::text`: the text nodes below `element`, at any depth, in the
/// order of the tree.
#[verifier::external_body]
pub(crate) fn text_of(element: scraper::ElementRef<'_>) -> (runs: Vec<String>)
    ensures
        runs.deep_view() == element_text(element),
{
    element.text().map(String::from).collect()
}

/// `NodeRef::children`, and `Node::as_text` on each child: the children of
/// `element` in their order, the text nodes with their text.
#[verifier::external_body]
pub(crate) fn children_of(element: scraper::ElementRef<'_>) -> (children: Vec<Option<String>>)
    ensures
        children.deep_view() == element_children(element),
{
    element.children().map(|child| child.value().as_text().map(|text| text.to_string())).collect()
}

/// `ElementRef::attr`: the value of the attribute `name`, if the element has
/// it.
#[verifier::external_body]
pub(crate) fn attribute_of(element: scraper::ElementRef<'_>, name: &str) -> (value: Option<String>)
    ensures
        value.deep_view() == element_attribute(element, name@),
{
    element.attr(name).map(String::from)
}

} // verus!
