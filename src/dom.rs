//! The parsed page as the lookup sees it. Each element is known by its node
//! number in the tree that parsing the page's text builds; the selections,
//! attributes and inner HTML that the parser returns are named as functions
//! of that text and those numbers.

use vstd::prelude::*;
use scraper::{ElementRef, Html, Selector};
use crate::lookup::opt_view;

verus! {

#[verifier::external_type_specification]
#[verifier::external_body]
pub struct ExHtml(Html);

#[verifier::external_type_specification]
#[verifier::external_body]
pub struct ExSelector(Selector);

#[verifier::external_type_specification]
#[verifier::external_body]
pub struct ExElementRef<'a>(ElementRef<'a>);

/// The elements of the page `doc` that the selector `sel` matches, as node
/// numbers in the order in which the parser created the nodes.
pub uninterp spec fn document_matches(doc: Seq<char>, sel: Seq<char>) -> Seq<nat>;

/// The descendants of node `node` of the page `doc` that the selector `sel`
/// matches, as node numbers in document order.
pub uninterp spec fn descendant_matches(doc: Seq<char>, node: nat, sel: Seq<char>) -> Seq<nat>;

/// The value of the attribute `name` of node `node` of the page `doc`.
pub uninterp spec fn attribute_of(doc: Seq<char>, node: nat, name: Seq<char>) -> Option<Seq<char>>;

/// The serialised content of node `node` of the page `doc`, without the
/// node's own tags; attributes are written in source order.
pub uninterp spec fn inner_html_of(doc: Seq<char>, node: nat) -> Seq<char>;

/// A parsed page, with the text it was parsed from.
pub struct Page {
    html: Html,
    text: Ghost<Seq<char>>,
}

/// A compiled CSS selector, with the text it was compiled from.
pub struct Query {
    sel: Selector,
    text: Ghost<Seq<char>>,
}

/// An element of a parsed page: the page's text and the node's number.
pub struct PageNode<'a> {
    elem: ElementRef<'a>,
    doc: Ghost<Seq<char>>,
    id: Ghost<nat>,
}

impl Page {
    pub closed spec fn text(&self) -> Seq<char> {
        self.text@
    }
}

impl Query {
    pub closed spec fn text(&self) -> Seq<char> {
        self.text@
    }
}

impl<'a> PageNode<'a> {
    pub closed spec fn doc(&self) -> Seq<char> {
        self.doc@
    }

    pub closed spec fn id(&self) -> nat {
        self.id@
    }
}

/// The node numbers of a sequence of elements.
pub open spec fn ids_of<'a>(nodes: Seq<PageNode<'a>>) -> Seq<nat> {
    nodes.map_values(|n: PageNode<'a>| n.id())
}

/// The selectors that the lookup walks a page with: a tag, or a tag with a
/// class.
pub open spec fn is_fixed_selector(s: Seq<char>) -> bool {
    s == "div.optab"@ || s == "table"@ || s == "tr"@ || s == "a"@ || s == "td"@
}

/// Relies on `scraper::Html::parse_document`: builds the tree of the text; it
/// never fails.
#[verifier::external_body]
pub(crate) fn parse_document(text: &str) -> (r: Page)
    ensures
        r.text() == text@,
{
    Page { html: Html::parse_document(text), text: Ghost(text@) }
}

/// Relies on `scraper::Selector::parse`: the compiled selector, or nothing
/// when the text is refused; a tag name, alone or with a class, is accepted.
#[verifier::external_body]
pub(crate) fn parse_selector(text: &str) -> (r: Option<Query>)
    ensures
        r matches Some(q) ==> q.text() == text@,
        is_fixed_selector(text@) ==> r is Some,
{
    Selector::parse(text).ok().map(|sel| Query { sel, text: Ghost(text@) })
}

/// Relies on `scraper::Html::select`: the first element of the page, in the
/// order in which the parser created the nodes, that the selector matches.
#[verifier::external_body]
pub(crate) fn first_in_document<'a>(page: &'a Page, q: &Query) -> (r: Option<PageNode<'a>>)
    ensures
        r is None <==> document_matches(page.text(), q.text()).len() == 0,
        r matches Some(n) ==> n.doc() == page.text() && n.id() == document_matches(
            page.text(),
            q.text(),
        )[0],
{
    page.html.select(&q.sel).next().map(
        |elem| PageNode { elem, doc: Ghost(page.text@), id: Ghost(document_matches(page.text@, q.text@)[0]) },
    )
}

/// Relies on `scraper::ElementRef::select`: the descendants of the element
/// that the selector matches, in document order.
#[verifier::external_body]
pub(crate) fn select_within<'a>(n: &PageNode<'a>, q: &Query) -> (r: Vec<PageNode<'a>>)
    ensures
        ids_of(r@) == descendant_matches(n.doc(), n.id(), q.text()),
        forall|i: int| 0 <= i < r@.len() ==> (#[trigger] r@[i]).doc() == n.doc(),
{
    n.elem.select(&q.sel).enumerate().map(
        |(i, elem)| PageNode { elem, doc: n.doc, id: Ghost(descendant_matches(n.doc@, n.id@, q.text@)[i as int]) },
    ).collect()
}

/// Relies on `scraper::node::Element::attr`: the value of the attribute
/// `name` of the element, if it has one.
#[verifier::external_body]
pub(crate) fn attribute(n: &PageNode, name: &str) -> (r: Option<String>)
    ensures
        opt_view(r) == attribute_of(n.doc(), n.id(), name@),
{
    n.elem.value().attr(name).map(String::from)
}

/// Relies on `scraper::ElementRef::inner_html`: the serialised content of the
/// element, without its own tags. With scraper's `deterministic` feature the
/// attributes keep their source order, so the text depends on the page alone.
#[verifier::external_body]
pub(crate) fn inner_html(n: &PageNode) -> (r: String)
    ensures
        r@ == inner_html_of(n.doc(), n.id()),
{
    n.elem.inner_html()
}

} // verus!
