use vstd::prelude::*;

use crate::dom::{nodes_view, DomNode};
use crate::dom::SpecNode;
use scraper::{ElementRef, Html, Node, Selector};

verus! {

// Each structural query below is a pure computation on the markup: parsing
// the document and matching a fixed CSS selector depend on the markup text
// alone, so each query's result is given a name that the wrapper's contract
// applies. What the library then does with a query's result is verified.

/// The flattened visible text of the first element matching `.dash-data`:
/// the page's current-status cell.
pub uninterp spec fn status_query(markup: Seq<char>) -> Option<Seq<char>>;

/// The flattened visible text of the first element matching
/// `.status-full .dash-data`: the dashboard-data cell scoped to the
/// full-status block, which carries the ship's location.
pub uninterp spec fn location_query(markup: Seq<char>) -> Option<Seq<char>>;

/// The direct children of the update-message element — the first match of
/// `.dash-message p`, or, in the page's other layout, of `.dash-message` —
/// each reduced to what the rich-text renderer reads.
pub uninterp spec fn message_query(markup: Seq<char>) -> Option<Seq<SpecNode>>;

/// The flattened visible text of the first element matching
/// `.dash-message em`: the vessel-reported update time.
pub uninterp spec fn time_query(markup: Seq<char>) -> Option<Seq<char>>;

/// Relies on scraper's `Html::parse_document`, `Selector::parse` and
/// `Html::select` for the fixed selector `.dash-data`, and on
/// `ElementRef::text` for the match's flattened text: all pure functions of
/// the markup, together named `status_query`.
#[verifier::external_body]
pub(crate) fn query_current_status(markup: &str) -> (r: Option<String>)
    ensures
        (r is Some) == (status_query(markup@) is Some),
        r matches Some(s) ==> status_query(markup@) == Some(s@),
{
    let doc = Html::parse_document(markup);
    let sel = Selector::parse(".dash-data").unwrap();
    doc.select(&sel).next().map(|e| e.text().collect())
}

/// Relies on the same scraper calls as `query_current_status`, for the fixed
/// selector `.status-full .dash-data`, together named `location_query`.
#[verifier::external_body]
pub(crate) fn query_ship_location(markup: &str) -> (r: Option<String>)
    ensures
        (r is Some) == (location_query(markup@) is Some),
        r matches Some(s) ==> location_query(markup@) == Some(s@),
{
    let doc = Html::parse_document(markup);
    let sel = Selector::parse(".status-full .dash-data").unwrap();
    doc.select(&sel).next().map(|e| e.text().collect())
}

/// Relies on scraper's parsing and selection for the fixed selectors
/// `.dash-message p` and `.dash-message` (tried in that order), on
/// ego-tree's `children` for the match's direct children in document order,
/// and on scraper's `Node`, `Element::name`, `Element::attr` and
/// `ElementRef::text` to read each child; all pure functions of the markup,
/// together named `message_query`.
#[verifier::external_body]
pub(crate) fn query_message_nodes(markup: &str) -> (r: Option<Vec<DomNode>>)
    ensures
        (r is Some) == (message_query(markup@) is Some),
        r matches Some(ns) ==> message_query(markup@) == Some(nodes_view(ns@)),
{
    let doc = Html::parse_document(markup);
    let first = Selector::parse(".dash-message p").unwrap();
    let second = Selector::parse(".dash-message").unwrap();
    let found = doc.select(&first).next().or_else(|| doc.select(&second).next());
    found.map(|el| el.children().map(|c| match c.value() {
        Node::Text(t) => DomNode::Text(t.to_string()),
        Node::Element(e) => DomNode::Element {
            name: e.name().to_string(),
            href: e.attr("href").map(|h| h.to_string()),
            text: ElementRef::wrap(c).map_or(String::new(), |er| er.text().collect()),
        },
        _ => DomNode::Other,
    }).collect())
}

/// Relies on the same scraper calls as `query_current_status`, for the fixed
/// selector `.dash-message em`, together named `time_query`.
#[verifier::external_body]
pub(crate) fn query_update_time(markup: &str) -> (r: Option<String>)
    ensures
        (r is Some) == (time_query(markup@) is Some),
        r matches Some(s) ==> time_query(markup@) == Some(s@),
{
    let doc = Html::parse_document(markup);
    let sel = Selector::parse(".dash-message em").unwrap();
    doc.select(&sel).next().map(|e| e.text().collect())
}

} // verus!
