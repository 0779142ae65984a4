use vstd::prelude::*;

verus! {

/// One direct child of the update-message element, reduced to what the
/// rich-text renderer reads: a plain text node, an element child with its
/// tag name, optional `href` attribute and flattened visible text, or any
/// other node kind (comments, processing instructions, ...), which renders
/// to nothing.
pub enum DomNode {
    Text(String),
    Element { name: String, href: Option<String>, text: String },
    Other,
}

/// Mathematical model of a [`DomNode`].
#[verifier::ext_equal]
pub enum SpecNode {
    Text(Seq<char>),
    Element { name: Seq<char>, href: Option<Seq<char>>, text: Seq<char> },
    Other,
}

impl View for DomNode {
    type V = SpecNode;

    open spec fn view(&self) -> SpecNode {
        match self {
            DomNode::Text(t) => SpecNode::Text(t@),
            DomNode::Element { name, href, text } => SpecNode::Element {
                name: name@,
                href: match href {
                    Some(h) => Some(h@),
                    None => None,
                },
                text: text@,
            },
            DomNode::Other => SpecNode::Other,
        }
    }
}

/// The models of a sequence of nodes, element by element.
pub open spec fn nodes_view(ns: Seq<DomNode>) -> Seq<SpecNode> {
    ns.map_values(|n: DomNode| n@)
}

} // verus!
