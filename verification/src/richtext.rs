use vstd::prelude::*;
use vstd::string::*;

use crate::dom::{nodes_view, DomNode, SpecNode};
use crate::observation::opt_text_view;

verus! {

/// The hyperlink target as it appears in the rendered link: an absent
/// `href` renders as empty text, a root-relative path (starting with `/`)
/// is rewritten to an absolute URL against the page's origin, and anything
/// else passes through unchanged.
pub open spec fn spec_resolve_href(href: Option<Seq<char>>, origin: Seq<char>) -> Seq<char> {
    let h = match href {
        Some(h) => h,
        None => Seq::<char>::empty(),
    };
    if h.len() > 0 && h[0] == '/' {
        origin + h
    } else {
        h
    }
}

/// What one child node contributes to the rich inner text: plain text
/// verbatim, a hyperlink as `[text](resolved href)`, any other element or
/// node kind nothing.
pub open spec fn spec_render_node(n: SpecNode, origin: Seq<char>) -> Seq<char> {
    match n {
        SpecNode::Text(t) => t,
        SpecNode::Element { name, href, text } => if name == "a"@ {
            "["@ + text + "]("@ + spec_resolve_href(href, origin) + ")"@
        } else {
            Seq::<char>::empty()
        },
        SpecNode::Other => Seq::<char>::empty(),
    }
}

/// The rich inner text of an element: the contributions of its direct
/// children, concatenated in document order.
pub open spec fn spec_render_nodes(ns: Seq<SpecNode>, origin: Seq<char>) -> Seq<char>
    decreases ns.len(),
{
    if ns.len() == 0 {
        Seq::<char>::empty()
    } else {
        spec_render_node(ns[0], origin) + spec_render_nodes(ns.drop_first(), origin)
    }
}

/// Rendering is compositional: appending one more child appends exactly
/// that child's contribution.
pub proof fn lemma_render_nodes_push(ns: Seq<SpecNode>, n: SpecNode, origin: Seq<char>)
    ensures
        spec_render_nodes(ns.push(n), origin) == spec_render_nodes(ns, origin)
            + spec_render_node(n, origin),
    decreases ns.len(),
{
    if ns.len() == 0 {
        assert(ns.push(n).drop_first() =~= Seq::<SpecNode>::empty());
        assert(ns.push(n)[0] == n);
        assert(spec_render_nodes(ns.push(n).drop_first(), origin) == Seq::<char>::empty());
        assert(spec_render_node(n, origin) + Seq::<char>::empty() =~= spec_render_node(
            n,
            origin,
        ));
        assert(Seq::<char>::empty() + spec_render_node(n, origin) =~= spec_render_node(
            n,
            origin,
        ));
    } else {
        lemma_render_nodes_push(ns.drop_first(), n, origin);
        assert(ns.push(n).drop_first() =~= ns.drop_first().push(n));
        assert(ns.push(n)[0] == ns[0]);
        assert(spec_render_nodes(ns.push(n), origin) =~= spec_render_nodes(ns, origin)
            + spec_render_node(n, origin));
    }
}

/// An already-absolute hyperlink target — one that does not start with
/// `/` — is passed through unchanged, whatever the origin.
pub proof fn lemma_absolute_href_unchanged(href: Seq<char>, origin: Seq<char>)
    requires
        href.len() == 0 || href[0] != '/',
    ensures
        spec_resolve_href(Some(href), origin) == href,
{
}

/// A root-relative hyperlink target is resolved by prefixing the origin.
pub proof fn lemma_relative_href_resolved(href: Seq<char>, origin: Seq<char>)
    requires
        href.len() > 0,
        href[0] == '/',
    ensures
        spec_resolve_href(Some(href), origin) == origin + href,
{
}

/// The hyperlink target rendered into a link, as executable code.
pub fn resolve_href(href: &Option<String>, origin: &str) -> (r: String)
    ensures
        r@ == spec_resolve_href(opt_text_view(*href), origin@),
{
    match href {
        None => String::new(),
        Some(h) => {
            let hs = h.as_str();
            if !hs.is_empty() && hs.get_char(0) == '/' {
                let mut r = origin.to_owned();
                r.append(hs);
                r
            } else {
                h.clone()
            }
        },
    }
}

/// One child node's contribution to the rich inner text.
pub fn render_node(node: &DomNode, origin: &str) -> (r: String)
    ensures
        r@ == spec_render_node(node@, origin@),
{
    match node {
        DomNode::Text(t) => t.clone(),
        DomNode::Element { name, href, text } => {
            let anchor: String = "a".to_owned();
            if name.eq(&anchor) {
                let mut r: String = "[".to_owned();
                r.append(text.as_str());
                r.append("](");
                let resolved = resolve_href(href, origin);
                r.append(resolved.as_str());
                r.append(")");
                assert(r@ =~= spec_render_node(node@, origin@));
                r
            } else {
                String::new()
            }
        },
        DomNode::Other => String::new(),
    }
}

/// The rich inner text of an element child list: plain text children
/// verbatim, hyperlinks as `[text](resolved href)`, everything else
/// dropped, concatenated in document order.
pub fn render_nodes(nodes: &Vec<DomNode>, origin: &str) -> (r: String)
    ensures
        r@ == spec_render_nodes(nodes_view(nodes@), origin@),
{
    let mut out = String::new();
    let mut i: usize = 0;
    while i < nodes.len()
        invariant
            i <= nodes.len(),
            out@ == spec_render_nodes(nodes_view(nodes@.take(i as int)), origin@),
        decreases nodes.len() - i,
    {
        let piece = render_node(&nodes[i], origin);
        proof {
            lemma_render_nodes_push(nodes_view(nodes@.take(i as int)), nodes@[i as int]@, origin@);
            assert(nodes_view(nodes@.take((i + 1) as int)) =~= nodes_view(
                nodes@.take(i as int),
            ).push(nodes@[i as int]@));
        }
        out.append(piece.as_str());
        i = i + 1;
    }
    proof {
        assert(nodes@.take(nodes@.len() as int) =~= nodes@);
        assert(nodes_view(nodes@.take(nodes@.len() as int)) =~= nodes_view(nodes@));
    }
    out
}

} // verus!
