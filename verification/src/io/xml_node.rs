//! A plain XML element tree: a name, attributes, nested elements and text,
//! and the dropping of the nested elements that are closed.
use vstd::prelude::*;

verus! {

/// An XML element: `<name attr="value" ..>contents text</name>`.
pub struct XmlNode {
    pub name: String,
    pub attrs: Vec<(String, String)>,
    pub contents: Option<Vec<XmlNode>>,
    pub text: Option<String>,
}

/// The names and values of attributes.
pub open spec fn attrs_v(a: Seq<(String, String)>) -> Seq<(Seq<char>, Seq<char>)> {
    a.map_values(|p: (String, String)| (p.0@, p.1@))
}

/// The elements nested in an element, none where it has no contents.
pub open spec fn children(n: XmlNode) -> Seq<XmlNode> {
    match n.contents {
        Some(c) => c@,
        None => Seq::empty(),
    }
}

/// Whether an element is closed (`<name/>`): it has neither contents nor
/// text.
pub open spec fn closed(n: XmlNode) -> bool {
    n.contents is None && n.text is None
}

/// The elements that are not closed, in order.
pub open spec fn open_children(c: Seq<XmlNode>) -> Seq<XmlNode>
    decreases c.len(),
{
    if c.len() == 0 {
        Seq::empty()
    } else {
        let rest = open_children(c.drop_first());
        if closed(c[0]) {
            rest
        } else {
            seq![c[0]] + rest
        }
    }
}

/// Whether an XML element is closed (`<foo />`).
pub trait IsClosed {
    /// Whether the element has neither contents nor text.
    fn is_closed(&self) -> bool;
}

impl IsClosed for XmlNode {
    fn is_closed(&self) -> (r: bool)
        ensures
            r == closed(*self),
    {
        self.contents.is_none() && self.text.is_none()
    }
}

/// Drop the closed elements nested directly in `elem`; where none is left,
/// it has no contents.
pub fn prune_closed_contents(elem: &mut XmlNode)
    ensures
        final(elem).name == old(elem).name,
        final(elem).attrs == old(elem).attrs,
        final(elem).text == old(elem).text,
        children(*final(elem)) == open_children(children(*old(elem))),
        final(elem).contents is None <==> open_children(children(*old(elem))).len() == 0,
{
    let mut taken: Option<Vec<XmlNode>> = None;
    std::mem::swap(&mut taken, &mut elem.contents);
    match taken {
        Some(rest) => {
            let ghost all = rest@;
            let mut rest = rest;
            let mut kept: Vec<XmlNode> = Vec::new();
            while rest.len() > 0
                invariant
                    kept@ + open_children(rest@) == open_children(all),
                decreases rest.len(),
            {
                let ghost before = rest@;
                let x = rest.remove(0);
                assert(rest@ =~= before.drop_first());
                if !x.is_closed() {
                    kept.push(x);
                    assert(kept@ + open_children(rest@) =~= kept@.drop_last() + (seq![before[0]]
                        + open_children(rest@)));
                }
            }
            assert(kept@ + open_children(rest@) =~= kept@);
            if kept.len() > 0 {
                elem.contents = Some(kept);
            }
        },
        None => {},
    }
}

} // verus!
