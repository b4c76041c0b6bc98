//! The markup model: attributes and nodes, with spec-level projections
//! that the page contracts are stated over.

use vstd::prelude::*;

verus! {

/// One attribute of a markup element: a name and a value, both plain text.
pub struct Attr {
    pub name: String,
    pub value: String,
}

/// A markup node: either an element with a tag, attributes and children,
/// or a run of text.
pub enum Node {
    Element { tag: String, attrs: Vec<Attr>, children: Vec<Node> },
    Text { text: String },
}

impl Node {
    /// The tag of an element; text nodes have no tag.
    pub open spec fn tag(self) -> Seq<char> {
        match self {
            Node::Element { tag, .. } => tag@,
            Node::Text { .. } => Seq::empty(),
        }
    }

    /// True of element nodes.
    pub open spec fn is_element(self) -> bool {
        self is Element
    }

    /// The attributes of an element, in order.
    pub open spec fn attrs(self) -> Seq<Attr> {
        match self {
            Node::Element { attrs, .. } => attrs@,
            Node::Text { .. } => Seq::empty(),
        }
    }

    /// The children of an element, in order.
    pub open spec fn kids(self) -> Seq<Node> {
        match self {
            Node::Element { children, .. } => children@,
            Node::Text { .. } => Seq::empty(),
        }
    }

    /// The text of a text node.
    pub open spec fn text(self) -> Seq<char> {
        match self {
            Node::Element { .. } => Seq::empty(),
            Node::Text { text } => text@,
        }
    }

    /// The node carries the attribute `name` with value `value`.
    pub open spec fn has_attr(self, name: Seq<char>, value: Seq<char>) -> bool {
        exists|i: int|
            0 <= i < self.attrs().len() && (#[trigger] self.attrs()[i]).name@ == name
                && self.attrs()[i].value@ == value
    }

    /// The node carries an attribute named `name`, whatever its value.
    pub open spec fn has_attr_named(self, name: Seq<char>) -> bool {
        exists|i: int| 0 <= i < self.attrs().len() && (#[trigger] self.attrs()[i]).name@ == name
    }

    /// The node is a run of text reading exactly `t`.
    pub open spec fn is_text(self, t: Seq<char>) -> bool {
        !self.is_element() && self.text() == t
    }
}

/// A text node.
pub fn text_node(t: &str) -> (n: Node)
    ensures
        n.is_text(t@),
{
    Node::Text { text: t.to_owned() }
}

} // verus!
