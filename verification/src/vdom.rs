//! The virtual DOM of `yew` as the verified code sees it.
//!
//! The node types of `yew` are opaque here. What the contracts of this crate
//! need to know about a node is given a name, and every call into `yew` goes
//! through one of the functions below, whose contract is taken on trust from
//! the source of `yew` and is not proved.

use std::borrow::Cow;
use vstd::prelude::*;
use yew::html::{ChildrenRenderer, NodeRef};
use yew::virtual_dom::{VNode, VTag};

verus! {

#[verifier::external_type_specification]
#[verifier::external_body]
pub struct ExVNode(yew::virtual_dom::VNode);

#[verifier::external_type_specification]
#[verifier::external_body]
pub struct ExVTag(yew::virtual_dom::VTag);

#[verifier::external_type_specification]
#[verifier::external_body]
#[verifier::reject_recursive_types(T)]
pub struct ExChildrenRenderer<T>(yew::html::ChildrenRenderer<T>);

#[verifier::external_type_specification]
#[verifier::external_body]
pub struct ExNodeRef(yew::html::NodeRef);

/// `Clone` for `ChildrenRenderer`, which `yew` derives. Nothing is claimed of
/// the copy; it only lets props that hold children be cloned.
pub assume_specification<T>[ <yew::html::ChildrenRenderer<T> as Clone>::clone ](
    children: &yew::html::ChildrenRenderer<T>,
) -> yew::html::ChildrenRenderer<T> where T: Clone
;

/// What an element is apart from its attributes and its children.
pub struct ElementHead {
    /// The tag name, as `VTag::tag` returns it.
    pub name: Seq<char>,
    /// The text of the field `key`, where the element has a key.
    pub key: Option<Seq<char>>,
    /// The text of the field `value`, where it is set.
    pub value: Option<Seq<char>>,
    /// The text of the field `kind`, where it is set.
    pub kind: Option<Seq<char>>,
    /// The field `checked`.
    pub checked: bool,
    /// The event names of the field `listeners`, in order: what
    /// `Listener::kind` returns for each of them.
    pub listeners: Seq<Seq<char>>,
}

/// The head of an element that `VTag::new` has just made under `name`: no
/// key, no value, no kind, not checked, no listener.
pub open spec fn plain_head(name: Seq<char>) -> ElementHead {
    ElementHead {
        name,
        key: None,
        value: None,
        kind: None,
        checked: false,
        listeners: Seq::empty(),
    }
}

/// The head of an element: its fields other than `attributes` and
/// `children`, as far as they are plain text and flags.
pub uninterp spec fn tag_head(tag: VTag) -> ElementHead;

/// The node reference of an element: its field `node_ref`.
pub uninterp spec fn tag_node_ref(tag: VTag) -> NodeRef;

/// The attributes of an element: every key that `Attributes::iter` yields for
/// `tag.attributes`, with the value it yields for that key last.
pub uninterp spec fn tag_attributes(tag: VTag) -> Map<Seq<char>, Seq<char>>;

/// The child nodes of an element, in order: the nodes of `tag.children`.
pub uninterp spec fn tag_children(tag: VTag) -> Seq<VNode>;

/// The element that a node holds: `Some` for the variant `VNode::VTag`, with
/// the element in its box, and `None` for every other variant.
pub uninterp spec fn node_tag(node: VNode) -> Option<VTag>;

/// The nodes of a fragment, in order: `Some` for the variant `VNode::VList`,
/// with the children of its list, and `None` for every other variant.
pub uninterp spec fn node_list(node: VNode) -> Option<Seq<VNode>>;

/// The nodes that `ChildrenRenderer::iter` hands out, in order.
pub uninterp spec fn children_nodes(children: ChildrenRenderer<VNode>) -> Seq<VNode>;

/// The attribute map of an element that carries no attribute.
pub open spec fn no_attributes() -> Map<Seq<char>, Seq<char>> {
    Map::empty()
}

/// Calls `ChildrenRenderer::iter` and collects what it yields.
///
/// Trusted: the vector holds the nodes that the iterator hands out, in the
/// iterator's order. `iter` clones each stored child in turn.
#[verifier::external_body]
pub(crate) fn child_nodes(children: &ChildrenRenderer<VNode>) -> (nodes: Vec<VNode>)
    ensures
        nodes@ == children_nodes(*children),
{
    children.iter().collect()
}

/// Tells the variant `VNode::VTag` apart from the others and moves the element
/// out of its box.
///
/// Trusted: `Ok` holds the element of an element node; `Err` hands back a node
/// of any other variant as it came.
#[verifier::external_body]
pub(crate) fn node_into_tag(node: VNode) -> (r: Result<VTag, VNode>)
    ensures
        match r {
            Ok(tag) => node_tag(node) == Some(tag),
            Err(other) => node_tag(node).is_none() && other == node,
        },
{
    match node {
        VNode::VTag(tag) => Ok(*tag),
        other => Err(other),
    }
}

/// Calls `VNode::from` on an element, which boxes it into `VNode::VTag`.
///
/// Trusted: the node holds exactly this element and is no fragment.
#[verifier::external_body]
pub(crate) fn node_from_tag(tag: VTag) -> (node: VNode)
    ensures
        node_tag(node) == Some(tag),
        node_list(node).is_none(),
{
    VNode::from(tag)
}

/// Collects nodes into a `VNode` through its `FromIterator` impl, which adds
/// each node to a fresh `VList` and returns `VNode::VList`.
///
/// Trusted: the node is a fragment of exactly these nodes in their order, and
/// is no element.
#[verifier::external_body]
pub(crate) fn node_from_list(nodes: Vec<VNode>) -> (node: VNode)
    ensures
        node_list(node) == Some(nodes@),
        node_tag(node).is_none(),
{
    nodes.into_iter().collect()
}

/// Calls `VTag::new`.
///
/// Trusted: the new element has the given tag name and nothing else: a
/// plain head, no attribute and no child.
#[verifier::external_body]
pub(crate) fn tag_new(name: &'static str) -> (tag: VTag)
    ensures
        tag_head(tag) == plain_head(name@),
        tag_attributes(tag) == no_attributes(),
        tag_children(tag) == Seq::<VNode>::empty(),
{
    VTag::new(name)
}

/// Calls `VTag::add_attribute`, which inserts the pair into the element's
/// attribute map.
///
/// Trusted: afterwards the key carries the given value, whether or not the
/// element had that key before; every other key keeps its value, and the
/// head, the node reference and the children are untouched.
#[verifier::external_body]
pub(crate) fn tag_add_attribute(tag: &mut VTag, key: &'static str, value: Cow<'static, str>)
    ensures
        tag_attributes(*final(tag)) == tag_attributes(*old(tag)).insert(key@, value@),
        tag_head(*final(tag)) == tag_head(*old(tag)),
        tag_node_ref(*final(tag)) == tag_node_ref(*old(tag)),
        tag_children(*final(tag)) == tag_children(*old(tag)),
{
    tag.add_attribute(key, value)
}

/// Calls `VTag::add_child`, which pushes the node onto the element's list of
/// children.
///
/// Trusted: the node becomes the last child; the children before it, the
/// head, the node reference and the attributes are untouched.
#[verifier::external_body]
pub(crate) fn tag_add_child(tag: &mut VTag, child: VNode)
    ensures
        tag_children(*final(tag)) == tag_children(*old(tag)).push(child),
        tag_head(*final(tag)) == tag_head(*old(tag)),
        tag_node_ref(*final(tag)) == tag_node_ref(*old(tag)),
        tag_attributes(*final(tag)) == tag_attributes(*old(tag)),
{
    tag.add_child(child)
}

} // verus!
