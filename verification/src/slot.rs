//! Binding child nodes to a named slot.
//!
//! A child that is an element receives the slot attribute itself. Any other
//! child (text, a fragment, a component) cannot carry attributes, so it is
//! nested in a `span` that carries them instead.

use crate::vdom::{
    child_nodes, children_nodes, no_attributes, node_from_list, node_from_tag, node_into_tag,
    node_list, node_tag, plain_head, tag_add_attribute, tag_add_child, tag_attributes,
    tag_children, tag_head, tag_new, tag_node_ref,
};
use std::borrow::Cow;
use vstd::prelude::*;
use yew::html::ChildrenRenderer;
use yew::virtual_dom::{VNode, VTag};

verus! {

/// The text of an optional attribute value.
pub open spec fn value_of(action: Option<Cow<'static, str>>) -> Option<Seq<char>> {
    match action {
        Some(value) => Some(value@),
        None => None,
    }
}

/// The attributes `base` after binding to `slot`: the key `slot` carries the
/// slot name and, where an action is given, the key `dialogAction` carries it.
pub open spec fn slot_attributes(
    base: Map<Seq<char>, Seq<char>>,
    slot: Seq<char>,
    action: Option<Seq<char>>,
) -> Map<Seq<char>, Seq<char>> {
    let bound = base.insert("slot"@, slot);
    match action {
        Some(value) => bound.insert("dialogAction"@, value),
        None => bound,
    }
}

/// `out` is the element `tag` bound to `slot`: the same head, the same node
/// reference and the same children, and the attributes of `tag` with the slot
/// attributes set.
pub open spec fn is_bound_element(
    tag: VTag,
    out: VTag,
    slot: Seq<char>,
    action: Option<Seq<char>>,
) -> bool {
    &&& tag_head(out) == tag_head(tag)
    &&& tag_node_ref(out) == tag_node_ref(tag)
    &&& tag_children(out) == tag_children(tag)
    &&& tag_attributes(out) == slot_attributes(tag_attributes(tag), slot, action)
}

/// `out` is a `span` around `child` bound to `slot`: a plain `span` that
/// carries the slot attributes and no other, with `child` as its only child.
pub open spec fn is_wrapper(
    child: VNode,
    out: VTag,
    slot: Seq<char>,
    action: Option<Seq<char>>,
) -> bool {
    &&& tag_head(out) == plain_head("span"@)
    &&& tag_children(out) == seq![child]
    &&& tag_attributes(out) == slot_attributes(no_attributes(), slot, action)
}

/// `out` is what `child` becomes when it is bound to `slot`: an element is
/// bound itself, anything else is wrapped and the wrapper is bound. Either
/// way `out` is an element that carries the same slot attributes.
pub open spec fn is_slotted(
    child: VNode,
    out: VNode,
    slot: Seq<char>,
    action: Option<Seq<char>>,
) -> bool {
    &&& node_tag(out) matches Some(bound)
    &&& match node_tag(child) {
        Some(tag) => is_bound_element(tag, bound, slot, action),
        None => is_wrapper(child, bound, slot, action),
    }
}

/// `html` is the fragment of the slotted `children`: one node for each child,
/// in the order of the children.
pub open spec fn is_slotted_fragment(
    children: Seq<VNode>,
    html: VNode,
    slot: Seq<char>,
    action: Option<Seq<char>>,
) -> bool {
    &&& node_list(html) matches Some(items)
    &&& items.len() == children.len()
    &&& forall|i: int|
        0 <= i < children.len() ==> is_slotted(children[i], #[trigger] items[i], slot, action)
}

/// Binding to a slot sets the key `slot` to the slot name and, where an
/// action is given, the key `dialogAction` to the action. Every other key is
/// left as it was: present with the same value, or absent. Without an action
/// the key `dialogAction` is left as it was too.
pub proof fn lemma_slot_attributes(
    base: Map<Seq<char>, Seq<char>>,
    slot: Seq<char>,
    action: Option<Seq<char>>,
)
    ensures
        slot_attributes(base, slot, action).contains_key("slot"@),
        slot_attributes(base, slot, action)["slot"@] == slot,
        action matches Some(value) ==> slot_attributes(base, slot, action).contains_key(
            "dialogAction"@,
        ) && slot_attributes(base, slot, action)["dialogAction"@] == value,
        forall|key: Seq<char>|
            key != "slot"@ && (key != "dialogAction"@ || action.is_none()) ==> (
            #[trigger] slot_attributes(base, slot, action).contains_key(key) <==> base.contains_key(
                key,
            )),
        forall|key: Seq<char>|
            key != "slot"@ && (key != "dialogAction"@ || action.is_none()) && base.contains_key(key)
                ==> #[trigger] slot_attributes(base, slot, action)[key] == base[key],
{
    reveal_strlit("slot");
    reveal_strlit("dialogAction");
    assert("slot"@ != "dialogAction"@) by {
        assert("slot"@.len() == 4);
        assert("dialogAction"@.len() == 12);
    }
}

/// A fragment of slotted children has exactly one node for each child.
pub proof fn lemma_fragment_keeps_count(
    children: Seq<VNode>,
    html: VNode,
    slot: Seq<char>,
    action: Option<Seq<char>>,
)
    requires
        is_slotted_fragment(children, html, slot, action),
    ensures
        node_list(html) matches Some(items) && items.len() == children.len(),
{
}

/// Every node of a fragment of slotted children is an element that names
/// the slot, and the action where one is given: the slot attributes do not
/// depend on what kind of node the child was.
pub proof fn lemma_every_item_names_the_slot(
    children: Seq<VNode>,
    html: VNode,
    slot: Seq<char>,
    action: Option<Seq<char>>,
)
    requires
        is_slotted_fragment(children, html, slot, action),
    ensures
        node_list(html) matches Some(items) && forall|i: int|
            0 <= i < items.len() ==> {
                &&& node_tag(#[trigger] items[i]) matches Some(bound)
                &&& tag_attributes(bound).contains_key("slot"@)
                &&& tag_attributes(bound)["slot"@] == slot
                &&& action matches Some(value) ==> tag_attributes(bound).contains_key(
                    "dialogAction"@,
                ) && tag_attributes(bound)["dialogAction"@] == value
            },
{
    let items = node_list(html).unwrap();
    assert forall|i: int| 0 <= i < items.len() implies {
        &&& node_tag(#[trigger] items[i]) matches Some(bound)
        &&& tag_attributes(bound).contains_key("slot"@)
        &&& tag_attributes(bound)["slot"@] == slot
        &&& action matches Some(value) ==> tag_attributes(bound).contains_key("dialogAction"@)
            && tag_attributes(bound)["dialogAction"@] == value
    } by {
        assert(is_slotted(children[i], items[i], slot, action));
        match node_tag(children[i]) {
            Some(tag) => lemma_slot_attributes(tag_attributes(tag), slot, action),
            None => lemma_slot_attributes(no_attributes(), slot, action),
        }
    }
}

/// An element child stays the same element: the slotted node is an element
/// with the child's head, node reference and children, whose `slot`
/// attribute is the slot name and whose `dialogAction` attribute, where an
/// action is given, is the action. No other attribute of the child is
/// altered, added or removed.
pub proof fn lemma_element_child_is_bound(
    child: VNode,
    out: VNode,
    slot: Seq<char>,
    action: Option<Seq<char>>,
)
    requires
        is_slotted(child, out, slot, action),
        node_tag(child).is_some(),
    ensures
        node_tag(out) matches Some(bound) && {
            let tag = node_tag(child).unwrap();
            &&& tag_head(bound) == tag_head(tag)
            &&& tag_node_ref(bound) == tag_node_ref(tag)
            &&& tag_children(bound) == tag_children(tag)
            &&& tag_attributes(bound).contains_key("slot"@)
            &&& tag_attributes(bound)["slot"@] == slot
            &&& action matches Some(value) ==> tag_attributes(bound).contains_key("dialogAction"@)
                && tag_attributes(bound)["dialogAction"@] == value
            &&& forall|key: Seq<char>|
                key != "slot"@ && (key != "dialogAction"@ || action.is_none()) ==> (
                #[trigger] tag_attributes(bound).contains_key(key) <==> tag_attributes(
                    tag,
                ).contains_key(key))
            &&& forall|key: Seq<char>|
                key != "slot"@ && (key != "dialogAction"@ || action.is_none()) && tag_attributes(
                    tag,
                ).contains_key(key) ==> #[trigger] tag_attributes(bound)[key] == tag_attributes(
                    tag,
                )[key]
        },
{
    lemma_slot_attributes(tag_attributes(node_tag(child).unwrap()), slot, action);
}

/// A child that is no element is wrapped: the slotted node is a plain `span`
/// whose only child is the node as it came, whose `slot` attribute is the
/// slot name and whose `dialogAction` attribute, where an action is given, is
/// the action. The `span` carries no other attribute.
pub proof fn lemma_other_child_is_wrapped(
    child: VNode,
    out: VNode,
    slot: Seq<char>,
    action: Option<Seq<char>>,
)
    requires
        is_slotted(child, out, slot, action),
        node_tag(child).is_none(),
    ensures
        node_tag(out) matches Some(span) && {
            &&& tag_head(span) == plain_head("span"@)
            &&& tag_children(span).len() == 1
            &&& tag_children(span)[0] == child
            &&& tag_attributes(span).contains_key("slot"@)
            &&& tag_attributes(span)["slot"@] == slot
            &&& action matches Some(value) ==> tag_attributes(span).contains_key("dialogAction"@)
                && tag_attributes(span)["dialogAction"@] == value
            &&& forall|key: Seq<char>|
                #[trigger] tag_attributes(span).contains_key(key) ==> key == "slot"@ || (key
                    == "dialogAction"@ && action.is_some())
        },
{
    lemma_slot_attributes(no_attributes(), slot, action);
}

/// A copy of an attribute value with the same text.
fn copy_value(value: &Cow<'static, str>) -> (copy: Cow<'static, str>)
    ensures
        copy@ == value@,
{
    match value {
        Cow::Borrowed(text) => Cow::Borrowed(*text),
        Cow::Owned(text) => Cow::Owned(text.clone()),
    }
}

/// Sets the slot attributes on `tag`: `slot`, and `dialogAction` where an
/// action is given. Nothing else of the element changes.
pub fn bind_to_slot(
    tag: &mut VTag,
    slot: &Cow<'static, str>,
    action: &Option<Cow<'static, str>>,
)
    ensures
        is_bound_element(*old(tag), *final(tag), slot@, value_of(*action)),
{
    tag_add_attribute(tag, "slot", copy_value(slot));
    if let Some(value) = action {
        tag_add_attribute(tag, "dialogAction", copy_value(value));
    }
}

/// Binds one child to `slot`. An element is bound as it is; any other node
/// is nested in a new `span`, and the `span` is bound.
pub fn slot_child(
    child: VNode,
    slot: &Cow<'static, str>,
    action: &Option<Cow<'static, str>>,
) -> (out: VNode)
    ensures
        is_slotted(child, out, slot@, value_of(*action)),
{
    match node_into_tag(child) {
        Ok(mut tag) => {
            bind_to_slot(&mut tag, slot, action);
            node_from_tag(tag)
        },
        Err(other) => {
            let mut span = tag_new("span");
            bind_to_slot(&mut span, slot, action);
            tag_add_child(&mut span, other);
            node_from_tag(span)
        },
    }
}

/// Binds every child to `slot` and gathers the results in one fragment, one
/// node for each child and in the same order.
pub fn slot_children(
    children: &ChildrenRenderer<VNode>,
    slot: &Cow<'static, str>,
    action: &Option<Cow<'static, str>>,
) -> (html: VNode)
    ensures
        is_slotted_fragment(children_nodes(*children), html, slot@, value_of(*action)),
{
    let nodes = child_nodes(children);
    let mut items: Vec<VNode> = Vec::new();
    for child in iter: nodes.into_iter()
        invariant
            iter.seq() == children_nodes(*children),
            items@.len() == iter.index(),
            forall|i: int|
                0 <= i < items@.len() ==> is_slotted(
                    iter.seq()[i],
                    #[trigger] items@[i],
                    slot@,
                    value_of(*action),
                ),
    {
        let out = slot_child(child, slot, action);
        items.push(out);
    }
    node_from_list(items)
}

} // verus!
