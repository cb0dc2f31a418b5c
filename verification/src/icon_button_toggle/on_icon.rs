//! The "on" icon slot of an icon button toggle.

use crate::slot::{is_slotted_fragment, slot_children};
use crate::vdom::children_nodes;
use std::borrow::Cow;
use vstd::prelude::*;
use yew::html::ChildrenRenderer;
use yew::virtual_dom::VNode;

verus! {

/// The slot that holds the icon shown while the toggle is on.
pub const SLOT: &'static str = "onIcon";

/// Props for [`MatOnIconButtonToggle`].
#[derive(Clone)]
pub struct OnIconButtonToggleProps {
    pub children: ChildrenRenderer<VNode>,
}

/// Defines the "on" icon for an icon button toggle.
///
/// If the child passed is an element, then it is modified to include the
/// appropriate attributes. Otherwise, the child is wrapped in a `span`
/// containing said attributes.
pub struct MatOnIconButtonToggle {
    props: OnIconButtonToggleProps,
}

impl MatOnIconButtonToggle {
    /// The props that the component currently renders.
    pub closed spec fn props(&self) -> OnIconButtonToggleProps {
        self.props
    }

    /// A component that renders `props`.
    pub fn create(props: OnIconButtonToggleProps) -> (component: Self)
        ensures
            component.props() == props,
    {
        Self { props }
    }

    /// The component takes no messages: nothing changes and no render is
    /// asked for.
    pub fn update(&mut self, _msg: ()) -> (render: bool)
        ensures
            !render,
            *final(self) == *old(self),
    {
        false
    }

    /// Replaces the props wholesale and always asks for a render.
    pub fn change(&mut self, props: OnIconButtonToggleProps) -> (render: bool)
        ensures
            render,
            final(self).props() == props,
    {
        self.props = props;
        true
    }

    /// Renders the children as one fragment, each child bound to the slot
    /// `onIcon`.
    pub fn view(&self) -> (html: VNode)
        ensures
            is_slotted_fragment(
                children_nodes(self.props().children),
                html,
                "onIcon"@,
                None,
            ),
    {
        let slot = Cow::Borrowed(SLOT);
        slot_children(&self.props.children, &slot, &None)
    }
}

} // verus!
