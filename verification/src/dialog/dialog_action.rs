//! The action slots of a dialog.

use crate::slot::{is_slotted_fragment, slot_children, value_of};
use crate::vdom::children_nodes;
use std::borrow::Cow;
use vstd::prelude::*;
use yew::html::ChildrenRenderer;
use yew::virtual_dom::VNode;

verus! {

/// Dialog action type.
#[derive(Clone)]
pub enum ActionType {
    /// Binds to the slot `primaryAction`.
    Primary,
    /// Binds to the slot `secondaryAction`.
    Secondary,
}

impl ActionType {
    /// The name of the slot that this action type binds to.
    pub open spec fn slot_name(self) -> Seq<char> {
        match self {
            ActionType::Primary => "primaryAction"@,
            ActionType::Secondary => "secondaryAction"@,
        }
    }

    /// The slot name, borrowed from the program text.
    pub fn to_cow_string(&self) -> (name: Cow<'static, str>)
        ensures
            name@ == self.slot_name(),
    {
        let s = match self {
            ActionType::Primary => "primaryAction",
            ActionType::Secondary => "secondaryAction",
        };
        Cow::Borrowed(s)
    }

    /// The slot name as an owned string.
    pub fn to_string(&self) -> (name: String)
        ensures
            name@ == self.slot_name(),
    {
        match self.to_cow_string() {
            Cow::Borrowed(text) => text.to_owned(),
            Cow::Owned(text) => text,
        }
    }
}

/// Props for [`MatDialogAction`].
#[derive(Clone)]
pub struct ActionProps {
    pub action_type: ActionType,
    /// The value of the `dialogAction` attribute, where one is wanted.
    pub action: Option<Cow<'static, str>>,
    pub children: ChildrenRenderer<VNode>,
}

/// Defines actions for a dialog.
///
/// If the child passed is an element, then it is modified to include the
/// appropriate attributes. Otherwise, the child is wrapped in a `span`
/// containing said attributes.
pub struct MatDialogAction {
    props: ActionProps,
}

impl MatDialogAction {
    /// The props that the component currently renders.
    pub closed spec fn props(&self) -> ActionProps {
        self.props
    }

    /// A component that renders `props`.
    pub fn create(props: ActionProps) -> (component: Self)
        ensures
            component.props() == props,
    {
        Self { props }
    }

    /// The component takes no messages: nothing changes and no render is
    /// asked for.
    pub fn update(&mut self, _msg: ()) -> (render: bool)
        ensures
            !render,
            *final(self) == *old(self),
    {
        false
    }

    /// Replaces the props wholesale and always asks for a render.
    pub fn change(&mut self, props: ActionProps) -> (render: bool)
        ensures
            render,
            final(self).props() == props,
    {
        self.props = props;
        true
    }

    /// Renders the children as one fragment, each child bound to the slot of
    /// the action type and, where an action is set, carrying it as
    /// `dialogAction`.
    pub fn view(&self) -> (html: VNode)
        ensures
            is_slotted_fragment(
                children_nodes(self.props().children),
                html,
                self.props().action_type.slot_name(),
                value_of(self.props().action),
            ),
    {
        let slot = self.props.action_type.to_cow_string();
        slot_children(&self.props.children, &slot, &self.props.action)
    }
}

} // verus!
