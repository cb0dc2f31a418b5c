//! Slot components for Material web components, on the virtual DOM of `yew`.
//!
//! Each component forwards its children into a named slot of the custom
//! element that encloses it: a child that is an element receives the slot
//! attribute itself, any other child is wrapped in a `span` that carries it.

pub mod dialog;
pub mod icon_button_toggle;
pub mod slot;
pub mod tabs;
pub mod vdom;
