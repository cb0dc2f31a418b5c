//! Components that go inside a dialog.

pub mod dialog_action;
