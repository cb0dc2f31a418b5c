//! Components that go inside a tab.

pub mod tab_icon;
