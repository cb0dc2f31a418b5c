//! Components that go inside an icon button toggle.

pub mod on_icon;
