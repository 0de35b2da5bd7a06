//! Widgets that say what they draw, without drawing it.

pub mod label;
pub mod render_info;
pub mod widget;
