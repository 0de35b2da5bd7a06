//! Views: the widgets of one screen.

pub mod test_view;
pub mod view;
