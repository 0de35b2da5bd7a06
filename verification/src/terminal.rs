//! The surface that views are rendered on.

pub mod terminal_context;
