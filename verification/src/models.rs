//! The data that the views show.

pub mod account_model;
