//! What stands between a view and its data.

pub mod add_account_logic;
pub mod controller;
pub mod test_controller;
