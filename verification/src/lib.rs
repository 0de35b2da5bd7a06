//! A local, single-user secret store: credential records kept encrypted at
//! rest under a master passphrase, and the screens that lead a user through
//! them.

pub mod add_account_state_item;
pub mod authentication_state_item;
pub mod clipboard_controller;
pub mod database_context;
pub mod deferred_signal;
pub mod dump_format;
pub mod encryption_controller;
pub mod file_accesssor;
pub mod input_handler;
pub mod list_accounts_state;
pub mod logic;
pub mod main_menu_state_item;
pub mod models;
pub mod page_list_view;
pub mod password_widget;
pub mod random;
pub mod set_authentication_state_item;
pub mod show_account_state_item;
pub mod startup_state_item;
pub mod state_item;
pub mod state_manager;
pub mod terminal;
pub mod terminal_context;
pub mod text;
pub mod texts;
pub mod transition;
pub mod views;
pub mod widget;
pub mod widgets;
pub mod wipe_database_state_item;
