//! The texts that the screens show. They are loaded once when the program
//! starts and handed to every screen that draws.

use vstd::prelude::*;
use crate::text::chars_of;

verus! {

#[derive(Clone, Debug)]
pub struct Misc {
    pub welcome: String,
    pub confirm_input: String,
}

#[derive(Clone, Debug)]
pub struct Input {
    pub up_arrow: String,
    pub down_arrow: String,
    pub left_arrow: String,
    pub right_arrow: String,
    pub enter: String,
    pub escape: String,
}

#[derive(Clone, Debug)]
pub struct MainMenu {
    pub heading: String,
    pub add_account: String,
    pub list_accounts: String,
    pub set_master_pwd: String,
    pub wipe_database: String,
    pub exit: String,
}

impl MainMenu {
    /// The five items of the menu, in the order in which they are shown.
    pub open spec fn items(&self) -> Seq<Seq<char>> {
        seq![self.add_account@, self.list_accounts@, self.set_master_pwd@, self.wipe_database@, self.exit@]
    }

    /// The five items of the menu, in the order in which they are shown.
    pub fn get_menu_items(&self) -> (items: Vec<String>)
        ensures
            items@.map_values(|s: String| s@) == self.items(),
    {
        let mut items: Vec<String> = Vec::new();
        items.push(self.add_account.clone());
        items.push(self.list_accounts.clone());
        items.push(self.set_master_pwd.clone());
        items.push(self.wipe_database.clone());
        items.push(self.exit.clone());
        assert(items@.map_values(|s: String| s@) =~= self.items());
        items
    }
}

#[derive(Clone, Debug)]
pub struct Account {
    pub account_name: String,
    pub email: String,
    pub password: String,
}

#[derive(Clone, Debug)]
pub struct AddAccount {
    pub heading: String,
    pub account_exists: String,
    pub add_email_question: String,
    pub generate_pwd_question: String,
    pub pwd_generated: String,
    pub pwd_set: String,
    pub cancel_question: String,
}

#[derive(Clone, Debug)]
pub struct ListAccounts {
    pub heading: String,
    pub search: String,
    pub search_input: String,
    pub quit_input: String,
}

#[derive(Clone, Debug)]
pub struct ShowAccount {
    pub heading: String,
    pub delete_question: String,
    pub save_question: String,
    pub copy_msg: String,
    pub copy_countdown: String,
    pub copy_input: String,
    pub edit_input: String,
    pub delete_input: String,
    pub quit_input: String,
}

#[derive(Clone, Debug)]
pub struct Auth {
    pub enter_pwd_promt: String,
    pub invalid_pwd: String,
    pub valid_pwd: String,
    pub set_new_master_pwd: String,
    pub confirm_new_master_pwd: String,
    pub master_password_set: String,
    pub confirm_failed: String,
    pub cancel_question: String,
}

#[derive(Clone, Debug)]
pub struct Wipe {
    pub are_you_sure_question: String,
    pub warning: String,
    pub delete_msg: String,
    pub enter_pwd_request: String,
    pub success_msg: String,
    pub failure_msg: String,
}

/// The characters that stand in for a hidden password.
#[derive(Clone, Debug)]
pub struct Password {
    pub symbols: String,
}

impl Password {
    /// The characters that stand in for a hidden password.
    pub fn get_symbols(&self) -> (symbols: Vec<char>)
        ensures
            symbols@ == self.symbols@,
    {
        chars_of(self.symbols.as_str())
    }
}

#[derive(Clone, Debug)]
pub struct Texts {
    pub misc: Misc,
    pub input: Input,
    pub main_menu: MainMenu,
    pub account: Account,
    pub add_account: AddAccount,
    pub list_accounts: ListAccounts,
    pub show_account: ShowAccount,
    pub auth: Auth,
    pub wipe: Wipe,
    pub password: Password,
}

} // verus!
