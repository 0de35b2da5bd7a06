//! An account, as the views show it.

use vstd::prelude::*;

verus! {

#[derive(Clone, Debug)]
pub struct Account {
    pub id: i32,
    pub account_name: String,
    pub password: String,
    pub email: Option<String>,
    pub notes: Option<String>,
    /// Seconds since the Unix epoch at which the account was made.
    pub created_at: i64,
}

impl Account {
    /// An account of these values, made at `created_at`.
    pub fn new(
        id: i32,
        account_name: String,
        password: String,
        email: Option<String>,
        notes: Option<String>,
        created_at: i64,
    ) -> (account: Self)
        ensures
            account == (Account { id, account_name, password, email, notes, created_at }),
    {
        Self { id, account_name, password, email, notes, created_at }
    }

    /// Replaces the password.
    pub fn update_password(&mut self, new_password: String)
        ensures
            *final(self) == (Account { password: new_password, ..*old(self) }),
    {
        self.password = new_password;
    }

    /// Replaces the e-mail address.
    pub fn update_email(&mut self, new_email: String)
        ensures
            *final(self) == (Account { email: Some(new_email), ..*old(self) }),
    {
        self.email = Some(new_email);
    }

    /// Replaces the notes.
    pub fn update_notes(&mut self, new_notes: String)
        ensures
            *final(self) == (Account { notes: Some(new_notes), ..*old(self) }),
    {
        self.notes = Some(new_notes);
    }
}

} // verus!
