//! The check that an account has what it needs before it is added.

use vstd::prelude::*;

verus! {

/// What is said of an account without a name or a password.
pub const EMPTY_FIELD_MESSAGE: &'static str = "Account name or password cannot be empty.";

pub struct AddAccountLogic {}

impl AddAccountLogic {
    /// Whether an account can be added: it needs a name and a password.
    pub fn validate_account_data(account_name: &str, password: &str) -> (valid: Result<bool, String>)
        ensures
            match valid {
                Ok(ok) => ok && account_name@.len() > 0 && password@.len() > 0,
                Err(message) => message@ == EMPTY_FIELD_MESSAGE@ && (account_name@.len() == 0 || password@.len() == 0),
            },
    {
        if account_name.is_empty() || password.is_empty() {
            return Err(EMPTY_FIELD_MESSAGE.to_owned());
        }
        Ok(true)
    }
}

} // verus!
