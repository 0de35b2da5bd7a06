//! The screens that can be reached, named by the step that leads to them.

use vstd::prelude::*;
use crate::database_context::Account;

verus! {

/// The next screen to install, with what its constructor needs. A screen
/// makes the value, the engine takes it once and drops it.
#[derive(Clone, Debug)]
pub enum Transition {
    ToAuthentication,
    ToChangeAuthentication,
    ToMainMenu,
    ToAddAccount,
    ToShowAccount(Account),
    ToListAccounts,
    ToWipeDatabase,
    ToExit,
}

/// What a transition names: the screen, and the account where it carries
/// one.
pub enum TransitionView {
    ToAuthentication,
    ToChangeAuthentication,
    ToMainMenu,
    ToAddAccount,
    ToShowAccount(crate::dump_format::RowView),
    ToListAccounts,
    ToWipeDatabase,
    ToExit,
}

impl View for Transition {
    type V = TransitionView;

    open spec fn view(&self) -> TransitionView {
        match self {
            Transition::ToAuthentication => TransitionView::ToAuthentication,
            Transition::ToChangeAuthentication => TransitionView::ToChangeAuthentication,
            Transition::ToMainMenu => TransitionView::ToMainMenu,
            Transition::ToAddAccount => TransitionView::ToAddAccount,
            Transition::ToShowAccount(account) => TransitionView::ToShowAccount(account@),
            Transition::ToListAccounts => TransitionView::ToListAccounts,
            Transition::ToWipeDatabase => TransitionView::ToWipeDatabase,
            Transition::ToExit => TransitionView::ToExit,
        }
    }
}

/// What an optional transition names.
pub open spec fn transition_view(transition: Option<Transition>) -> Option<TransitionView> {
    match transition {
        Some(t) => Some(t@),
        None => None,
    }
}

impl Transition {
    /// A copy of the transition.
    pub fn duplicate(&self) -> (copy: Transition)
        ensures
            copy@ == self@,
    {
        match self {
            Transition::ToAuthentication => Transition::ToAuthentication,
            Transition::ToChangeAuthentication => Transition::ToChangeAuthentication,
            Transition::ToMainMenu => Transition::ToMainMenu,
            Transition::ToAddAccount => Transition::ToAddAccount,
            Transition::ToShowAccount(account) => Transition::ToShowAccount(account.duplicate()),
            Transition::ToListAccounts => Transition::ToListAccounts,
            Transition::ToWipeDatabase => Transition::ToWipeDatabase,
            Transition::ToExit => Transition::ToExit,
        }
    }
}

/// A copy of an optional transition.
pub fn duplicate_transition(transition: &Option<Transition>) -> (copy: Option<Transition>)
    ensures
        transition_view(copy) == transition_view(*transition),
{
    match transition {
        Some(t) => Some(t.duplicate()),
        None => None,
    }
}

} // verus!
