//! A controller of one account.

use vstd::prelude::*;
use crate::logic::controller::Controller;
use crate::models::account_model::Account;
use crate::views::test_view::{TestView, ACCOUNT_NAME_HEADING};
use crate::widgets::render_info::RenderStyle;

verus! {

pub struct TestController {
    account: Account,
}

impl TestController {
    /// The account of the controller.
    pub closed spec fn account(&self) -> Account {
        self.account
    }

    /// A controller of a copy of the account.
    pub fn new(model: &Account) -> (controller: Self)
        ensures
            controller.account().id == model.id,
            controller.account().account_name@ == model.account_name@,
            controller.account().password@ == model.password@,
            controller.account().email is Some == model.email is Some,
            controller.account().email matches Some(e) ==> e@ == model.email->0@,
            controller.account().notes is Some == model.notes is Some,
            controller.account().notes matches Some(n) ==> n@ == model.notes->0@,
            controller.account().created_at == model.created_at,
    {
        TestController {
            account: Account {
                id: model.id,
                account_name: model.account_name.clone(),
                password: model.password.clone(),
                email: match &model.email {
                    Some(e) => Some(e.clone()),
                    None => None,
                },
                notes: match &model.notes {
                    Some(n) => Some(n.clone()),
                    None => None,
                },
                created_at: model.created_at,
            },
        }
    }
}

impl Controller for TestController {
    /// The view shows the name of the account under its heading, and the
    /// password.
    open spec fn rendered(&self, view: TestView) -> bool {
        &&& view.labels().len() == 2
        &&& view.labels()[0].place() == (0u16, 0u16)
        &&& view.labels()[0].content() == self.account().account_name@
        &&& view.labels()[0].heading() == Some(ACCOUNT_NAME_HEADING@)
        &&& view.labels()[0].style() == RenderStyle::Default
        &&& view.labels()[1].place() == (0u16, 2u16)
        &&& view.labels()[1].content() == self.account().password@
        &&& view.labels()[1].heading() is None
        &&& view.labels()[1].style() == RenderStyle::Default
    }

    fn render(&self) -> (view: TestView) {
        TestView::new(&self.account)
    }
}

} // verus!
