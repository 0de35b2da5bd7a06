//! A view of one account: its name under a heading, and its password.

use vstd::prelude::*;
use crate::models::account_model::Account;
use crate::views::view::WidgetView;
use crate::widgets::label::Label;
use crate::widgets::render_info::RenderStyle;

verus! {

/// The heading of the account's name.
pub const ACCOUNT_NAME_HEADING: &'static str = "Account name:";

pub struct TestView {
    account_name: String,
    password: String,
    widgets: Vec<Label>,
}

impl TestView {
    /// The labels of the view.
    pub closed spec fn labels(&self) -> Seq<Label> {
        self.widgets@
    }

    /// The view of an account: a label with the name under its heading at
    /// the upper left, and a label with the password two rows below.
    pub fn new(account: &Account) -> (view: Self)
        ensures
            view.labels().len() == 2,
            view.labels()[0].place() == (0u16, 0u16),
            view.labels()[0].content() == account.account_name@,
            view.labels()[0].heading() == Some(ACCOUNT_NAME_HEADING@),
            view.labels()[0].style() == RenderStyle::Default,
            view.labels()[1].place() == (0u16, 2u16),
            view.labels()[1].content() == account.password@,
            view.labels()[1].heading() is None,
            view.labels()[1].style() == RenderStyle::Default,
    {
        let account_name = account.account_name.clone();
        let password = account.password.clone();
        let mut account_name_widget = Label::new((0, 0), &account_name);
        account_name_widget.set_heading(ACCOUNT_NAME_HEADING.to_owned());
        let password_widget = Label::new((0, 2), &password);
        let mut widgets: Vec<Label> = Vec::new();
        widgets.push(account_name_widget);
        widgets.push(password_widget);
        TestView { account_name, password, widgets }
    }
}

impl WidgetView for TestView {
    open spec fn widgets(&self) -> Seq<Label> {
        self.labels()
    }

    fn render(&self) -> (widgets: &Vec<Label>) {
        &self.widgets
    }
}

} // verus!
