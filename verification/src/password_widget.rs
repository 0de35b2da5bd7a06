//! A password on the screen: in clear while it is edited, behind a row of
//! random symbols otherwise.

use vstd::prelude::*;
use crate::random::random_choice;
use crate::terminal_context::{text_at, DrawCommandView, TerminalContext, Visibility};
use crate::text::string_of;
use crate::texts::Password;
use crate::widget::Widget;

verus! {

/// The length of the row of symbols that stands in for a password.
pub const HIDDEN_LENGTH: usize = 30;

/// Whether `hidden` is a stand-in made of `symbols`: 30 characters, each of
/// them one of the symbols, or a star where there are no symbols.
pub open spec fn is_stand_in(hidden: Seq<char>, symbols: Seq<char>) -> bool {
    &&& hidden.len() == HIDDEN_LENGTH
    &&& forall|i: int|
        0 <= i < hidden.len() ==> if symbols.len() > 0 {
            symbols.contains(#[trigger] hidden[i])
        } else {
            hidden[i] == '*'
        }
}

/// A new row of random symbols.
pub fn build_new_hidden_string(symbols: &Password) -> (hidden: String)
    ensures
        is_stand_in(hidden@, symbols.symbols@),
{
    let hide_chars = symbols.get_symbols();
    let mut hidden_char_vec: Vec<char> = Vec::new();
    let mut i: usize = 0;
    while i < HIDDEN_LENGTH
        invariant
            i <= HIDDEN_LENGTH,
            hide_chars@ == symbols.symbols@,
            hidden_char_vec@.len() == i,
            forall|k: int|
                0 <= k < i ==> if hide_chars@.len() > 0 {
                    hide_chars@.contains(#[trigger] hidden_char_vec@[k])
                } else {
                    hidden_char_vec@[k] == '*'
                },
        decreases HIDDEN_LENGTH - i,
    {
        let special_char = if hide_chars.len() > 0 {
            random_choice(&hide_chars)
        } else {
            '*'
        };
        hidden_char_vec.push(special_char);
        i += 1;
    }
    string_of(&hidden_char_vec)
}

/// A password and its stand-in.
pub struct PasswordWidget {
    password_string: String,
    hidden_string: String,
    is_visible: bool,
}

impl PasswordWidget {
    /// The password.
    pub closed spec fn password(&self) -> Seq<char> {
        self.password_string@
    }

    /// The row of symbols that is shown in place of the password.
    pub closed spec fn hidden(&self) -> Seq<char> {
        self.hidden_string@
    }

    /// Whether the password is shown in clear.
    pub closed spec fn visible(&self) -> bool {
        self.is_visible
    }

    /// What is shown: the password where it is visible, the stand-in where it
    /// is hidden and not empty, nothing where it is hidden and empty.
    pub open spec fn shown(&self) -> Option<Seq<char>> {
        if self.visible() {
            Some(self.password())
        } else if self.password().len() > 0 {
            Some(self.hidden())
        } else {
            None
        }
    }

    /// A widget for a password, hidden at first.
    pub fn new(password_string: String, symbols: &Password) -> (widget: PasswordWidget)
        ensures
            widget.password() == password_string@,
            !widget.visible(),
            is_stand_in(widget.hidden(), symbols.symbols@),
    {
        let hidden_string = build_new_hidden_string(symbols);
        PasswordWidget { password_string, hidden_string, is_visible: false }
    }

    /// Replaces the password, and draws a new stand-in for it.
    pub fn update_password(&mut self, password_string: String, symbols: &Password)
        ensures
            final(self).password() == password_string@,
            final(self).visible() == old(self).visible(),
            is_stand_in(final(self).hidden(), symbols.symbols@),
    {
        self.password_string = password_string;
        self.hidden_string = build_new_hidden_string(symbols);
    }

    /// Shows the password in clear, or hides it.
    pub fn change_visibility(&mut self, is_visible: bool)
        ensures
            final(self).visible() == is_visible,
            final(self).password() == old(self).password(),
            final(self).hidden() == old(self).hidden(),
    {
        self.is_visible = is_visible;
    }

    /// What is shown: the password where it is visible, the stand-in where it
    /// is hidden and not empty, nothing where it is hidden and empty.
    pub fn get_password_to_display(&self) -> (shown: Option<&String>)
        ensures
            match shown {
                Some(text) => self.shown() == Some(text@),
                None => self.shown() is None,
            },
    {
        if self.is_visible {
            Some(&self.password_string)
        } else if !self.password_string.as_str().is_empty() {
            Some(&self.hidden_string)
        } else {
            None
        }
    }
}

impl Widget for PasswordWidget {
    /// What is shown of the password, if anything.
    open spec fn drawing(&self, pos_x: u16, pos_y: u16) -> Seq<DrawCommandView> {
        match self.shown() {
            Some(text) => seq![text_at(pos_x, pos_y, text)],
            None => Seq::empty(),
        }
    }

    /// What is shown of the password, or nothing.
    open spec fn footer_text(&self) -> Seq<char> {
        match self.shown() {
            Some(text) => text,
            None => Seq::empty(),
        }
    }

    fn display(&self, context: &mut TerminalContext, pos_x: u16, pos_y: u16) {
        if let Some(text) = self.get_password_to_display() {
            context.print_at_position(pos_x, pos_y, text.as_str());
            assert(context.frame() =~= old(context).frame() + self.drawing(pos_x, pos_y));
        } else {
            assert(context.frame() =~= old(context).frame() + self.drawing(pos_x, pos_y));
        }
    }

    fn display_as_footer(&self, context: &mut TerminalContext, heading: &String) {
        let content = if let Some(text) = self.get_password_to_display() {
            text.clone()
        } else {
            String::new()
        };
        context.draw_input_footer(heading, Visibility::Visible(content), "")
    }
}

} // verus!
