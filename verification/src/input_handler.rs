//! Key presses, and what a screen makes of them while a text is typed or a
//! question is answered.

use vstd::prelude::*;
use crate::text::{ascii_lower, ascii_upper, to_ascii_lower, to_ascii_upper};

verus! {

/// `String::pop` takes the last character off the string and returns it,
/// `None` where the string is empty.
pub assume_specification[ String::pop ](s: &mut String) -> (last: Option<char>)
    ensures
        old(s)@.len() == 0 ==> last is None && final(s)@ == old(s)@,
        old(s)@.len() > 0 ==> last == Some(old(s)@.last()) && final(s)@ == old(s)@.drop_last(),
;

/// `String::clear` empties the string.
pub assume_specification[ String::clear ](s: &mut String)
    ensures
        final(s)@ == Seq::<char>::empty(),
;

/// A key press, as far as the screens tell keys apart.
#[derive(Clone, Copy, Debug, PartialEq, Eq)]
pub enum KeyCode {
    Enter,
    Backspace,
    Esc,
    Up,
    Down,
    Left,
    Right,
    Char(char),
    /// Any other key.
    Other,
}

/// The key press of a character key: the letter is capital exactly where
/// the shift key is held, whatever the terminal says of the letter's case.
pub fn char_key(c: char, shift: bool) -> (key_code: KeyCode)
    ensures
        key_code == KeyCode::Char(
            if shift {
                ascii_upper(c)
            } else {
                ascii_lower(c)
            },
        ),
{
    if shift {
        KeyCode::Char(to_ascii_upper(c))
    } else {
        KeyCode::Char(to_ascii_lower(c))
    }
}

/// The text after a key press: a character is put behind it, backspace takes
/// the last one off, every other key leaves it.
pub open spec fn text_after_key(text: Seq<char>, key_code: KeyCode) -> Seq<char> {
    match key_code {
        KeyCode::Backspace => if text.len() > 0 {
            text.drop_last()
        } else {
            text
        },
        KeyCode::Char(c) => text.push(c),
        _ => text,
    }
}

/// Edits the text buffer by one key press. `true` where the key is Enter,
/// which ends the input and leaves the buffer as it is.
pub fn get_text_input(key_code: KeyCode, text_buffer: &mut String) -> (entered: bool)
    ensures
        entered == (key_code is Enter),
        final(text_buffer)@ == text_after_key(old(text_buffer)@, key_code),
{
    match key_code {
        KeyCode::Enter => {
            return true;
        },
        KeyCode::Backspace => {
            text_buffer.pop();
        },
        KeyCode::Char(c) => {
            text_buffer.push(c);
        },
        _ => {},
    };
    false
}

/// Whether the key is Enter.
pub fn get_enter_press(key_code: KeyCode) -> (entered: bool)
    ensures
        entered == (key_code is Enter),
{
    match key_code {
        KeyCode::Enter => true,
        _ => false,
    }
}

/// The answer that a key stands for: yes for `y` or `Y`, no for `n` or `N`,
/// none for every other key.
pub open spec fn yes_no_answer(key_code: KeyCode) -> Option<bool> {
    match key_code {
        KeyCode::Char(c) => if c == 'y' || c == 'Y' {
            Some(true)
        } else if c == 'n' || c == 'N' {
            Some(false)
        } else {
            None
        },
        _ => None,
    }
}

/// The answer that a key stands for: yes for `y` or `Y`, no for `n` or `N`,
/// none for every other key.
pub fn evaluate_yes_no_answer(key_code: KeyCode) -> (answer: Option<bool>)
    ensures
        answer == yes_no_answer(key_code),
{
    match key_code {
        KeyCode::Char(c) => {
            if c == 'y' || c == 'Y' {
                return Some(true);
            } else if c == 'n' || c == 'N' {
                return Some(false)
            }
            None
        },
        _ => None,
    }
}

} // verus!
