//! The main menu: five items, one of them selected, each leading to a
//! screen.

use vstd::prelude::*;
use crate::input_handler::KeyCode;
use crate::terminal_context::{
    byte_len, center, centered, control_footer, styled_at, text_at, text_len, DrawCommandView, StyleAttribute,
    TerminalContext,
};
use crate::texts::Texts;
use crate::transition::{duplicate_transition, transition_view, Transition, TransitionView};

verus! {

/// The number of items of the menu.
pub const MENU_LENGTH: u8 = 5;

/// The screen that item `index` of the menu leads to.
pub open spec fn menu_target(index: int) -> TransitionView {
    if index == 0 {
        TransitionView::ToAddAccount
    } else if index == 1 {
        TransitionView::ToListAccounts
    } else if index == 2 {
        TransitionView::ToChangeAuthentication
    } else if index == 3 {
        TransitionView::ToWipeDatabase
    } else {
        TransitionView::ToExit
    }
}

/// The item that is selected after a key press: the arrows move the
/// selection by one and wrap around; a digit from 1 to 9 selects the item of
/// that number, or the last one where the number is beyond it.
pub open spec fn selected_after(selected: u8, key_code: KeyCode) -> u8 {
    match key_code {
        KeyCode::Char(c) => if 49 <= c as u32 <= 57 {
            if c as u32 - 48 >= MENU_LENGTH {
                (MENU_LENGTH - 1) as u8
            } else {
                (c as u32 - 49) as u8
            }
        } else {
            selected
        },
        KeyCode::Up => if selected == 0 {
            (MENU_LENGTH - 1) as u8
        } else {
            (selected - 1) as u8
        },
        KeyCode::Down => if selected == MENU_LENGTH - 1 {
            0
        } else {
            (selected + 1) as u8
        },
        _ => selected,
    }
}

pub struct MainMenuStateItem {
    next_state: Option<Transition>,
    menu_items: Vec<String>,
    menu_transitions: Vec<Transition>,
    selected_item: u8,
}

impl MainMenuStateItem {
    /// The index of the selected item.
    pub closed spec fn selected(&self) -> u8 {
        self.selected_item
    }

    /// The transition that waits, if an item has been chosen.
    pub closed spec fn pending(&self) -> Option<TransitionView> {
        transition_view(self.next_state)
    }

    /// The texts of the items.
    pub closed spec fn items(&self) -> Seq<Seq<char>> {
        self.menu_items@.map_values(|s: String| s@)
    }

    /// Whether the menu has its five items and targets, and one of them is
    /// selected.
    pub closed spec fn well_formed(&self) -> bool {
        &&& self.menu_items@.len() == MENU_LENGTH
        &&& self.menu_transitions@.len() == MENU_LENGTH
        &&& self.selected_item < MENU_LENGTH
        &&& forall|i: int| 0 <= i < MENU_LENGTH ==> (#[trigger] self.menu_transitions@[i])@ == menu_target(i)
    }

    /// The menu with its first item selected and nothing chosen.
    pub fn new(texts: &Texts) -> (screen: Self)
        ensures
            screen.well_formed(),
            screen.selected() == 0,
            screen.pending() is None,
            screen.items() == texts.main_menu.items(),
    {
        let menu_items = texts.main_menu.get_menu_items();
        assert(menu_items@.len() == menu_items@.map_values(|s: String| s@).len());
        assert(texts.main_menu.items().len() == 5);
        let mut menu_transitions: Vec<Transition> = Vec::new();
        menu_transitions.push(Transition::ToAddAccount);
        menu_transitions.push(Transition::ToListAccounts);
        menu_transitions.push(Transition::ToChangeAuthentication);
        menu_transitions.push(Transition::ToWipeDatabase);
        menu_transitions.push(Transition::ToExit);
        MainMenuStateItem { next_state: None, menu_items, selected_item: 0, menu_transitions }
    }

    /// Item `index` of the menu as it is drawn in a frame of this height: in
    /// inverse colours where it is selected.
    pub open spec fn item_drawing(&self, index: int, height: u16) -> DrawCommandView {
        if self.selected() == index {
            styled_at(0, (height / 2 - 2 + index) as u16, self.items()[index], StyleAttribute::InverseColor)
        } else {
            text_at(0, (height / 2 - 2 + index) as u16, self.items()[index])
        }
    }

    /// What the screen draws in a frame of this size: the heading, the items
    /// one under the other, and the footer that names the keys.
    pub open spec fn drawing(&self, texts: Texts, width: u16, height: u16) -> Seq<DrawCommandView> {
        seq![text_at(centered(width, byte_len(texts.main_menu.heading@)), (height / 2 - 4) as u16, texts.main_menu.heading@)]
            + Seq::new(MENU_LENGTH as nat, |index: int| self.item_drawing(index, height)) + control_footer(
            seq![texts.input.down_arrow@, texts.input.up_arrow@, texts.input.enter@],
            width,
            height,
        )
    }

    /// Draws the heading, the items one under the other with the selected one
    /// in inverse colours, and the footer that names the keys.
    pub fn display(&self, context: &mut TerminalContext, texts: &Texts)
        requires
            self.well_formed(),
            old(context).well_formed(),
        ensures
            final(context).drew_all(old(context), self.drawing(*texts, old(context).width(), old(context).height())),
    {
        let heading = &texts.main_menu.heading;
        let y_start_pos = context.get_height() / 2 - 4;
        let x_menu_pos = center(context.get_width(), text_len(heading.as_str()));
        context.print_at_position(x_menu_pos, y_start_pos, heading.as_str());
        let ghost head = old(context).frame().push(
            text_at(centered(old(context).width(), byte_len(heading@)), y_start_pos, heading@),
        );
        let ghost height = old(context).height();
        let mut index: usize = 0;
        assert(context.frame() =~= head + Seq::new(0, |k: int| self.item_drawing(k, height)));
        while index < self.menu_items.len()
            invariant
                index <= self.menu_items.len(),
                self.menu_items.len() == MENU_LENGTH,
                y_start_pos == old(context).height() / 2 - 4,
                height == old(context).height(),
                old(context).well_formed(),
                context.drawn_over(old(context)),
                context.frame() == head + Seq::new(index as nat, |k: int| self.item_drawing(k, height)),
            decreases self.menu_items.len() - index,
        {
            let ghost before = context.frame();
            let content = self.menu_items[index].as_str();
            if self.selected_item as usize == index {
                context.print_styled_at_position(0, y_start_pos + 2 + index as u16, content, StyleAttribute::InverseColor);
            } else {
                context.print_at_position(0, y_start_pos + 2 + index as u16, content);
            }
            proof {
                assert(self.items()[index as int] == content@);
                assert(context.frame() == before.push(self.item_drawing(index as int, height)));
                assert(Seq::new((index + 1) as nat, |k: int| self.item_drawing(k, height)) =~= Seq::new(
                    index as nat,
                    |k: int| self.item_drawing(k, height),
                ).push(self.item_drawing(index as int, height)));
                assert(context.frame() =~= head + Seq::new((index + 1) as nat, |k: int| self.item_drawing(k, height)));
            }
            index += 1;
        }
        let mut content: Vec<&String> = Vec::new();
        content.push(&texts.input.down_arrow);
        content.push(&texts.input.up_arrow);
        content.push(&texts.input.enter);
        assert(content@.map_values(|s: &String| s@) =~= seq![
            texts.input.down_arrow@,
            texts.input.up_arrow@,
            texts.input.enter@,
        ]);
        context.draw_control_footer(content);
        assert(context.frame() =~= old(context).frame() + self.drawing(
            *texts,
            old(context).width(),
            old(context).height(),
        ));
    }

    /// Whether the screen is to be drawn anew without a key press.
    pub fn update_display(&self) -> (again: bool)
        ensures
            !again,
    {
        false
    }

    /// What a key press makes of the menu.
    pub open spec fn took_key(
        before: Self,
        after: Self,
        key_code: KeyCode,
    ) -> bool {
        &&& after.well_formed()
        &&& after.items() == before.items()
        &&& after.selected() == selected_after(before.selected(), key_code)
        &&& after.pending() == (if key_code is Enter {
            Some(menu_target(before.selected() as int))
        } else {
            before.pending()
        })
    }

    /// Takes a key press: the arrows and the digits move the selection, Enter
    /// chooses the selected item.
    pub fn register_input(&mut self, key_code: KeyCode)
        requires
            old(self).well_formed(),
        ensures
            Self::took_key(*old(self), *final(self), key_code),
    {
        match key_code {
            KeyCode::Char(c) => {
                if 49 <= c as u32 && c as u32 <= 57 {
                    let mut digit = c as u32 - 48;
                    if digit >= self.menu_items.len() as u32 {
                        digit = self.menu_items.len() as u32
                    }
                    self.selected_item = digit as u8 - 1;
                }
            },
            KeyCode::Enter => {
                let item_index = self.selected_item as usize;
                let transition = self.menu_transitions[item_index].duplicate();
                self.next_state = Some(transition);
            },
            KeyCode::Up => {
                if self.selected_item == 0 {
                    self.selected_item = self.menu_items.len() as u8 - 1;
                } else {
                    self.selected_item -= 1;
                }
            },
            KeyCode::Down => {
                if self.selected_item == self.menu_items.len() as u8 - 1 {
                    self.selected_item = 0;
                } else {
                    self.selected_item += 1;
                }
            },
            _ => (),
        }
    }

    /// The index of the selected item.
    pub fn get_selected(&self) -> (selected: u8)
        ensures
            selected == self.selected(),
    {
        self.selected_item
    }

    /// The transition that waits, if an item has been chosen.
    pub fn next_state(&self) -> (transition: Option<Transition>)
        ensures
            transition_view(transition) == self.pending(),
    {
        duplicate_transition(&self.next_state)
    }
}

} // verus!
