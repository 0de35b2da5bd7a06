//! The screen that lists the accounts, all of them or those that a search
//! text selects, and leads on to the one that is chosen.

use vstd::prelude::*;
use crate::database_context::{
    account_views, is_read_failure, rows_matching, Account, DatabaseManager, VaultError,
};
use crate::dump_format::RowView;
use crate::input_handler::{text_after_key, KeyCode};
use crate::page_list_view::PageView;
use crate::terminal_context::{
    control_footer, styled_at, text_at, DrawCommandView, StyleAttribute, TerminalContext,
};
use crate::texts::Texts;
use crate::transition::{duplicate_transition, transition_view, Transition, TransitionView};

verus! {

/// Whether the whole list is shown, or what a search selects.
#[derive(Clone, Copy, Debug, PartialEq, Eq)]
pub enum ListState {
    List,
    Search,
}

/// The first of the rows with this id, if there is one.
pub open spec fn row_of_id(rows: Seq<RowView>, id: i64) -> Option<RowView>
    decreases rows.len(),
{
    if rows.len() == 0 {
        None
    } else if rows[0].id == id {
        Some(rows[0])
    } else {
        row_of_id(rows.skip(1), id)
    }
}

/// The rows that a list shows of a store: all of them, or those whose name
/// holds the search text.
pub open spec fn listed_rows(rows: Seq<RowView>, state: ListState, search: Seq<char>) -> Seq<RowView> {
    match state {
        ListState::List => rows,
        ListState::Search => rows_matching(rows, search),
    }
}

pub struct ListAccountsState {
    entries: Vec<Account>,
    search_str: String,
    page_view: PageView,
    internal_state: ListState,
    next_state: Option<Transition>,
}

impl ListAccountsState {
    /// The accounts that are listed.
    pub closed spec fn entries(&self) -> Seq<RowView> {
        account_views(self.entries@)
    }

    /// The search text.
    pub closed spec fn search(&self) -> Seq<char> {
        self.search_str@
    }

    /// The pages of the list.
    pub closed spec fn pages(&self) -> PageView {
        self.page_view
    }

    /// Whether the whole list is shown, or what a search selects.
    pub closed spec fn state(&self) -> ListState {
        self.internal_state
    }

    /// The transition that waits, if any.
    pub closed spec fn pending(&self) -> Option<TransitionView> {
        transition_view(self.next_state)
    }

    /// Whether the pages are in order.
    pub open spec fn well_formed(&self) -> bool {
        self.pages().well_formed()
    }

    /// The id of the account that is selected, if the list holds one.
    pub open spec fn selected_id(&self) -> Option<i32> {
        if self.pages().page_total() == 0 {
            None
        } else {
            Some(self.pages().page_entries(self.pages().selected())[self.pages().page_selected(self.pages().selected())].0)
        }
    }

    /// The transition that choosing the selected account makes: to that
    /// account's screen, where the list holds an account of the selected id.
    pub open spec fn chosen(&self) -> Option<TransitionView> {
        match self.selected_id() {
            Some(id) => match row_of_id(self.entries(), id as i64) {
                Some(row) => Some(TransitionView::ToShowAccount(row)),
                None => self.pending(),
            },
            None => self.pending(),
        }
    }

    /// The search line as it is drawn in a frame of this width: its label in
    /// inverse colours, the search text, and a line under it.
    pub open spec fn search_area(&self, texts: Texts, width: u16) -> Seq<DrawCommandView> {
        seq![
            styled_at(0, 2, texts.list_accounts.search@, StyleAttribute::InverseColor),
            text_at(0, 3, self.search()),
            DrawCommandView::Line { x: 0, y: 4, width: (width - 1) as u16 },
        ]
    }

    /// The keys that the footer names.
    pub open spec fn footer_keys(&self, texts: Texts) -> Seq<Seq<char>> {
        (match self.state() {
            ListState::List => seq![texts.list_accounts.search_input@, texts.list_accounts.quit_input@],
            ListState::Search => seq![texts.input.escape@],
        }) + seq![
            texts.input.down_arrow@,
            texts.input.up_arrow@,
            texts.input.left_arrow@,
            texts.input.right_arrow@,
            texts.input.enter@,
        ]
    }

    /// What the screen draws in a frame of this size: the heading, the search
    /// line where a search is shown, the list from the sixth row down, and
    /// the footer that names the keys.
    pub open spec fn drawing(&self, texts: Texts, width: u16, height: u16) -> Seq<DrawCommandView> {
        seq![text_at(0, 0, texts.list_accounts.heading@)] + (match self.state() {
            ListState::List => Seq::empty(),
            ListState::Search => self.search_area(texts, width),
        }) + self.pages().drawing(0, 5, width) + control_footer(self.footer_keys(texts), width, height)
    }

    /// The list of all accounts of the store. It fails where the vault is
    /// locked or the store does.
    pub fn new(db_manager: &DatabaseManager) -> (screen: Result<Self, VaultError>)
        ensures
            match screen {
                Ok(s) => {
                    &&& db_manager.is_unlocked()
                    &&& s.well_formed()
                    &&& s.state() is List
                    &&& s.search() == Seq::<char>::empty()
                    &&& s.pending() is None
                    &&& s.entries() == db_manager.rows()
                    &&& s.pages().selected() == 0
                },
                Err(e) => is_read_failure(e, *db_manager),
            },
    {
        let mut s = Self {
            entries: Vec::new(),
            search_str: String::new(),
            internal_state: ListState::List,
            page_view: PageView::new_empty(),
            next_state: None,
        };
        match s.filter_entries(db_manager) {
            Ok(_) => Ok(s),
            Err(e) => Err(e),
        }
    }

    /// Reads the accounts from the store anew, all of them or those that the
    /// search text selects, and lays them out in pages from the first.
    fn filter_entries(&mut self, db_manager: &DatabaseManager) -> (done: Result<(), VaultError>)
        ensures
            final(self).state() == old(self).state(),
            final(self).search() == old(self).search(),
            final(self).pending() == old(self).pending(),
            match done {
                Ok(_) => {
                    &&& db_manager.is_unlocked()
                    &&& final(self).well_formed()
                    &&& final(self).entries() == listed_rows(db_manager.rows(), old(self).state(), old(self).search())
                    &&& final(self).pages().selected() == 0
                },
                Err(e) => {
                    &&& is_read_failure(e, *db_manager)
                    &&& final(self).entries() == old(self).entries()
                    &&& final(self).pages() == old(self).pages()
                },
            },
    {
        let db_context = match db_manager.get_database_context() {
            Some(context) => context,
            None => return Err(VaultError::Locked),
        };
        let found = match &self.internal_state {
            ListState::List => db_context.list_all_accounts(),
            ListState::Search => db_context.search_accounts_by_name(self.search_str.as_str()),
        };
        self.entries = match found {
            Ok(accounts) => accounts,
            Err(e) => return Err(VaultError::Store(e)),
        };
        self.page_view = PageView::new(self.entries.as_slice());
        Ok(())
    }

    fn show_search_area(&self, context: &mut TerminalContext, texts: &Texts)
        requires
            old(context).well_formed(),
        ensures
            final(context).drew_all(old(context), self.search_area(*texts, old(context).width())),
    {
        context.print_styled_at_position(0, 2, texts.list_accounts.search.as_str(), StyleAttribute::InverseColor);
        context.print_at_position(0, 3, self.search_str.as_str());
        context.print_line(0, 4, context.get_width() - 1);
        assert(context.frame() =~= old(context).frame() + self.search_area(*texts, old(context).width()));
    }

    fn show_list_of_accounts(&self, context: &mut TerminalContext)
        requires
            self.well_formed(),
            old(context).well_formed(),
        ensures
            final(context).drew_all(old(context), self.pages().drawing(0, 5, old(context).width())),
    {
        let y_start = 5u16;
        self.page_view.display_page(context, 0, y_start);
    }

    /// Chooses the selected account: the transition to its screen waits from
    /// now on.
    fn select_account(&mut self)
        requires
            old(self).well_formed(),
        ensures
            final(self).state() == old(self).state(),
            final(self).search() == old(self).search(),
            final(self).entries() == old(self).entries(),
            final(self).pages() == old(self).pages(),
            final(self).pending() == old(self).chosen(),
    {
        let selected_account_id = self.page_view.get_selected_account_id();
        let id = match selected_account_id {
            Some(id) => id,
            None => {
                return ;
            },
        };
        let mut i: usize = 0;
        assert(self.entries().skip(0) =~= self.entries());
        while i < self.entries.len()
            invariant
                i <= self.entries.len(),
                *self == *old(self),
                old(self).selected_id() == Some(id),
                row_of_id(self.entries(), id as i64) == row_of_id(self.entries().skip(i as int), id as i64),
            decreases self.entries.len() - i,
        {
            proof {
                assert(self.entries().skip(i as int)[0] == self.entries@[i as int]@);
                assert(self.entries().skip(i as int).skip(1) =~= self.entries().skip(i + 1));
            }
            if self.entries[i].id == id {
                let account = self.entries[i].duplicate();
                self.next_state = Some(Transition::ToShowAccount(account));
                return ;
            }
            i += 1;
        }
    }

    /// Moves the selection as an arrow key asks for; every other key changes
    /// nothing.
    fn move_selection(&mut self, key_code: KeyCode)
        requires
            old(self).well_formed(),
        ensures
            final(self).well_formed(),
            final(self).state() == old(self).state(),
            final(self).search() == old(self).search(),
            final(self).entries() == old(self).entries(),
            final(self).pending() == old(self).pending(),
            pages_moved(old(self).pages(), final(self).pages(), key_code),
    {
        match key_code {
            KeyCode::Down => {
                self.page_view.next_account();
            },
            KeyCode::Up => {
                self.page_view.prev_account();
            },
            KeyCode::Left => {
                self.page_view.prev_page();
            },
            KeyCode::Right => {
                self.page_view.next_page();
            },
            _ => {},
        }
    }

    /// Takes a key press while the whole list is shown: the arrows move the
    /// selection, Enter chooses the selected account, `q` leads back to the
    /// main menu, `s` starts a search.
    fn input_list_state(&mut self, key_code: KeyCode)
        requires
            old(self).well_formed(),
        ensures
            final(self).well_formed(),
            final(self).search() == old(self).search(),
            final(self).entries() == old(self).entries(),
            final(self).state() == (if key_code == KeyCode::Char('s') {
                ListState::Search
            } else {
                old(self).state()
            }),
            final(self).pending() == (if key_code is Enter {
                old(self).chosen()
            } else if key_code == KeyCode::Char('q') {
                Some(TransitionView::ToMainMenu)
            } else {
                old(self).pending()
            }),
            pages_moved(old(self).pages(), final(self).pages(), key_code),
    {
        match key_code {
            KeyCode::Enter => {
                self.select_account();
            },
            KeyCode::Char(c) => {
                if c == 'q' {
                    self.next_state = Some(Transition::ToMainMenu);
                } else if c == 's' {
                    self.internal_state = ListState::Search;
                }
            },
            _ => {
                self.move_selection(key_code);
            },
        }
    }

    /// Takes a key press while a search is shown: a character or backspace
    /// edits the search text and the list follows; Escape empties it and
    /// shows the whole list again; the arrows move the selection, Enter
    /// chooses the selected account.
    fn input_search_state(&mut self, key_code: KeyCode, db_manager: &DatabaseManager) -> (done: Result<(), VaultError>)
        requires
            old(self).well_formed(),
            old(self).state() is Search,
        ensures
            final(self).well_formed(),
            match done {
                Ok(_) => {
                    &&& final(self).search() == (if key_code is Esc {
                        Seq::<char>::empty()
                    } else {
                        text_after_key(old(self).search(), key_code)
                    })
                    &&& final(self).state() == (if key_code is Esc {
                        ListState::List
                    } else {
                        ListState::Search
                    })
                    &&& final(self).pending() == (if key_code is Enter {
                        old(self).chosen()
                    } else {
                        old(self).pending()
                    })
                    &&& if key_code is Char || key_code is Backspace || key_code is Esc {
                        &&& db_manager.is_unlocked()
                        &&& final(self).entries() == rows_matching(db_manager.rows(), final(self).search())
                        &&& final(self).pages().selected() == 0
                    } else {
                        &&& final(self).entries() == old(self).entries()
                        &&& pages_moved(old(self).pages(), final(self).pages(), key_code)
                    }
                },
                Err(e) => {
                    &&& key_code is Char || key_code is Backspace || key_code is Esc
                    &&& is_read_failure(e, *db_manager)
                    &&& final(self).entries() == old(self).entries()
                    &&& final(self).pages() == old(self).pages()
                    &&& final(self).state() == old(self).state()
                    &&& final(self).pending() == old(self).pending()
                    &&& final(self).search() == (if key_code is Esc {
                        Seq::<char>::empty()
                    } else {
                        text_after_key(old(self).search(), key_code)
                    })
                },
            },
    {
        match key_code {
            KeyCode::Char(c) => {
                self.search_str.push(c);
                self.filter_entries(db_manager)
            },
            KeyCode::Backspace => {
                self.search_str.pop();
                self.filter_entries(db_manager)
            },
            KeyCode::Esc => {
                self.search_str.clear();
                match self.filter_entries(db_manager) {
                    Ok(_) => {},
                    Err(e) => {
                        return Err(e);
                    },
                }
                self.internal_state = ListState::List;
                Ok(())
            },
            KeyCode::Enter => {
                self.select_account();
                Ok(())
            },
            _ => {
                self.move_selection(key_code);
                Ok(())
            },
        }
    }

    /// Draws the heading, the search line where a search is shown, the
    /// selected page, and the footer that names the keys.
    pub fn display(&self, context: &mut TerminalContext, texts: &Texts)
        requires
            self.well_formed(),
            old(context).well_formed(),
        ensures
            final(context).drew_all(old(context), self.drawing(*texts, old(context).width(), old(context).height())),
    {
        context.print_at_position(0, 0, texts.list_accounts.heading.as_str());
        let mut control_footer_help: Vec<&String> = Vec::new();
        match &self.internal_state {
            ListState::List => {
                control_footer_help.push(&texts.list_accounts.search_input);
                control_footer_help.push(&texts.list_accounts.quit_input);
            },
            ListState::Search => {
                control_footer_help.push(&texts.input.escape);
                self.show_search_area(context, texts);
            },
        }
        control_footer_help.push(&texts.input.down_arrow);
        control_footer_help.push(&texts.input.up_arrow);
        control_footer_help.push(&texts.input.left_arrow);
        control_footer_help.push(&texts.input.right_arrow);
        control_footer_help.push(&texts.input.enter);
        assert(control_footer_help@.map_values(|s: &String| s@) =~= self.footer_keys(*texts));
        self.show_list_of_accounts(context);
        context.draw_control_footer(control_footer_help);
        assert(context.frame() =~= old(context).frame() + self.drawing(
            *texts,
            old(context).width(),
            old(context).height(),
        ));
    }

    /// Whether the screen is to be drawn anew without a key press.
    pub fn update_display(&self) -> (again: bool)
        ensures
            !again,
    {
        false
    }

    /// What a key press makes of the screen, given the vault.
    pub open spec fn took_key(
        before: Self,
        after: Self,
        key_code: KeyCode,
        db_manager: DatabaseManager,
        done: Result<(), VaultError>,
    ) -> bool {
        &&& after.well_formed()
        &&& match before.state() {
            ListState::List => {
                &&& done is Ok
                &&& after.search() == before.search()
                &&& after.entries() == before.entries()
                &&& after.state() == (if key_code == KeyCode::Char('s') {
                    ListState::Search
                } else {
                    ListState::List
                })
                &&& after.pending() == (if key_code is Enter {
                    before.chosen()
                } else if key_code == KeyCode::Char('q') {
                    Some(TransitionView::ToMainMenu)
                } else {
                    before.pending()
                })
                &&& pages_moved(before.pages(), after.pages(), key_code)
            },
            ListState::Search => {
                &&& after.search() == (if key_code is Esc {
                    Seq::<char>::empty()
                } else {
                    text_after_key(before.search(), key_code)
                })
                &&& match done {
                    Ok(_) => {
                        &&& after.state() == (if key_code is Esc {
                            ListState::List
                        } else {
                            ListState::Search
                        })
                        &&& after.pending() == (if key_code is Enter {
                            before.chosen()
                        } else {
                            before.pending()
                        })
                        &&& if key_code is Char || key_code is Backspace || key_code is Esc {
                            &&& db_manager.is_unlocked()
                            &&& after.entries() == rows_matching(db_manager.rows(), after.search())
                            &&& after.pages().selected() == 0
                        } else {
                            &&& after.entries() == before.entries()
                            &&& pages_moved(before.pages(), after.pages(), key_code)
                        }
                    },
                    Err(e) => {
                        &&& key_code is Char || key_code is Backspace || key_code is Esc
                        &&& is_read_failure(e, db_manager)
                        &&& after.entries() == before.entries()
                        &&& after.pages() == before.pages()
                        &&& after.state() == before.state()
                        &&& after.pending() == before.pending()
                    },
                }
            },
        }
    }

    /// Takes a key press, as the whole list or as the search does.
    pub fn register_input(&mut self, key_code: KeyCode, db_manager: &DatabaseManager) -> (done: Result<(), VaultError>)
        requires
            old(self).well_formed(),
        ensures
            Self::took_key(*old(self), *final(self), key_code, *db_manager, done),
    {
        match &self.internal_state {
            ListState::List => {
                self.input_list_state(key_code);
                Ok(())
            },
            ListState::Search => self.input_search_state(key_code, db_manager),
        }
    }

    /// Whether the whole list is shown, or what a search selects.
    pub fn get_state(&self) -> (state: ListState)
        ensures
            state == self.state(),
    {
        self.internal_state
    }

    /// The accounts that are listed.
    pub fn get_entries(&self) -> (entries: &Vec<Account>)
        ensures
            account_views(entries@) == self.entries(),
    {
        &self.entries
    }

    /// The id of the account that is selected, if the list holds one.
    pub fn get_selected_account_id(&self) -> (id: Option<i32>)
        requires
            self.well_formed(),
        ensures
            id == self.selected_id(),
    {
        self.page_view.get_selected_account_id()
    }

    /// The transition that waits, if any.
    pub fn next_state(&self) -> (transition: Option<Transition>)
        ensures
            transition_view(transition) == self.pending(),
    {
        duplicate_transition(&self.next_state)
    }
}

/// Whether `after` is what a key press makes of the pages `before`. Down and
/// Up move the selection on the selected page by one entry, Right and Left
/// select the next page and the one before; none of them goes beyond the
/// ends, and none changes what the pages hold. Every other key leaves the
/// pages as they are.
pub open spec fn pages_moved(before: PageView, after: PageView, key_code: KeyCode) -> bool {
    match key_code {
        KeyCode::Down => {
            &&& after.same_entries(&before)
            &&& before.page_total() > 0 ==> after.page_selected(before.selected()) == (if before.page_selected(
                before.selected(),
            ) == before.page_entries(before.selected()).len() - 1 {
                before.page_selected(before.selected())
            } else {
                before.page_selected(before.selected()) + 1
            })
        },
        KeyCode::Up => {
            &&& after.same_entries(&before)
            &&& before.page_total() > 0 ==> after.page_selected(before.selected()) == (if before.page_selected(
                before.selected(),
            ) == 0 {
                0
            } else {
                before.page_selected(before.selected()) - 1
            })
        },
        KeyCode::Left => {
            &&& after.same_pages(&before)
            &&& after.selected() == (if before.selected() == 0 {
                0
            } else {
                before.selected() - 1
            })
        },
        KeyCode::Right => {
            &&& after.same_pages(&before)
            &&& after.selected() == (if before.page_total() == 0 || before.selected() == before.page_total() - 1 {
                before.selected()
            } else {
                before.selected() + 1
            })
        },
        _ => after == before,
    }
}

} // verus!
