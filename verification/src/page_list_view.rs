//! A list of accounts in pages of ten, with one page and one entry on each
//! page selected.

use vstd::prelude::*;
use vstd::slice::slice_subrange;
use crate::database_context::Account;
use crate::terminal_context::{styled_at, text_at, DrawCommandView, StyleAttribute, TerminalContext};
use crate::text::{integer_text, push_integer, string_of};

verus! {

/// The number of entries on a full page.
pub const MAX_ENTRIES_PER_PAGE: usize = 10;

/// One line of the list: an account's id and its name.
pub struct Entry {
    account_id: i32,
    account_name: String,
}

impl View for Entry {
    type V = (i32, Seq<char>);

    closed spec fn view(&self) -> (i32, Seq<char>) {
        (self.account_id, self.account_name@)
    }
}

/// The entries of accounts: their ids and names.
pub open spec fn entries_of(accounts: Seq<Account>) -> Seq<(i32, Seq<char>)> {
    accounts.map_values(|a: Account| (a.id, a.account_name@))
}

impl Entry {
    /// The entry of an account.
    pub fn new(account: &Account) -> (entry: Self)
        ensures
            entry@ == (account.id, account.account_name@),
    {
        Entry { account_id: account.id, account_name: account.account_name.clone() }
    }

    /// The id of the account.
    pub fn get_account_id(&self) -> (id: i32)
        ensures
            id == self@.0,
    {
        self.account_id
    }

    /// The name of the account.
    pub fn get_account_name(&self) -> (name: &str)
        ensures
            name@ == self@.1,
    {
        self.account_name.as_str()
    }
}

/// One page of the list, with one of its entries selected.
pub struct Page {
    entries: Vec<Entry>,
    selected_idx: usize,
}

impl Page {
    /// The entries of the page.
    pub closed spec fn entries(&self) -> Seq<(i32, Seq<char>)> {
        self.entries@.map_values(|e: Entry| e@)
    }

    /// The index of the selected entry.
    pub closed spec fn selected(&self) -> int {
        self.selected_idx as int
    }

    /// Whether the page holds an entry and the selected index names one.
    pub open spec fn well_formed(&self) -> bool {
        0 <= self.selected() < self.entries().len()
    }

    /// The page of some accounts, with the first selected. A page of no
    /// accounts has nothing selected, and is not well-formed.
    pub fn new(accounts: &[Account]) -> (page: Self)
        ensures
            page.well_formed() <==> accounts@.len() > 0,
            page.entries() == entries_of(accounts@),
            page.selected() == 0,
    {
        let mut entries: Vec<Entry> = Vec::new();
        let mut i: usize = 0;
        while i < accounts.len()
            invariant
                i <= accounts.len(),
                entries@.map_values(|e: Entry| e@) == entries_of(accounts@.take(i as int)),
            decreases accounts.len() - i,
        {
            let entry = Entry::new(&accounts[i]);
            proof {
                assert(entries@.push(entry).map_values(|e: Entry| e@) =~= entries@.map_values(|e: Entry| e@).push(
                    entry@,
                ));
                assert(entries_of(accounts@.take(i + 1)) =~= entries_of(accounts@.take(i as int)).push(
                    (accounts@[i as int].id, accounts@[i as int].account_name@),
                ));
            }
            entries.push(entry);
            i += 1;
        }
        assert(accounts@.take(accounts.len() as int) =~= accounts@);
        Page { entries, selected_idx: 0 }
    }

    /// Entry `index` of the page as it is drawn from a position: its name, in
    /// inverse colours where it is selected.
    pub open spec fn entry_drawing(&self, index: int, pos_x: u16, pos_y: u16) -> DrawCommandView {
        if index == self.selected() {
            styled_at(pos_x, (pos_y + index) as u16, self.entries()[index].1, StyleAttribute::InverseColor)
        } else {
            text_at(pos_x, (pos_y + index) as u16, self.entries()[index].1)
        }
    }

    /// What the page draws from a position: the names of its entries, one
    /// under the other.
    pub open spec fn drawing(&self, pos_x: u16, pos_y: u16) -> Seq<DrawCommandView> {
        Seq::new(self.entries().len(), |index: int| self.entry_drawing(index, pos_x, pos_y))
    }

    /// Draws the names of the page one under the other from a position, the
    /// selected one in inverse colours. All of them have to lie in the frame.
    pub fn display_entries(&self, context: &mut TerminalContext, pos_x: u16, pos_y: u16)
        requires
            old(context).well_formed(),
            self.entries().len() <= MAX_ENTRIES_PER_PAGE,
            pos_x <= old(context).width(),
            pos_y + MAX_ENTRIES_PER_PAGE <= old(context).height(),
        ensures
            final(context).drew_all(old(context), self.drawing(pos_x, pos_y)),
    {
        let mut idx: usize = 0;
        assert(context.frame() =~= old(context).frame() + Seq::new(0, |k: int| self.entry_drawing(k, pos_x, pos_y)));
        while idx < self.entries.len()
            invariant
                idx <= self.entries.len(),
                self.entries.len() <= MAX_ENTRIES_PER_PAGE,
                pos_x <= old(context).width(),
                pos_y + MAX_ENTRIES_PER_PAGE <= old(context).height(),
                context.drawn_over(old(context)),
                context.frame() == old(context).frame() + Seq::new(
                    idx as nat,
                    |k: int| self.entry_drawing(k, pos_x, pos_y),
                ),
            decreases self.entries.len() - idx,
        {
            let ghost before = context.frame();
            let entry = &self.entries[idx];
            if idx == self.selected_idx {
                context.print_styled_at_position(
                    pos_x,
                    pos_y + idx as u16,
                    entry.get_account_name(),
                    StyleAttribute::InverseColor,
                );
            } else {
                context.print_at_position(pos_x, pos_y + idx as u16, entry.get_account_name());
            }
            proof {
                assert(self.entries()[idx as int] == entry@);
                assert(context.frame() == before.push(self.entry_drawing(idx as int, pos_x, pos_y)));
                assert(Seq::new((idx + 1) as nat, |k: int| self.entry_drawing(k, pos_x, pos_y)) =~= Seq::new(
                    idx as nat,
                    |k: int| self.entry_drawing(k, pos_x, pos_y),
                ).push(self.entry_drawing(idx as int, pos_x, pos_y)));
                assert(context.frame() =~= old(context).frame() + Seq::new(
                    (idx + 1) as nat,
                    |k: int| self.entry_drawing(k, pos_x, pos_y),
                ));
            }
            idx += 1;
        }
        assert(self.entries.len() == self.entries().len());
    }

    /// Selects the next entry, unless the last one is selected.
    pub fn increase_selected_idx(&mut self)
        requires
            old(self).well_formed(),
        ensures
            final(self).well_formed(),
            final(self).entries() == old(self).entries(),
            final(self).selected() == (if old(self).selected() == old(self).entries().len() - 1 {
                old(self).selected()
            } else {
                old(self).selected() + 1
            }),
    {
        if self.selected_idx == self.entries.len() - 1 {
            return ;
        }
        self.selected_idx += 1;
    }

    /// Selects the entry before, unless the first one is selected.
    pub fn decrease_selected_idx(&mut self)
        requires
            old(self).well_formed(),
        ensures
            final(self).well_formed(),
            final(self).entries() == old(self).entries(),
            final(self).selected() == (if old(self).selected() == 0 {
                0
            } else {
                old(self).selected() - 1
            }),
    {
        if self.selected_idx == 0 {
            return ;
        }
        self.selected_idx -= 1;
    }

    /// The id of the selected account.
    pub fn get_selected_account_id(&self) -> (id: i32)
        requires
            self.well_formed(),
        ensures
            id == self.entries()[self.selected()].0,
    {
        self.entries[self.selected_idx].get_account_id()
    }
}

/// The number of pages that `count` entries fill.
pub open spec fn page_count(count: nat) -> nat {
    count / (MAX_ENTRIES_PER_PAGE as nat) + (if count % (MAX_ENTRIES_PER_PAGE as nat) > 0 {
        1nat
    } else {
        0nat
    })
}

/// The accounts of page `k` among `accounts`.
pub open spec fn accounts_of_page(accounts: Seq<Account>, k: int) -> Seq<Account> {
    accounts.subrange(
        k * MAX_ENTRIES_PER_PAGE,
        if (k + 1) * MAX_ENTRIES_PER_PAGE <= accounts.len() {
            (k + 1) * MAX_ENTRIES_PER_PAGE
        } else {
            accounts.len() as int
        },
    )
}

/// A count as the page counter shows it: the count itself, as long as it can
/// be written.
pub open spec fn shown_count(n: int) -> int {
    if n < i64::MAX {
        n
    } else {
        i64::MAX - 1
    }
}

fn count_of(n: usize) -> (count: i64)
    ensures
        0 <= count < i64::MAX,
        count == shown_count(n as int),
{
    if (n as u64) < 0x7fff_ffff_ffff_ffff {
        n as i64
    } else {
        i64::MAX - 1
    }
}

/// The list in pages, with one page selected.
pub struct PageView {
    pages: Vec<Page>,
    selected_idx: usize,
}

impl PageView {
    /// The number of pages.
    pub closed spec fn page_total(&self) -> int {
        self.pages@.len() as int
    }

    /// The entries of page `k`.
    pub closed spec fn page_entries(&self, k: int) -> Seq<(i32, Seq<char>)> {
        self.pages@[k].entries()
    }

    /// The index of the entry selected on page `k`.
    pub closed spec fn page_selected(&self, k: int) -> int {
        self.pages@[k].selected()
    }

    /// The index of the selected page.
    pub closed spec fn selected(&self) -> int {
        self.selected_idx as int
    }

    /// Whether every page holds between one and ten entries with one of them
    /// selected, and the selected index names a page, or is 0 where there is
    /// none.
    pub closed spec fn well_formed(&self) -> bool {
        &&& forall|k: int|
            0 <= k < self.pages@.len() ==> (#[trigger] self.pages@[k]).well_formed() && self.pages@[k].entries().len()
                <= MAX_ENTRIES_PER_PAGE
        &&& if self.pages@.len() == 0 {
            self.selected_idx == 0
        } else {
            self.selected_idx < self.pages@.len()
        }
    }

    /// The list of some accounts: ten on each page, the rest on the last,
    /// the first page and the first entry of each page selected.
    pub fn new(accounts: &[Account]) -> (view: Self)
        ensures
            view.well_formed(),
            view.page_total() == page_count(accounts@.len()),
            view.selected() == 0,
            forall|k: int|
                0 <= k < view.page_total() ==> #[trigger] view.page_entries(k) == entries_of(
                    accounts_of_page(accounts@, k),
                ) && view.page_selected(k) == 0,
    {
        let mut pages_needed = accounts.len() / MAX_ENTRIES_PER_PAGE;
        if accounts.len() % 10 > 0 {
            pages_needed += 1;
        }
        let mut pages: Vec<Page> = Vec::new();
        let mut i: usize = 0;
        while i < pages_needed
            invariant
                i <= pages_needed,
                pages_needed == page_count(accounts@.len()),
                pages@.len() == i,
                forall|k: int|
                    0 <= k < i ==> (#[trigger] pages@[k]).well_formed() && pages@[k].entries().len()
                        <= MAX_ENTRIES_PER_PAGE && pages@[k].entries() == entries_of(accounts_of_page(accounts@, k))
                        && pages@[k].selected() == 0,
            decreases pages_needed - i,
        {
            assert(accounts.len() == 10 * (accounts.len() / 10) + accounts.len() % 10);
            assert(i * 10 < accounts.len());
            let start = i * MAX_ENTRIES_PER_PAGE;
            let end = if accounts.len() - start > 10 {
                start + 10
            } else {
                accounts.len()
            };
            let accounts_at_page = slice_subrange(accounts, start, end);
            let page = Page::new(accounts_at_page);
            assert(accounts_at_page@ =~= accounts_of_page(accounts@, i as int));
            pages.push(page);
            i += 1;
        }
        Self { pages, selected_idx: 0 }
    }

    /// A list without pages.
    pub fn new_empty() -> (view: Self)
        ensures
            view.well_formed(),
            view.page_total() == 0,
            view.selected() == 0,
    {
        Self { pages: Vec::new(), selected_idx: 0 }
    }

    /// The page counter: the number of the selected page and the number of
    /// pages, in brackets with a stroke between them.
    pub open spec fn counter_text(&self) -> Seq<char> {
        seq!['['] + integer_text(shown_count(self.selected()) + 1) + seq!['/'] + integer_text(
            shown_count(self.page_total()),
        ) + seq![']']
    }

    /// The column of the page counter in a frame of this width: it ends one
    /// cell before the right edge, or starts at the left edge where it is
    /// too long for that.
    pub open spec fn counter_column(&self, width: u16) -> u16 {
        if self.counter_text().len() <= width - 1 {
            (width - 1 - self.counter_text().len()) as u16
        } else {
            0
        }
    }

    /// Entry `index` of page `k` as it is drawn from a position: its name,
    /// in inverse colours where it is selected.
    pub open spec fn entry_drawing(&self, k: int, index: int, pos_x: u16, pos_y: u16) -> DrawCommandView {
        if index == self.page_selected(k) {
            styled_at(pos_x, (pos_y + index) as u16, self.page_entries(k)[index].1, StyleAttribute::InverseColor)
        } else {
            text_at(pos_x, (pos_y + index) as u16, self.page_entries(k)[index].1)
        }
    }

    /// What the list draws from a position in a frame of this width: the
    /// page counter in the first row, and the names of the selected page
    /// from the first row down.
    pub open spec fn drawing(&self, pos_x: u16, pos_y: u16, width: u16) -> Seq<DrawCommandView> {
        seq![text_at(self.counter_column(width), pos_y, self.counter_text())] + (if self.page_total() == 0 {
            Seq::empty()
        } else {
            Seq::new(
                self.page_entries(self.selected()).len(),
                |index: int| self.entry_drawing(self.selected(), index, pos_x, pos_y),
            )
        })
    }

    /// Draws the page counter at the right of the row `pos_y`, and the
    /// selected page from (`pos_x`, `pos_y`) down. Ten rows from `pos_y`
    /// have to lie in the frame.
    pub fn display_page(&self, context: &mut TerminalContext, pos_x: u16, pos_y: u16)
        requires
            self.well_formed(),
            old(context).well_formed(),
            pos_x <= old(context).width(),
            pos_y + MAX_ENTRIES_PER_PAGE <= old(context).height(),
        ensures
            final(context).drew_all(old(context), self.drawing(pos_x, pos_y, old(context).width())),
    {
        let mut page_text: Vec<char> = Vec::new();
        page_text.push('[');
        push_integer(&mut page_text, count_of(self.selected_idx) + 1);
        page_text.push('/');
        push_integer(&mut page_text, count_of(self.pages.len()));
        page_text.push(']');
        let room = context.get_width() - 1;
        let page_text_x_pos = if page_text.len() <= room as usize {
            room - page_text.len() as u16
        } else {
            0
        };
        assert(page_text@ =~= self.counter_text());
        context.print_at_position(page_text_x_pos, pos_y, string_of(&page_text).as_str());
        if self.pages.len() == 0 {
            assert(context.frame() =~= old(context).frame() + self.drawing(pos_x, pos_y, old(context).width()));
            return ;
        }
        let page = &self.pages[self.selected_idx];
        page.display_entries(context, pos_x, pos_y);
        proof {
            assert(page.drawing(pos_x, pos_y) =~= Seq::new(
                self.page_entries(self.selected()).len(),
                |index: int| self.entry_drawing(self.selected(), index, pos_x, pos_y),
            ));
            assert(context.frame() =~= old(context).frame() + self.drawing(pos_x, pos_y, old(context).width()));
        }
    }

    /// Selects the next page, unless the last one is selected.
    pub fn next_page(&mut self)
        requires
            old(self).well_formed(),
        ensures
            final(self).well_formed(),
            final(self).same_pages(old(self)),
            final(self).selected() == (if old(self).page_total() == 0 || old(self).selected() == old(self).page_total() - 1 {
                old(self).selected()
            } else {
                old(self).selected() + 1
            }),
    {
        if self.pages.len() == 0 || self.selected_idx == self.pages.len() - 1 {
            return ;
        }
        self.selected_idx += 1;
    }

    /// Selects the page before, unless the first one is selected.
    pub fn prev_page(&mut self)
        requires
            old(self).well_formed(),
        ensures
            final(self).well_formed(),
            final(self).same_pages(old(self)),
            final(self).selected() == (if old(self).selected() == 0 {
                0
            } else {
                old(self).selected() - 1
            }),
    {
        if self.selected_idx == 0 || self.pages.len() == 0 {
            return ;
        }
        self.selected_idx -= 1;
    }

    /// Whether `self` holds the pages of `other` with the same entries
    /// selected on them.
    pub open spec fn same_pages(&self, other: &PageView) -> bool {
        &&& self.page_total() == other.page_total()
        &&& forall|k: int|
            0 <= k < self.page_total() ==> #[trigger] self.page_entries(k) == other.page_entries(k)
                && self.page_selected(k) == other.page_selected(k)
    }

    /// Whether `self` holds the pages of `other` with the same entries, and
    /// the same entries selected on every page but the selected one.
    pub open spec fn same_entries(&self, other: &PageView) -> bool {
        &&& self.page_total() == other.page_total()
        &&& self.selected() == other.selected()
        &&& forall|k: int| 0 <= k < self.page_total() ==> #[trigger] self.page_entries(k) == other.page_entries(k)
        &&& forall|k: int|
            0 <= k < self.page_total() && k != self.selected() ==> #[trigger] self.page_selected(k)
                == other.page_selected(k)
    }

    /// Selects the next account on the selected page, unless the last one is
    /// selected.
    pub fn next_account(&mut self)
        requires
            old(self).well_formed(),
        ensures
            final(self).well_formed(),
            final(self).same_entries(old(self)),
            old(self).page_total() > 0 ==> final(self).page_selected(old(self).selected()) == (if old(self).page_selected(old(self).selected()) == old(self).page_entries(old(self).selected()).len() - 1 {
                old(self).page_selected(old(self).selected())
            } else {
                old(self).page_selected(old(self).selected()) + 1
            }),
    {
        if self.pages.len() == 0 {
            return ;
        }
        let at = self.selected_idx;
        let mut page = self.pages.remove(at);
        page.increase_selected_idx();
        self.pages.insert(at, page);
        proof {
            assert forall|k: int| 0 <= k < self.pages@.len() && k != at implies self.pages@[k] == old(self).pages@[k] by {}
        }
    }

    /// Selects the account before on the selected page, unless the first one
    /// is selected.
    pub fn prev_account(&mut self)
        requires
            old(self).well_formed(),
        ensures
            final(self).well_formed(),
            final(self).same_entries(old(self)),
            old(self).page_total() > 0 ==> final(self).page_selected(old(self).selected()) == (if old(self).page_selected(old(self).selected()) == 0 {
                0
            } else {
                old(self).page_selected(old(self).selected()) - 1
            }),
    {
        if self.pages.len() == 0 {
            return ;
        }
        let at = self.selected_idx;
        let mut page = self.pages.remove(at);
        page.decrease_selected_idx();
        self.pages.insert(at, page);
        proof {
            assert forall|k: int| 0 <= k < self.pages@.len() && k != at implies self.pages@[k] == old(self).pages@[k] by {}
        }
    }

    /// The id of the selected account on the selected page, if there is a
    /// page.
    pub fn get_selected_account_id(&self) -> (id: Option<i32>)
        requires
            self.well_formed(),
        ensures
            self.page_total() >= 0,
            id is None <==> self.page_total() == 0,
            self.page_total() > 0 ==> id == Some(
                self.page_entries(self.selected())[self.page_selected(self.selected())].0,
            ),
    {
        if self.pages.len() == 0 {
            return None;
        }
        Some(self.pages[self.selected_idx].get_selected_account_id())
    }
}

} // verus!
