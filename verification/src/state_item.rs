//! The screens as one type: whichever screen is shown, it can be drawn, it
//! takes key presses, and it says when it is time for the next screen.

use vstd::prelude::*;
use crate::add_account_state_item::AddEntryStateItem;
use crate::authentication_state_item::AuthenticationStateItem;
use crate::database_context::{DatabaseManager, VaultError};
use crate::deferred_signal::Clock;
use crate::file_accesssor::{VaultFiles, VaultFilesView};
use crate::input_handler::KeyCode;
use crate::list_accounts_state::ListAccountsState;
use crate::main_menu_state_item::MainMenuStateItem;
use crate::set_authentication_state_item::SetAuthenticationStateItem;
use crate::show_account_state_item::ShowAccountStateItem;
use crate::startup_state_item::StartupStateItem;
use crate::terminal_context::{DrawCommandView, TerminalContext};
use crate::texts::{Password, Texts};
use crate::transition::{transition_view, Transition, TransitionView};
use crate::wipe_database_state_item::WipeDatabaseStateItem;

verus! {

/// A screen: one of the eight that the program has.
pub enum StateItem {
    Startup(StartupStateItem),
    Authentication(AuthenticationStateItem),
    MainMenu(MainMenuStateItem),
    AddAccount(AddEntryStateItem),
    ListAccounts(ListAccountsState),
    ShowAccount(ShowAccountStateItem),
    SetAuthentication(SetAuthenticationStateItem),
    WipeDatabase(WipeDatabaseStateItem),
}

impl StateItem {
    /// Whether the screen is in order.
    pub open spec fn well_formed(&self) -> bool {
        match self {
            StateItem::Startup(_) => true,
            StateItem::Authentication(s) => s.well_formed(),
            StateItem::MainMenu(s) => s.well_formed(),
            StateItem::AddAccount(_) => true,
            StateItem::ListAccounts(s) => s.well_formed(),
            StateItem::ShowAccount(s) => s.well_formed(),
            StateItem::SetAuthentication(s) => s.well_formed(),
            StateItem::WipeDatabase(_) => true,
        }
    }

    /// The transition that waits at the clock reading `now`, if the screen's
    /// exit condition is met.
    pub open spec fn pending(&self, now: u64) -> Option<TransitionView> {
        match self {
            StateItem::Startup(s) => s.pending(now),
            StateItem::Authentication(s) => s.pending(now),
            StateItem::MainMenu(s) => s.pending(),
            StateItem::AddAccount(s) => s.pending(now),
            StateItem::ListAccounts(s) => s.pending(),
            StateItem::ShowAccount(s) => s.pending(),
            StateItem::SetAuthentication(s) => s.pending(now),
            StateItem::WipeDatabase(s) => s.pending(now),
        }
    }

    /// What the screen draws in a frame of this size at the clock reading
    /// `now`.
    pub open spec fn drawing(&self, texts: Texts, width: u16, height: u16, now: u64) -> Seq<DrawCommandView> {
        match self {
            StateItem::Startup(_) => StartupStateItem::drawing(texts, width, height),
            StateItem::Authentication(s) => s.drawing(texts, width, height),
            StateItem::MainMenu(s) => s.drawing(texts, width, height),
            StateItem::AddAccount(s) => s.drawing(texts, width, height),
            StateItem::ListAccounts(s) => s.drawing(texts, width, height),
            StateItem::ShowAccount(s) => s.drawing(texts, width, height, now),
            StateItem::SetAuthentication(s) => s.drawing(texts, width, height),
            StateItem::WipeDatabase(s) => s.drawing(texts, width, height),
        }
    }

    /// What a key press makes of the screen, the vault and the files: the
    /// screen stays the kind of screen it is, and does with the key what
    /// that kind of screen does.
    pub open spec fn took_key(
        before: Self,
        after: Self,
        key_code: KeyCode,
        clock: Clock,
        db_before: DatabaseManager,
        db_after: DatabaseManager,
        files_before: VaultFilesView,
        files_after: VaultFilesView,
        done: Result<(), VaultError>,
    ) -> bool {
        match (before, after) {
            (StateItem::Startup(b), StateItem::Startup(a)) => {
                &&& a == b
                &&& done is Ok
                &&& db_after == db_before
                &&& files_after == files_before
            },
            (StateItem::Authentication(b), StateItem::Authentication(a)) => {
                &&& AuthenticationStateItem::took_key(
                    b,
                    a,
                    key_code,
                    clock.millis,
                    db_before,
                    db_after,
                    files_before,
                    done,
                )
                &&& files_after == files_before
            },
            (StateItem::MainMenu(b), StateItem::MainMenu(a)) => {
                &&& MainMenuStateItem::took_key(b, a, key_code)
                &&& done is Ok
                &&& db_after == db_before
                &&& files_after == files_before
            },
            (StateItem::AddAccount(b), StateItem::AddAccount(a)) => AddEntryStateItem::took_key(
                b,
                a,
                key_code,
                clock.millis,
                clock.unix_seconds,
                db_before,
                db_after,
                files_before,
                files_after,
                done,
            ),
            (StateItem::ListAccounts(b), StateItem::ListAccounts(a)) => {
                &&& ListAccountsState::took_key(b, a, key_code, db_before, done)
                &&& db_after == db_before
                &&& files_after == files_before
            },
            (StateItem::ShowAccount(b), StateItem::ShowAccount(a)) => ShowAccountStateItem::took_key(
                b,
                a,
                key_code,
                clock.millis,
                clock.unix_seconds,
                db_before,
                db_after,
                files_before,
                files_after,
                done,
            ),
            (StateItem::SetAuthentication(b), StateItem::SetAuthentication(a)) => SetAuthenticationStateItem::took_key(
                b,
                a,
                key_code,
                clock.millis,
                db_before,
                db_after,
                files_before,
                files_after,
                done,
            ),
            (StateItem::WipeDatabase(b), StateItem::WipeDatabase(a)) => {
                &&& WipeDatabaseStateItem::took_key(b, a, key_code, clock.millis, files_before, files_after, done)
                &&& db_after == db_before
            },
            _ => false,
        }
    }

    /// Draws the screen.
    pub fn display(&self, context: &mut TerminalContext, texts: &Texts, now: u64)
        requires
            self.well_formed(),
            old(context).well_formed(),
        ensures
            final(context).drew_all(
                old(context),
                self.drawing(*texts, old(context).width(), old(context).height(), now),
            ),
    {
        match self {
            StateItem::Startup(s) => s.display(context, texts),
            StateItem::Authentication(s) => s.display(context, texts),
            StateItem::MainMenu(s) => s.display(context, texts),
            StateItem::AddAccount(s) => s.display(context, texts),
            StateItem::ListAccounts(s) => s.display(context, texts),
            StateItem::ShowAccount(s) => s.display(context, texts, now),
            StateItem::SetAuthentication(s) => s.display(context, texts),
            StateItem::WipeDatabase(s) => s.display(context, texts),
        }
    }

    /// Whether the screen is to be drawn anew without a key press.
    pub fn update_display(&self) -> (again: bool)
        ensures
            again == (self matches StateItem::ShowAccount(s)
                && s.state() is CopyPassword),
    {
        match self {
            StateItem::Startup(s) => s.update_display(),
            StateItem::Authentication(s) => s.update_display(),
            StateItem::MainMenu(s) => s.update_display(),
            StateItem::AddAccount(s) => s.update_display(),
            StateItem::ListAccounts(s) => s.update_display(),
            StateItem::ShowAccount(s) => s.update_display(),
            StateItem::SetAuthentication(s) => s.update_display(),
            StateItem::WipeDatabase(s) => s.update_display(),
        }
    }

    /// Empties the screen, draws the border, and draws the screen.
    pub fn display_content(&self, context: &mut TerminalContext, texts: &Texts, now: u64)
        requires
            self.well_formed(),
            old(context).well_formed(),
        ensures
            final(context).drew_all(
                old(context),
                seq![DrawCommandView::Clear, DrawCommandView::Border] + self.drawing(
                    *texts,
                    old(context).width(),
                    old(context).height(),
                    now,
                ),
            ),
    {
        context.clear_screen();
        context.draw_border();
        self.display(context, texts, now);
        assert(context.frame() =~= old(context).frame() + (seq![DrawCommandView::Clear, DrawCommandView::Border]
            + self.drawing(*texts, old(context).width(), old(context).height(), now)));
    }

    /// Hands a key press to the screen.
    pub fn register_input(
        &mut self,
        key_code: KeyCode,
        clock: Clock,
        db_manager: &mut DatabaseManager,
        files: &mut VaultFiles,
        symbols: &Password,
    ) -> (done: Result<(), VaultError>)
        requires
            old(self).well_formed(),
        ensures
            final(self).well_formed(),
            old(db_manager).well_formed() ==> final(db_manager).well_formed(),
            Self::took_key(
                *old(self),
                *final(self),
                key_code,
                clock,
                *old(db_manager),
                *final(db_manager),
                old(files)@,
                final(files)@,
                done,
            ),
    {
        match self {
            StateItem::Startup(s) => {
                s.register_input(key_code);
                Ok(())
            },
            StateItem::Authentication(s) => s.register_input(key_code, clock.millis, db_manager, files, symbols),
            StateItem::MainMenu(s) => {
                s.register_input(key_code);
                Ok(())
            },
            StateItem::AddAccount(s) => s.register_input(key_code, clock, db_manager, files, symbols),
            StateItem::ListAccounts(s) => s.register_input(key_code, db_manager),
            StateItem::ShowAccount(s) => s.register_input(key_code, clock, db_manager, files, symbols),
            StateItem::SetAuthentication(s) => s.register_input(key_code, clock.millis, db_manager, files),
            StateItem::WipeDatabase(s) => s.register_input(key_code, clock.millis, files),
        }
    }

    /// What a screen does when it is replaced: it empties the display.
    pub fn shutdown(&mut self, context: &mut TerminalContext)
        ensures
            *final(self) == *old(self),
            final(context).drew(old(context), DrawCommandView::Clear),
    {
        context.clear_screen();
    }

    /// The transition that waits at the clock reading `now`, if the screen's
    /// exit condition is met. This reads only: asked again at the same clock
    /// reading, it says the same.
    pub fn next_state(&self, now: u64) -> (transition: Option<Transition>)
        ensures
            transition_view(transition) == self.pending(now),
    {
        match self {
            StateItem::Startup(s) => s.next_state(now),
            StateItem::Authentication(s) => s.next_state(now),
            StateItem::MainMenu(s) => s.next_state(),
            StateItem::AddAccount(s) => s.next_state(now),
            StateItem::ListAccounts(s) => s.next_state(),
            StateItem::ShowAccount(s) => s.next_state(),
            StateItem::SetAuthentication(s) => s.next_state(now),
            StateItem::WipeDatabase(s) => s.next_state(now),
        }
    }

    /// **A waiting transition stays.** Once a screen's exit condition is met,
    /// the same transition waits at every later clock reading, as long as no
    /// key press is handed to the screen.
    pub proof fn lemma_pending_stays(&self, now: u64, later: u64)
        requires
            self.pending(now) is Some,
            now <= later,
        ensures
            self.pending(later) == self.pending(now),
    {
        match self {
            StateItem::Startup(s) => s.signal().lemma_stays_ready(now, later),
            StateItem::Authentication(s) => s.signal().lemma_stays_ready(now, later),
            StateItem::AddAccount(s) => s.signal().lemma_stays_ready(now, later),
            StateItem::SetAuthentication(s) => s.signal().lemma_stays_ready(now, later),
            StateItem::WipeDatabase(s) => s.signal().lemma_stays_ready(now, later),
            _ => {},
        }
    }
}

} // verus!
