//! The screen that asks for the master passphrase and unlocks the vault.

use vstd::prelude::*;
use crate::database_context::{
    is_key_unlock_failure, key_unlock_refusal, opened_database, DatabaseManager, VaultError,
};
use crate::deferred_signal::{wait_for_seconds, DeferredSignal};
use crate::encryption_controller::{parsed_record, FormatError, PasswordEncryption};
use crate::file_accesssor::{read_password_from_disk, VaultFiles};
use crate::input_handler::{get_text_input, text_after_key, KeyCode};
use crate::password_widget::PasswordWidget;
use crate::terminal_context::{
    byte_len, center, centered, control_footer, text_at, text_len, DrawCommandView, TerminalContext,
};
use crate::texts::{Password, Texts};
use crate::transition::{transition_view, Transition, TransitionView};
use crate::widget::Widget;

verus! {

/// The seconds for which the success is shown before the main menu comes.
pub const UNLOCKED_SECONDS: u64 = 1;

/// Where the dialogue stands.
#[derive(Clone, Copy, Debug, PartialEq, Eq)]
pub enum LockState {
    /// The passphrase is being typed.
    Locked,
    /// A wrong passphrase was entered, and Enter is awaited.
    Invalid,
    /// The right passphrase was entered.
    Unlocked,
}

pub struct AuthenticationStateItem {
    next_state_ready: DeferredSignal,
    master_password: PasswordEncryption,
    lock_state: LockState,
    input_buffer: String,
    password_widget: PasswordWidget,
}

impl AuthenticationStateItem {
    /// Where the dialogue stands.
    pub closed spec fn lock_state(&self) -> LockState {
        self.lock_state
    }

    /// What has been typed.
    pub closed spec fn input(&self) -> Seq<char> {
        self.input_buffer@
    }

    /// The key record that the passphrase is held against.
    pub closed spec fn record(&self) -> PasswordEncryption {
        self.master_password
    }

    /// The timer that leads on to the main menu.
    pub closed spec fn signal(&self) -> DeferredSignal {
        self.next_state_ready
    }

    /// The widget that stands for the passphrase.
    pub closed spec fn widget(&self) -> PasswordWidget {
        self.password_widget
    }

    /// What the screen draws in a frame of this size. While the passphrase is
    /// typed: the prompt in the middle, what stands for the passphrase under
    /// it, the footer that names the Enter key, and the cursor under the
    /// prompt. Afterwards: the verdict in the middle, and after a wrong
    /// passphrase the footer too.
    pub open spec fn drawing(&self, texts: Texts, width: u16, height: u16) -> Seq<DrawCommandView> {
        let middle = height / 2;
        match self.lock_state() {
            LockState::Locked => {
                let pos_x = centered(width, byte_len(texts.auth.enter_pwd_promt@));
                seq![text_at(pos_x, middle, texts.auth.enter_pwd_promt@)] + self.widget().drawing(
                    pos_x,
                    (middle + 1) as u16,
                ) + control_footer(seq![texts.input.enter@], width, height) + seq![
                    DrawCommandView::Cursor { x: pos_x, y: (middle + 1) as u16 },
                ]
            },
            LockState::Invalid => seq![
                text_at(centered(width, byte_len(texts.auth.invalid_pwd@)), middle, texts.auth.invalid_pwd@),
            ] + control_footer(seq![texts.input.enter@], width, height),
            LockState::Unlocked => seq![
                text_at(centered(width, byte_len(texts.auth.valid_pwd@)), middle, texts.auth.valid_pwd@),
            ],
        }
    }

    /// The transition that waits at the clock reading `now`.
    pub open spec fn pending(&self, now: u64) -> Option<TransitionView> {
        if self.signal().ready_at(now) {
            Some(TransitionView::ToMainMenu)
        } else {
            None
        }
    }

    /// Whether the timer runs exactly where the right passphrase was entered.
    pub open spec fn well_formed(&self) -> bool {
        &&& !self.signal().is_fired()
        &&& self.signal().is_armed() == (self.lock_state() is Unlocked)
    }

    /// The screen, with the key record read from the key file. It fails where
    /// the file is missing or malformed.
    pub fn new(files: &VaultFiles, symbols: &Password) -> (screen: Result<Self, VaultError>)
        ensures
            match screen {
                Ok(s) => {
                    &&& files@.password_file is Some
                    &&& parsed_record(files@.password_file->0) == Ok::<_, FormatError>((s.record().salt(), s.record().key()))
                    &&& s.lock_state() is Locked
                    &&& s.input() == Seq::<char>::empty()
                    &&& s.well_formed()
                },
                Err(VaultError::IoFailure) => files@.password_file is None,
                Err(VaultError::Format(e)) => files@.password_file is Some && parsed_record(files@.password_file->0)
                    == Err::<(Seq<u8>, Seq<u8>), _>(e),
                Err(_) => false,
            },
    {
        let pwd_string = match read_password_from_disk(files) {
            Some(text) => text,
            None => return Err(VaultError::IoFailure),
        };
        let master_password = match PasswordEncryption::create_from_string(pwd_string) {
            Ok(record) => record,
            Err(e) => return Err(VaultError::Format(e)),
        };
        let input_buffer = String::new();
        Ok(
            AuthenticationStateItem {
                next_state_ready: DeferredSignal::new(),
                master_password,
                password_widget: PasswordWidget::new(input_buffer.clone(), symbols),
                lock_state: LockState::Locked,
                input_buffer,
            },
        )
    }

    /// Holds what has been typed, as it was typed, against the key record.
    /// Where it is the passphrase, the vault is unlocked with the record's
    /// key and the timer to the main menu starts. Where the vault does not
    /// unlock, that is the error: `NotLocked` for a vault that is unlocked
    /// already, else what is wrong with the database file, or that the store
    /// did not take its rows. Where it is not the passphrase, the dialogue
    /// says so.
    pub fn test_password(&mut self, now: u64, db_manager: &mut DatabaseManager, files: &VaultFiles) -> (done:
        Result<(), VaultError>)
        requires
            old(self).well_formed(),
            old(self).lock_state() is Locked,
        ensures
            final(self).record() == old(self).record(),
            final(self).input() == old(self).input(),
            old(db_manager).well_formed() ==> final(db_manager).well_formed(),
            old(self).record().accepts(old(self).input()) ==> match key_unlock_refusal(
                *old(db_manager),
                old(self).record().key(),
                files@,
            ) {
                Some(refusal) => done == Err::<(), _>(refusal),
                None => true,
            },
            match done {
                Ok(_) => {
                    &&& final(self).well_formed()
                    &&& if old(self).record().accepts(old(self).input()) {
                        &&& final(self).lock_state() is Unlocked
                        &&& final(self).signal().armed_at() == now
                        &&& final(self).signal().wait() == DeferredSignal::millis_of(UNLOCKED_SECONDS)
                        &&& !old(db_manager).is_unlocked()
                        &&& final(db_manager).is_unlocked()
                        &&& final(db_manager).key() == old(self).record().key()
                        &&& opened_database(old(self).record().key(), files@) == Ok::<_, VaultError>(
                            final(db_manager).rows(),
                        )
                    } else {
                        &&& final(self).lock_state() is Invalid
                        &&& *final(db_manager) == *old(db_manager)
                    }
                },
                Err(e) => {
                    &&& *final(self) == *old(self)
                    &&& *final(db_manager) == *old(db_manager)
                    &&& old(self).record().accepts(old(self).input())
                    &&& is_key_unlock_failure(e, *old(db_manager), old(self).record().key(), files@)
                },
            },
    {
        if self.master_password.verify_string(self.input_buffer.as_str()) {
            match self.unlock_database(db_manager, files) {
                Ok(_) => {},
                Err(e) => {
                    return Err(e);
                },
            }
            self.lock_state = LockState::Unlocked;
            wait_for_seconds(UNLOCKED_SECONDS, now, &mut self.next_state_ready);
        } else {
            self.lock_state = LockState::Invalid;
        }
        Ok(())
    }

    fn unlock_database(&self, db_manager: &mut DatabaseManager, files: &VaultFiles) -> (done: Result<(), VaultError>)
        ensures
            old(db_manager).well_formed() ==> final(db_manager).well_formed(),
            match done {
                Ok(_) => {
                    &&& !old(db_manager).is_unlocked()
                    &&& final(db_manager).is_unlocked()
                    &&& final(db_manager).key() == self.record().key()
                    &&& opened_database(self.record().key(), files@) == Ok::<_, VaultError>(final(db_manager).rows())
                },
                Err(e) => *final(db_manager) == *old(db_manager) && is_key_unlock_failure(
                    e,
                    *old(db_manager),
                    self.record().key(),
                    files@,
                ),
            },
            match key_unlock_refusal(*old(db_manager), self.record().key(), files@) {
                Some(refusal) => done == Err::<(), _>(refusal),
                None => true,
            },
    {
        db_manager.unlock_with_key(&self.master_password.get_encrypted_string(), files)
    }

    /// Draws the prompt and what stands for the passphrase, or the verdict.
    pub fn display(&self, context: &mut TerminalContext, texts: &Texts)
        requires
            old(context).well_formed(),
        ensures
            final(context).drew_all(old(context), self.drawing(*texts, old(context).width(), old(context).height())),
    {
        let vert_center = context.get_height() / 2;
        match self.lock_state {
            LockState::Locked => {
                let enter_prompt = &texts.auth.enter_pwd_promt;
                let pos_x = center(context.get_width(), text_len(enter_prompt.as_str()));
                context.print_at_position(pos_x, vert_center, enter_prompt.as_str());
                self.password_widget.display(context, pos_x, vert_center + 1);
                let mut content: Vec<&String> = Vec::new();
                content.push(&texts.input.enter);
                assert(content@.map_values(|s: &String| s@) =~= seq![texts.input.enter@]);
                context.draw_control_footer(content);
                context.move_cursor_to_position(pos_x, vert_center + 1);
            },
            LockState::Invalid => {
                let enter_prompt = &texts.auth.invalid_pwd;
                let pos_x_enter = center(context.get_width(), text_len(enter_prompt.as_str()));
                context.print_at_position(pos_x_enter, vert_center, enter_prompt.as_str());
                let mut content: Vec<&String> = Vec::new();
                content.push(&texts.input.enter);
                assert(content@.map_values(|s: &String| s@) =~= seq![texts.input.enter@]);
                context.draw_control_footer(content)
            },
            LockState::Unlocked => {
                let enter_prompt = &texts.auth.valid_pwd;
                let pos_x_enter = center(context.get_width(), text_len(enter_prompt.as_str()));
                context.print_at_position(pos_x_enter, vert_center, enter_prompt.as_str());
            },
        }
        assert(context.frame() =~= old(context).frame() + self.drawing(
            *texts,
            old(context).width(),
            old(context).height(),
        ));
    }

    /// Whether the screen is to be drawn anew without a key press.
    pub fn update_display(&self) -> (again: bool)
        ensures
            !again,
    {
        false
    }

    /// What a key press makes of the screen, the vault and the files.
    pub open spec fn took_key(
        before: Self,
        after: Self,
        key_code: KeyCode,
        now: u64,
        db_before: DatabaseManager,
        db_after: DatabaseManager,
        files: crate::file_accesssor::VaultFilesView,
        done: Result<(), VaultError>,
    ) -> bool {
        &&& after.record() == before.record()
        &&& db_before.well_formed() ==> db_after.well_formed()
        &&& before.lock_state() is Locked && key_code is Enter && before.record().accepts(before.input())
            ==> match key_unlock_refusal(db_before, before.record().key(), files) {
            Some(refusal) => done == Err::<(), _>(refusal),
            None => true,
        }
        &&& match done {
            Ok(_) => after.well_formed() && match before.lock_state() {
                LockState::Locked => {
                    &&& after.input() == text_after_key(before.input(), key_code)
                    &&& if !(key_code is Enter) {
                        after.lock_state() is Locked && db_after == db_before
                    } else if before.record().accepts(before.input()) {
                        &&& after.lock_state() is Unlocked
                        &&& after.signal().armed_at() == now
                        &&& after.signal().wait() == DeferredSignal::millis_of(UNLOCKED_SECONDS)
                        &&& db_after.is_unlocked()
                        &&& db_after.key() == before.record().key()
                        &&& opened_database(before.record().key(), files) == Ok::<_, VaultError>(
                            db_after.rows(),
                        )
                    } else {
                        after.lock_state() is Invalid && db_after == db_before
                    }
                },
                LockState::Invalid => {
                    &&& db_after == db_before
                    &&& if key_code is Enter {
                        after.lock_state() is Locked && after.input() == Seq::<char>::empty()
                    } else {
                        after.lock_state() is Invalid && after.input() == before.input()
                    }
                },
                LockState::Unlocked => {
                    &&& db_after == db_before
                    &&& after.lock_state() is Unlocked
                    &&& after.input() == before.input()
                    &&& after.signal() == before.signal()
                },
            },
            Err(e) => {
                &&& before.lock_state() is Locked
                &&& key_code is Enter
                &&& before.record().accepts(before.input())
                &&& is_key_unlock_failure(e, db_before, before.record().key(), files)
                &&& db_after == db_before
                &&& after.well_formed()
                &&& after.lock_state() is Locked
            },
        }
    }

    /// Takes a key press. While the passphrase is typed, the key edits it, and
    /// Enter has it tested. After a wrong passphrase, Enter starts over with
    /// an empty line. After the right one, keys change nothing.
    pub fn register_input(
        &mut self,
        key_code: KeyCode,
        now: u64,
        db_manager: &mut DatabaseManager,
        files: &VaultFiles,
        symbols: &Password,
    ) -> (done: Result<(), VaultError>)
        requires
            old(self).well_formed(),
        ensures
            Self::took_key(*old(self), *final(self), key_code, now, *old(db_manager), *final(db_manager), files@, done),
    {
        match self.lock_state {
            LockState::Locked => {
                if get_text_input(key_code, &mut self.input_buffer) {
                    match self.test_password(now, db_manager, files) {
                        Ok(_) => {},
                        Err(e) => {
                            return Err(e);
                        },
                    }
                }
                self.password_widget.update_password(self.input_buffer.clone(), symbols);
            },
            LockState::Invalid => {
                match key_code {
                    KeyCode::Enter => {
                        self.input_buffer.clear();
                        self.lock_state = LockState::Locked;
                    },
                    _ => {},
                }
            },
            LockState::Unlocked => {},
        }
        Ok(())
    }

    /// Where the dialogue stands.
    pub fn get_lock_state(&self) -> (state: LockState)
        ensures
            state == self.lock_state(),
    {
        self.lock_state
    }

    /// The transition that waits at the clock reading `now`: the main menu,
    /// once the timer has run out.
    pub fn next_state(&self, now: u64) -> (transition: Option<Transition>)
        ensures
            transition_view(transition) == self.pending(now),
    {
        if self.next_state_ready.is_ready(now) {
            Some(Transition::ToMainMenu)
        } else {
            None
        }
    }
}

} // verus!
