//! The screen that sets the master passphrase: typed once, typed again, and
//! where the two agree, the vault is put under the new key.

use vstd::prelude::*;
use crate::database_context::{
    holds_sealed, is_save_failure, rows_kept, unlocks_to, DatabaseManager, VaultError,
};
use crate::deferred_signal::{wait_for_seconds, DeferredSignal};
use crate::dump_format::{ascending_ids, RowView};
use crate::encryption_controller::{
    parsed_record, passphrase_fits, record_text, FormatError, KeyError, PasswordEncryption,
};
use crate::file_accesssor::{does_directory_and_files_exist, vault_exists, VaultFiles};
use crate::input_handler::{evaluate_yes_no_answer, get_text_input, text_after_key, yes_no_answer, KeyCode};
use crate::terminal_context::{
    byte_len, center, centered, control_footer, request_footer, text_at, text_len, DrawCommandView, TerminalContext,
};
use crate::texts::Texts;
use crate::transition::{transition_view, Transition, TransitionView};

verus! {

/// The seconds for which the outcome is shown.
pub const SET_RESULT_SECONDS: u64 = 2;

/// Where the dialogue stands.
#[derive(Clone, Copy, Debug, PartialEq, Eq)]
pub enum SetAuthState {
    EnterPassword,
    ConfirmPassword,
    Success,
    Failure,
    Cancel,
}

pub struct SetAuthenticationStateItem {
    next_state: DeferredSignal,
    input_buffer: String,
    password_encryption: Option<PasswordEncryption>,
    internal_state: SetAuthState,
}

/// Whether the vault stands under `record` after it was stored: the vault is
/// unlocked with the record's key and holds the rows it held before, or none
/// where it was locked; the key file holds the record's text; and the
/// database file holds those rows, sealed under the record's key, so that
/// the files unlock to them with the passphrases that the record accepts.
pub open spec fn stored_under(
    record: PasswordEncryption,
    before: DatabaseManager,
    after: DatabaseManager,
    files: crate::file_accesssor::VaultFilesView,
) -> bool {
    &&& after.is_unlocked()
    &&& after.key() == record.key()
    &&& after.rows() == rows_kept(before)
    &&& ascending_ids(after.rows())
    &&& files.directory_exists
    &&& files.password_file == Some(record_text(record.salt(), record.key()))
    &&& parsed_record(files.password_file->0) == Ok::<_, FormatError>((record.salt(), record.key()))
    &&& holds_sealed(files, record.key(), after.rows())
    &&& unlocks_to(files, record, after.rows())
}

/// The refusal that storing a record ends in before anything is dumped or
/// sealed: `Locked` where a vault exists and is locked, `IoFailure` where the
/// directory is there without being a whole vault, none otherwise.
pub open spec fn store_refusal(vault: DatabaseManager, files: crate::file_accesssor::VaultFilesView) -> Option<
    VaultError,
> {
    if vault_exists(files) {
        if vault.is_unlocked() {
            None
        } else {
            Some(VaultError::Locked)
        }
    } else if files.directory_exists {
        Some(VaultError::IoFailure)
    } else {
        None
    }
}

/// Whether the failure `e` is one that storing a record can end in: the
/// refusal that is owed, or, where none is, a failure of dumping and sealing
/// the rows that the vault keeps.
pub open spec fn is_store_failure(e: VaultError, vault: DatabaseManager, files: crate::file_accesssor::VaultFilesView) -> bool {
    match store_refusal(vault, files) {
        Some(refusal) => e == refusal,
        None => is_save_failure(e, rows_kept(vault)),
    }
}

impl SetAuthenticationStateItem {
    /// Where the dialogue stands.
    pub closed spec fn state(&self) -> SetAuthState {
        self.internal_state
    }

    /// What has been typed.
    pub closed spec fn input(&self) -> Seq<char> {
        self.input_buffer@
    }

    /// The record made from the passphrase that was typed first.
    pub closed spec fn record(&self) -> Option<PasswordEncryption> {
        self.password_encryption
    }

    /// The timer that leads on.
    pub closed spec fn signal(&self) -> DeferredSignal {
        self.next_state
    }

    /// What the screen draws in a frame of this size: the request for the
    /// passphrase with an empty line under it, the footer that names the
    /// keys, and the cursor in the empty line; or the outcome in the middle;
    /// or the question whether to give up, with the footer of a question.
    pub open spec fn drawing(&self, texts: Texts, width: u16, height: u16) -> Seq<DrawCommandView> {
        let pos_x = width / 4;
        let middle = height / 2;
        match self.state() {
            SetAuthState::EnterPassword => seq![
                text_at(pos_x, (middle - 1) as u16, texts.auth.set_new_master_pwd@),
                text_at(pos_x, middle, ""@),
            ] + control_footer(seq![texts.input.enter@], width, height) + seq![
                DrawCommandView::Cursor { x: pos_x, y: middle },
            ],
            SetAuthState::ConfirmPassword => seq![
                text_at(pos_x, (middle - 1) as u16, texts.auth.confirm_new_master_pwd@),
                text_at(pos_x, middle, ""@),
            ] + control_footer(seq![texts.input.enter@, texts.input.escape@], width, height) + seq![
                DrawCommandView::Cursor { x: pos_x, y: middle },
            ],
            SetAuthState::Success => seq![
                text_at(
                    centered(width, byte_len(texts.auth.master_password_set@)),
                    middle,
                    texts.auth.master_password_set@,
                ),
            ],
            SetAuthState::Failure => seq![
                text_at(centered(width, byte_len(texts.auth.confirm_failed@)), middle, texts.auth.confirm_failed@),
            ],
            SetAuthState::Cancel => seq![
                text_at(centered(width, byte_len(texts.auth.cancel_question@)), middle, texts.auth.cancel_question@),
            ] + request_footer(Seq::empty(), texts.misc.confirm_input@, width, height),
        }
    }

    /// Whether there is a record to confirm while the passphrase is typed
    /// again.
    pub open spec fn well_formed(&self) -> bool {
        self.state() is ConfirmPassword ==> self.record() is Some
    }

    /// The transition that waits at the clock reading `now`: the main menu
    /// after success or a cancelled dialogue, this screen anew after a
    /// failure.
    pub open spec fn pending(&self, now: u64) -> Option<TransitionView> {
        if self.signal().ready_at(now) {
            match self.state() {
                SetAuthState::Cancel => Some(TransitionView::ToMainMenu),
                SetAuthState::Success => Some(TransitionView::ToMainMenu),
                SetAuthState::Failure => Some(TransitionView::ToChangeAuthentication),
                _ => None,
            }
        } else {
            None
        }
    }

    /// The screen, with nothing typed.
    pub fn new() -> (screen: Self)
        ensures
            screen.well_formed(),
            screen.state() is EnterPassword,
            screen.input() == Seq::<char>::empty(),
            screen.record() is None,
            !screen.signal().is_armed(),
            !screen.signal().is_fired(),
    {
        Self {
            next_state: DeferredSignal::new(),
            input_buffer: String::new(),
            password_encryption: None,
            internal_state: SetAuthState::EnterPassword,
        }
    }

    /// Holds what has been typed against the record of the first passphrase.
    /// Where they agree the record is stored and the dialogue has succeeded;
    /// where they do not, it has failed. Either way the timer for the outcome
    /// starts. Where storing fails, that is the error, and nothing changes.
    pub fn check_if_new_password_is_valid(&mut self, now: u64, db_manager: &mut DatabaseManager, files: &mut VaultFiles) -> (done:
        Result<(), VaultError>)
        requires
            old(self).record() is Some,
        ensures
            final(self).input() == old(self).input(),
            final(self).record() == old(self).record(),
            old(db_manager).well_formed() ==> final(db_manager).well_formed(),
            match done {
                Ok(_) => {
                    &&& final(self).signal().is_armed()
                    &&& final(self).signal().is_fired() == old(self).signal().is_fired()
                    &&& !old(self).signal().is_armed() ==> final(self).signal().armed_at() == now
                        && final(self).signal().wait() == DeferredSignal::millis_of(SET_RESULT_SECONDS)
                    &&& if old(self).record()->0.accepts(old(self).input()) {
                        &&& final(self).state() is Success
                        &&& stored_under(old(self).record()->0, *old(db_manager), *final(db_manager), final(files)@)
                    } else {
                        &&& final(self).state() is Failure
                        &&& *final(db_manager) == *old(db_manager)
                        &&& final(files)@ == old(files)@
                    }
                },
                Err(e) => {
                    &&& *final(self) == *old(self)
                    &&& *final(db_manager) == *old(db_manager)
                    &&& final(files)@ == old(files)@
                    &&& old(self).record()->0.accepts(old(self).input())
                    &&& is_store_failure(e, *old(db_manager), old(files)@)
                },
            },
            old(self).record()->0.accepts(old(self).input()) ==> match store_refusal(*old(db_manager), old(files)@) {
                Some(refusal) => done == Err::<(), _>(refusal),
                None => true,
            },
    {
        let accepted = match &self.password_encryption {
            Some(pwd) => pwd.verify_string(self.input_buffer.as_str()),
            None => false,
        };
        if accepted {
            match self.store_pwd(db_manager, files) {
                Ok(_) => {},
                Err(e) => {
                    return Err(e);
                },
            }
            self.internal_state = SetAuthState::Success;
        } else {
            self.internal_state = SetAuthState::Failure;
        }
        wait_for_seconds(SET_RESULT_SECONDS, now, &mut self.next_state);
        Ok(())
    }

    /// Stores the record: an existing vault is put under the record's key, and
    /// where none exists a new one is made. The key file then holds the
    /// record's text and the database file the vault's rows under the
    /// record's key, both or neither. An existing vault that is locked is
    /// refused as `Locked`, a directory that is no whole vault as
    /// `IoFailure`.
    fn store_pwd(&self, db_manager: &mut DatabaseManager, files: &mut VaultFiles) -> (done: Result<(), VaultError>)
        requires
            self.record() is Some,
        ensures
            old(db_manager).well_formed() ==> final(db_manager).well_formed(),
            done == Err::<(), _>(VaultError::Locked) <==> vault_exists(old(files)@) && !old(db_manager).is_unlocked(),
            match store_refusal(*old(db_manager), old(files)@) {
                Some(refusal) => done == Err::<(), _>(refusal),
                None => true,
            },
            match done {
                Ok(_) => {
                    &&& stored_under(self.record()->0, *old(db_manager), *final(db_manager), final(files)@)
                    &&& final(files)@.password_file == Some(
                        record_text(self.record()->0.salt(), self.record()->0.key()),
                    )
                },
                Err(e) => {
                    &&& *final(db_manager) == *old(db_manager)
                    &&& final(files)@ == old(files)@
                    &&& is_store_failure(e, *old(db_manager), old(files)@)
                },
            },
    {
        match &self.password_encryption {
            Some(encrypted_password) => {
                if does_directory_and_files_exist(files) {
                    db_manager.set_new_passkey(encrypted_password, files)
                } else {
                    db_manager.create_new_database(encrypted_password, files)
                }
            },
            None => Err(VaultError::Locked),
        }
    }

    /// Draws the request for the passphrase, or the outcome, or the question
    /// whether to give up.
    pub fn display(&self, context: &mut TerminalContext, texts: &Texts)
        requires
            old(context).well_formed(),
        ensures
            final(context).drew_all(old(context), self.drawing(*texts, old(context).width(), old(context).height())),
    {
        let pos_x = context.get_width() / 4;
        let center_y = context.get_height() / 2;
        let width = context.get_width();
        match self.internal_state {
            SetAuthState::EnterPassword => {
                context.print_at_position(pos_x, center_y - 1, texts.auth.set_new_master_pwd.as_str());
                context.print_at_position(pos_x, center_y, "");
                let mut content: Vec<&String> = Vec::new();
                content.push(&texts.input.enter);
                assert(content@.map_values(|s: &String| s@) =~= seq![texts.input.enter@]);
                context.draw_control_footer(content);
                context.move_cursor_to_position(pos_x, center_y);
            },
            SetAuthState::ConfirmPassword => {
                context.print_at_position(pos_x, center_y - 1, texts.auth.confirm_new_master_pwd.as_str());
                context.print_at_position(pos_x, center_y, "");
                let mut content: Vec<&String> = Vec::new();
                content.push(&texts.input.enter);
                content.push(&texts.input.escape);
                assert(content@.map_values(|s: &String| s@) =~= seq![texts.input.enter@, texts.input.escape@]);
                context.draw_control_footer(content);
                context.move_cursor_to_position(pos_x, center_y);
            },
            SetAuthState::Success => {
                let text = &texts.auth.master_password_set;
                context.print_at_position(center(width, text_len(text.as_str())), center_y, text.as_str());
            },
            SetAuthState::Failure => {
                let text = &texts.auth.confirm_failed;
                context.print_at_position(center(width, text_len(text.as_str())), center_y, text.as_str());
            },
            SetAuthState::Cancel => {
                let text = &texts.auth.cancel_question;
                context.print_at_position(center(width, text_len(text.as_str())), center_y, text.as_str());
                context.draw_request_footer(&String::new(), &texts.misc.confirm_input);
            },
        }
        assert(context.frame() =~= old(context).frame() + self.drawing(
            *texts,
            old(context).width(),
            old(context).height(),
        ));
    }

    /// Whether the screen is to be drawn anew without a key press.
    pub fn update_display(&self) -> (again: bool)
        ensures
            !again,
    {
        false
    }

    /// What a key press makes of the screen, the vault and the files.
    pub open spec fn took_key(
        before: Self,
        after: Self,
        key_code: KeyCode,
        now: u64,
        db_before: DatabaseManager,
        db_after: DatabaseManager,
        files_before: crate::file_accesssor::VaultFilesView,
        files_after: crate::file_accesssor::VaultFilesView,
        done: Result<(), VaultError>,
    ) -> bool {
        &&& after.well_formed()
        &&& db_before.well_formed() ==> db_after.well_formed()
        &&& match done {
            Ok(_) => match before.state() {
                SetAuthState::EnterPassword => {
                    &&& db_after == db_before
                    &&& files_after == files_before
                    &&& after.signal() == before.signal()
                    &&& match key_code {
                        KeyCode::Enter => {
                            &&& after.state() is ConfirmPassword
                            &&& after.input() == Seq::<char>::empty()
                            &&& after.record() is Some
                            &&& after.record()->0.accepts(before.input())
                        },
                        KeyCode::Esc => {
                            &&& after.state() is Cancel
                            &&& after.input() == before.input()
                            &&& after.record() == before.record()
                        },
                        _ => {
                            &&& after.state() is EnterPassword
                            &&& after.input() == text_after_key(before.input(), key_code)
                            &&& after.record() == before.record()
                        },
                    }
                },
                SetAuthState::ConfirmPassword => {
                    &&& after.record() == before.record()
                    &&& match key_code {
                        KeyCode::Enter => {
                            &&& after.input() == before.input()
                            &&& after.signal().is_armed()
                            &&& !before.signal().is_armed() ==> after.signal().armed_at() == now
                                && after.signal().wait() == DeferredSignal::millis_of(SET_RESULT_SECONDS)
                            &&& if before.record()->0.accepts(before.input()) {
                                &&& after.state() is Success
                                &&& stored_under(
                                    before.record()->0,
                                    db_before,
                                    db_after,
                                    files_after,
                                )
                            } else {
                                &&& after.state() is Failure
                                &&& db_after == db_before
                                &&& files_after == files_before
                            }
                        },
                        KeyCode::Esc => {
                            &&& after.state() is Cancel
                            &&& after.input() == before.input()
                            &&& after.signal() == before.signal()
                            &&& db_after == db_before
                            &&& files_after == files_before
                        },
                        _ => {
                            &&& after.state() is ConfirmPassword
                            &&& after.input() == text_after_key(before.input(), key_code)
                            &&& after.signal() == before.signal()
                            &&& db_after == db_before
                            &&& files_after == files_before
                        },
                    }
                },
                SetAuthState::Cancel => {
                    &&& db_after == db_before
                    &&& files_after == files_before
                    &&& after.record() == before.record()
                    &&& match yes_no_answer(key_code) {
                        Some(true) => {
                            &&& after.state() is Cancel
                            &&& after.signal().is_fired()
                            &&& after.input() == before.input()
                        },
                        Some(false) => {
                            &&& after.state() is EnterPassword
                            &&& after.input() == Seq::<char>::empty()
                            &&& after.signal() == before.signal()
                        },
                        None => after == before,
                    }
                },
                _ => after == before && db_after == db_before && files_after
                    == files_before,
            },
            Err(e) => {
                &&& key_code is Enter
                &&& before.state() is EnterPassword || before.state() is ConfirmPassword
                &&& before.state() is EnterPassword ==> e == (if passphrase_fits(before.input()) {
                    VaultError::Key(KeyError::NoEntropy)
                } else {
                    VaultError::Key(KeyError::PassphraseTooLong)
                })
                &&& before.state() is ConfirmPassword ==> before.record()->0.accepts(before.input())
                    && is_store_failure(e, db_before, files_before)
                &&& after == before
                &&& db_after == db_before
                &&& files_after == files_before
            },
        }
        &&& before.state() is EnterPassword && key_code is Enter && !passphrase_fits(before.input()) ==> done
            == Err::<(), _>(VaultError::Key(KeyError::PassphraseTooLong))
        &&& before.state() is ConfirmPassword && key_code is Enter && before.record()->0.accepts(before.input())
            ==> match store_refusal(db_before, files_before) {
            Some(refusal) => done == Err::<(), _>(refusal),
            None => true,
        }
    }

    /// Takes a key press. While a passphrase is typed, the key edits it,
    /// Enter ends it and Escape asks whether to give up. Ending the first
    /// passphrase makes a record of it and asks for it again; ending the
    /// second has it checked. At the question, yes leaves at once and no
    /// starts over.
    pub fn register_input(
        &mut self,
        key_code: KeyCode,
        now: u64,
        db_manager: &mut DatabaseManager,
        files: &mut VaultFiles,
    ) -> (done: Result<(), VaultError>)
        requires
            old(self).well_formed(),
        ensures
            Self::took_key(*old(self), *final(self), key_code, now, *old(db_manager), *final(db_manager), old(files)@, final(files)@, done),
    {
        match self.internal_state {
            SetAuthState::EnterPassword => {
                match key_code {
                    KeyCode::Enter => {
                        let record = match PasswordEncryption::generate_new(self.input_buffer.as_str()) {
                            Ok(record) => record,
                            Err(e) => return Err(VaultError::Key(e)),
                        };
                        self.password_encryption = Some(record);
                        self.input_buffer.clear();
                        self.internal_state = SetAuthState::ConfirmPassword;
                    },
                    KeyCode::Esc => {
                        self.internal_state = SetAuthState::Cancel;
                    },
                    _ => {
                        get_text_input(key_code, &mut self.input_buffer);
                    },
                }
            },
            SetAuthState::ConfirmPassword => {
                match key_code {
                    KeyCode::Enter => {
                        return self.check_if_new_password_is_valid(now, db_manager, files);
                    },
                    KeyCode::Esc => {
                        self.internal_state = SetAuthState::Cancel;
                    },
                    _ => {
                        get_text_input(key_code, &mut self.input_buffer);
                    },
                }
            },
            SetAuthState::Cancel => {
                if let Some(confirm) = evaluate_yes_no_answer(key_code) {
                    if confirm {
                        self.next_state.fire();
                    } else {
                        self.input_buffer.clear();
                        self.internal_state = SetAuthState::EnterPassword;
                    }
                }
            },
            SetAuthState::Success => {},
            SetAuthState::Failure => {},
        }
        Ok(())
    }

    /// Where the dialogue stands.
    pub fn get_state(&self) -> (state: SetAuthState)
        ensures
            state == self.state(),
    {
        self.internal_state
    }

    /// The transition that waits at the clock reading `now`.
    pub fn next_state(&self, now: u64) -> (transition: Option<Transition>)
        ensures
            transition_view(transition) == self.pending(now),
    {
        if self.next_state.is_ready(now) {
            match self.internal_state {
                SetAuthState::Cancel => Some(Transition::ToMainMenu),
                SetAuthState::Success => Some(Transition::ToMainMenu),
                SetAuthState::Failure => Some(Transition::ToChangeAuthentication),
                _ => None,
            }
        } else {
            None
        }
    }
}

} // verus!
