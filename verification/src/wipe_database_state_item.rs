//! The screen that removes the vault from the disk, after a question and
//! the master passphrase.

use vstd::prelude::*;
use crate::database_context::VaultError;
use crate::deferred_signal::{wait_for_seconds, DeferredSignal};
use crate::encryption_controller::{derived_key, parsed_record, passphrase_fits, PasswordEncryption};
use crate::file_accesssor::{delete_directory_and_files, read_password_from_disk, VaultFiles, VaultFilesView};
use crate::input_handler::{evaluate_yes_no_answer, get_text_input, text_after_key, yes_no_answer, KeyCode};
use crate::password_widget::{build_new_hidden_string, is_stand_in};
use crate::terminal_context::{
    byte_len, center, centered, control_footer, input_footer, text_at, text_len, DrawCommandView, TerminalContext,
    Visibility,
};
use crate::texts::{Password, Texts};
use crate::transition::{transition_view, Transition, TransitionView};

verus! {

/// The seconds for which the outcome is shown.
pub const WIPE_RESULT_SECONDS: u64 = 2;

/// Where the dialogue stands.
#[derive(Clone, Copy, Debug, PartialEq, Eq)]
pub enum WipeState {
    ConfirmWipe,
    EnterPassword,
    WipeSuccess,
    WipeFailure,
}

pub struct WipeDatabaseStateItem {
    next_state_ready: DeferredSignal,
    wipe_state: WipeState,
    password_buffer: String,
    hidden_string: String,
}

/// Whether a passphrase is the one that the key file was made from.
pub open spec fn opens_key_file(candidate: Seq<char>, files: VaultFilesView) -> bool {
    files.password_file is Some && (parsed_record(files.password_file->0) matches Ok((salt, key))
        && passphrase_fits(candidate) && key == derived_key(salt, candidate))
}

/// The error that reading the key file ends in, if it does.
pub open spec fn key_file_error(files: VaultFilesView) -> Option<VaultError> {
    if files.password_file is None {
        Some(VaultError::IoFailure)
    } else {
        match parsed_record(files.password_file->0) {
            Ok(_) => None,
            Err(e) => Some(VaultError::Format(e)),
        }
    }
}

impl WipeDatabaseStateItem {
    /// Where the dialogue stands.
    pub closed spec fn wipe_state(&self) -> WipeState {
        self.wipe_state
    }

    /// What has been typed.
    pub closed spec fn input(&self) -> Seq<char> {
        self.password_buffer@
    }

    /// The timer that leads on.
    pub closed spec fn signal(&self) -> DeferredSignal {
        self.next_state_ready
    }

    /// The row of symbols that is shown while the passphrase is typed.
    pub closed spec fn hidden(&self) -> Seq<char> {
        self.hidden_string@
    }

    /// What the screen draws in a frame of this size: the question with its
    /// warning and the footer that names the keys; or the notice with the
    /// input line of the passphrase, which shows a row of symbols; or the
    /// outcome. All of them stand in the middle.
    pub open spec fn drawing(&self, texts: Texts, width: u16, height: u16) -> Seq<DrawCommandView> {
        let middle = height / 2;
        match self.wipe_state() {
            WipeState::ConfirmWipe => seq![
                text_at(
                    centered(width, byte_len(texts.wipe.are_you_sure_question@)),
                    middle,
                    texts.wipe.are_you_sure_question@,
                ),
                text_at(centered(width, byte_len(texts.wipe.warning@)), (middle + 1) as u16, texts.wipe.warning@),
            ] + control_footer(seq![texts.misc.confirm_input@], width, height),
            WipeState::EnterPassword => seq![
                text_at(centered(width, byte_len(texts.wipe.delete_msg@)), middle, texts.wipe.delete_msg@),
            ] + input_footer(texts.wipe.enter_pwd_request@, self.hidden(), width, height),
            WipeState::WipeSuccess => seq![
                text_at(centered(width, byte_len(texts.wipe.success_msg@)), middle, texts.wipe.success_msg@),
            ],
            WipeState::WipeFailure => seq![
                text_at(centered(width, byte_len(texts.wipe.failure_msg@)), middle, texts.wipe.failure_msg@),
            ],
        }
    }

    /// The transition that waits at the clock reading `now`: out of the
    /// program after a wipe, back to the main menu otherwise.
    pub open spec fn pending(&self, now: u64) -> Option<TransitionView> {
        if self.signal().ready_at(now) {
            if self.wipe_state() is WipeSuccess {
                Some(TransitionView::ToExit)
            } else {
                Some(TransitionView::ToMainMenu)
            }
        } else {
            None
        }
    }

    /// The screen, at its question.
    pub fn new(symbols: &Password) -> (screen: Self)
        ensures
            screen.wipe_state() is ConfirmWipe,
            screen.input() == Seq::<char>::empty(),
            !screen.signal().is_armed(),
            !screen.signal().is_fired(),
            is_stand_in(screen.hidden(), symbols.symbols@),
    {
        Self {
            next_state_ready: DeferredSignal::new(),
            wipe_state: WipeState::ConfirmWipe,
            password_buffer: String::new(),
            hidden_string: build_new_hidden_string(symbols),
        }
    }

    /// Holds what has been typed, as it was typed, against the key file.
    /// Where it is the passphrase, the vault's directory is removed. Either
    /// way the timer for the outcome starts. Where the key file cannot be
    /// read, that is the error, and nothing changes.
    pub fn validate_password_input(&mut self, now: u64, files: &mut VaultFiles) -> (done: Result<(), VaultError>)
        ensures
            final(self).input() == old(self).input(),
            final(self).hidden() == old(self).hidden(),
            match done {
                Ok(_) => {
                    &&& key_file_error(old(files)@) is None
                    &&& final(self).signal().is_armed()
                    &&& final(self).signal().is_fired() == old(self).signal().is_fired()
                    &&& !old(self).signal().is_armed() ==> final(self).signal().armed_at() == now
                        && final(self).signal().wait() == DeferredSignal::millis_of(WIPE_RESULT_SECONDS)
                    &&& if opens_key_file(old(self).input(), old(files)@) {
                        &&& final(self).wipe_state() is WipeSuccess
                        &&& final(files)@ == (if old(files).directory_exists {
                            VaultFilesView { directory_exists: false, password_file: None, db_file: None }
                        } else {
                            old(files)@
                        })
                    } else {
                        final(self).wipe_state() is WipeFailure && final(files)@ == old(files)@
                    }
                },
                Err(e) => key_file_error(old(files)@) == Some(e) && *final(self) == *old(self) && final(files)@
                    == old(files)@,
            },
    {
        let pwd_string = match read_password_from_disk(files) {
            Some(text) => text,
            None => return Err(VaultError::IoFailure),
        };
        let master_password = match PasswordEncryption::create_from_string(pwd_string) {
            Ok(record) => record,
            Err(e) => return Err(VaultError::Format(e)),
        };
        if master_password.verify_string(self.password_buffer.as_str()) {
            delete_directory_and_files(files);
            self.wipe_state = WipeState::WipeSuccess;
        } else {
            self.wipe_state = WipeState::WipeFailure;
        }
        wait_for_seconds(WIPE_RESULT_SECONDS, now, &mut self.next_state_ready);
        Ok(())
    }

    /// Draws the question, the request for the passphrase, or the outcome.
    pub fn display(&self, context: &mut TerminalContext, texts: &Texts)
        requires
            old(context).well_formed(),
        ensures
            final(context).drew_all(old(context), self.drawing(*texts, old(context).width(), old(context).height())),
    {
        let center_y = context.get_height() / 2;
        let width = context.get_width();
        match self.wipe_state {
            WipeState::ConfirmWipe => {
                let are_you_sure_text = &texts.wipe.are_you_sure_question;
                let warning_text = &texts.wipe.warning;
                context.print_at_position(center(width, text_len(are_you_sure_text.as_str())), center_y, are_you_sure_text.as_str());
                context.print_at_position(center(width, text_len(warning_text.as_str())), center_y + 1, warning_text.as_str());
                let mut content: Vec<&String> = Vec::new();
                content.push(&texts.misc.confirm_input);
                assert(content@.map_values(|s: &String| s@) =~= seq![texts.misc.confirm_input@]);
                context.draw_control_footer(content);
            },
            WipeState::EnterPassword => {
                let text = &texts.wipe.delete_msg;
                context.print_at_position(center(width, text_len(text.as_str())), center_y, text.as_str());
                context.draw_input_footer(&texts.wipe.enter_pwd_request, Visibility::Hidden, self.hidden_string.as_str())
            },
            WipeState::WipeSuccess => {
                let text = &texts.wipe.success_msg;
                context.print_at_position(center(width, text_len(text.as_str())), center_y, text.as_str());
            },
            WipeState::WipeFailure => {
                let text = &texts.wipe.failure_msg;
                context.print_at_position(center(width, text_len(text.as_str())), center_y, text.as_str());
            },
        }
        assert(context.frame() =~= old(context).frame() + self.drawing(
            *texts,
            old(context).width(),
            old(context).height(),
        ));
    }

    /// Whether the screen is to be drawn anew without a key press.
    pub fn update_display(&self) -> (again: bool)
        ensures
            !again,
    {
        false
    }

    /// What a key press makes of the screen, the vault and the files.
    pub open spec fn took_key(
        before: Self,
        after: Self,
        key_code: KeyCode,
        now: u64,
        files_before: VaultFilesView,
        files_after: VaultFilesView,
        done: Result<(), VaultError>,
    ) -> bool {
        &&& after.hidden() == before.hidden()
        &&& match done {
            Ok(_) => match before.wipe_state() {
                WipeState::ConfirmWipe => {
                    &&& files_after == files_before
                    &&& after.input() == before.input()
                    &&& match yes_no_answer(key_code) {
                        Some(true) => after.wipe_state() is EnterPassword && after.signal() == before.signal(),
                        Some(false) => after.wipe_state() is ConfirmWipe && after.signal().is_fired(),
                        None => after == before,
                    }
                },
                WipeState::EnterPassword => {
                    &&& after.input() == text_after_key(before.input(), key_code)
                    &&& if !(key_code is Enter) {
                        &&& after.wipe_state() is EnterPassword
                        &&& after.signal() == before.signal()
                        &&& files_after == files_before
                    } else {
                        &&& key_file_error(files_before) is None
                        &&& after.signal().is_armed()
                        &&& !before.signal().is_armed() ==> after.signal().armed_at() == now
                        &&& if opens_key_file(before.input(), files_before) {
                            &&& after.wipe_state() is WipeSuccess
                            &&& files_after == (if files_before.directory_exists {
                                VaultFilesView { directory_exists: false, password_file: None, db_file: None }
                            } else {
                                files_before
                            })
                        } else {
                            after.wipe_state() is WipeFailure && files_after == files_before
                        }
                    }
                },
                _ => after == before && files_after == files_before,
            },
            Err(e) => {
                &&& before.wipe_state() is EnterPassword
                &&& key_code is Enter
                &&& key_file_error(files_before) == Some(e)
                &&& after == before
                &&& files_after == files_before
            },
        }
    }

    /// Takes a key press. At the question, yes goes on to the passphrase and
    /// no leads back at once. While the passphrase is typed, the key edits
    /// it, and Enter has it tested. After that, keys change nothing.
    pub fn register_input(&mut self, key_code: KeyCode, now: u64, files: &mut VaultFiles) -> (done: Result<
        (),
        VaultError,
    >)
        ensures
            Self::took_key(*old(self), *final(self), key_code, now, old(files)@, final(files)@, done),
    {
        match self.wipe_state {
            WipeState::ConfirmWipe => {
                if let Some(confirm_wipe) = evaluate_yes_no_answer(key_code) {
                    if confirm_wipe {
                        self.wipe_state = WipeState::EnterPassword;
                    } else {
                        self.next_state_ready.fire();
                    }
                }
            },
            WipeState::EnterPassword => {
                match key_code {
                    KeyCode::Enter => {
                        return self.validate_password_input(now, files);
                    },
                    _ => {
                        get_text_input(key_code, &mut self.password_buffer);
                    },
                }
            },
            WipeState::WipeSuccess => {},
            WipeState::WipeFailure => {},
        }
        Ok(())
    }

    /// Where the dialogue stands.
    pub fn get_wipe_state(&self) -> (state: WipeState)
        ensures
            state == self.wipe_state(),
    {
        self.wipe_state
    }

    /// The transition that waits at the clock reading `now`.
    pub fn next_state(&self, now: u64) -> (transition: Option<Transition>)
        ensures
            transition_view(transition) == self.pending(now),
    {
        if self.next_state_ready.is_ready(now) {
            let transition = match self.wipe_state {
                WipeState::WipeSuccess => Transition::ToExit,
                _ => Transition::ToMainMenu,
            };
            Some(transition)
        } else {
            None
        }
    }
}

} // verus!
