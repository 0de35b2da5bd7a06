//! The screen that adds an account: the name, an e-mail address where one
//! is wanted, and a password, typed or generated.

use vstd::prelude::*;
use crate::database_context::{
    holds_sealed, is_added, is_read_failure, is_vault_save_failure, rows_matching, DatabaseManager, StoreError,
    VaultError,
};
use crate::file_accesssor::VaultFilesView;
use crate::deferred_signal::{wait_for_seconds, Clock, DeferredSignal};
use crate::file_accesssor::VaultFiles;
use crate::input_handler::{evaluate_yes_no_answer, get_text_input, text_after_key, yes_no_answer, KeyCode};
use crate::password_widget::PasswordWidget;
use crate::random::{is_alphanumeric, random_alphanumeric, random_below, random_choice};
use crate::terminal_context::{
    byte_len, center, centered, control_footer, input_footer, request_footer, text_at, text_len, DrawCommandView,
    TerminalContext, Visibility,
};
use crate::text::{chars_of, string_of};
use crate::texts::{Password, Texts};
use crate::transition::{transition_view, Transition, TransitionView};
use crate::widget::Widget;

verus! {

/// The characters that a generated password holds besides letters and
/// digits.
pub const SPECIAL_CHARS: &'static str = "!@#$%^&*()_+-=[]{}|;:,.<>?";

/// The length of a generated password.
pub const GENERATED_LENGTH: usize = 30;

/// The seconds for which the outcome is shown.
pub const ADD_RESULT_SECONDS: u64 = 2;

/// Where the dialogue stands.
#[derive(Clone, Copy, Debug, PartialEq, Eq)]
pub enum AddAccountState {
    SetAccount,
    AccountExists,
    AddEmailRequest,
    EnterEmail,
    GeneratePasswordRequest,
    EnterPassword,
    PasswordGenerated,
    PasswordSet,
    Cancel,
}

/// Whether a text is a generated password: 30 characters, each a letter, a
/// digit or one of the special characters.
pub open spec fn is_generated(password: Seq<char>) -> bool {
    &&& password.len() == GENERATED_LENGTH
    &&& forall|i: int|
        0 <= i < password.len() ==> (#[trigger] password[i] as u32) < 256 && is_alphanumeric(password[i] as u8)
            || SPECIAL_CHARS@.contains(password[i])
}

/// Where the dialogue stands after a key press, given whether an account of
/// the name that was typed exists.
pub open spec fn state_after(state: AddAccountState, key_code: KeyCode, name_taken: bool) -> AddAccountState {
    match state {
        AddAccountState::SetAccount => match key_code {
            KeyCode::Enter => if name_taken {
                AddAccountState::AccountExists
            } else {
                AddAccountState::AddEmailRequest
            },
            KeyCode::Esc => AddAccountState::Cancel,
            _ => state,
        },
        AddAccountState::AddEmailRequest => match yes_no_answer(key_code) {
            Some(true) => AddAccountState::EnterEmail,
            Some(false) => AddAccountState::GeneratePasswordRequest,
            None => if key_code is Esc {
                AddAccountState::Cancel
            } else {
                state
            },
        },
        AddAccountState::EnterEmail => match key_code {
            KeyCode::Enter => AddAccountState::GeneratePasswordRequest,
            KeyCode::Esc => AddAccountState::Cancel,
            _ => state,
        },
        AddAccountState::GeneratePasswordRequest => match yes_no_answer(key_code) {
            Some(true) => AddAccountState::PasswordGenerated,
            Some(false) => AddAccountState::EnterPassword,
            None => if key_code is Esc {
                AddAccountState::Cancel
            } else {
                state
            },
        },
        AddAccountState::EnterPassword => match key_code {
            KeyCode::Enter => AddAccountState::PasswordSet,
            KeyCode::Esc => AddAccountState::Cancel,
            _ => state,
        },
        AddAccountState::Cancel => match yes_no_answer(key_code) {
            Some(false) => AddAccountState::SetAccount,
            _ => state,
        },
        _ => state,
    }
}

/// Whether a key press in a state has the account written to the store.
pub open spec fn writes_account(state: AddAccountState, key_code: KeyCode) -> bool {
    ||| state is GeneratePasswordRequest && yes_no_answer(key_code) == Some(true)
    ||| state is EnterPassword && key_code is Enter
}

/// The e-mail address of the account: none where nothing was typed.
pub open spec fn email_of(typed: Seq<char>) -> Option<Seq<char>> {
    if typed.len() == 0 {
        None
    } else {
        Some(typed)
    }
}

pub struct AddEntryStateItem {
    switch_state: DeferredSignal,
    internal_state: AddAccountState,
    account_name: String,
    email_name: String,
    password_buffer: String,
    password_widget: PasswordWidget,
}

impl AddEntryStateItem {
    /// Where the dialogue stands.
    pub closed spec fn state(&self) -> AddAccountState {
        self.internal_state
    }

    /// The name that has been typed.
    pub closed spec fn name(&self) -> Seq<char> {
        self.account_name@
    }

    /// The e-mail address that has been typed.
    pub closed spec fn email(&self) -> Seq<char> {
        self.email_name@
    }

    /// The password that has been typed or generated.
    pub closed spec fn password(&self) -> Seq<char> {
        self.password_buffer@
    }

    /// The timer that leads back to the main menu.
    pub closed spec fn signal(&self) -> DeferredSignal {
        self.switch_state
    }

    /// The widget that shows the password.
    pub closed spec fn widget(&self) -> PasswordWidget {
        self.password_widget
    }

    /// What has been entered so far, as it is drawn: the heading, and the
    /// labels of the name, the e-mail address and the password, each with
    /// its value in the row below where the value is to be shown.
    pub open spec fn account_data(&self, texts: Texts, show_account: bool, show_email: bool, show_password: bool) -> Seq<
        DrawCommandView,
    > {
        seq![text_at(0, 0, texts.add_account.heading@), text_at(0, 2, texts.account.account_name@)] + (
        if show_account {
            seq![text_at(0, 3, self.name())]
        } else {
            Seq::empty()
        }) + seq![text_at(0, 5, texts.account.email@)] + (if show_email {
            seq![text_at(0, 6, self.email())]
        } else {
            Seq::empty()
        }) + seq![text_at(0, 8, texts.account.password@)] + (if show_password {
            self.widget().drawing(0, 9)
        } else {
            Seq::empty()
        })
    }

    /// What says that the name is taken: the notice, a space, and the name.
    pub open spec fn taken_notice(&self, texts: Texts) -> Seq<char> {
        texts.add_account.account_exists@ + seq![' '] + self.name()
    }

    /// What the screen draws in a frame of this size: what has been entered
    /// so far with the footer of the step at which the dialogue stands; or,
    /// in the middle, the notice that the name is taken, or the question
    /// whether to give up.
    pub open spec fn drawing(&self, texts: Texts, width: u16, height: u16) -> Seq<DrawCommandView> {
        match self.state() {
            AddAccountState::SetAccount => self.account_data(texts, false, false, false) + input_footer(
                texts.account.account_name@,
                self.name(),
                width,
                height,
            ),
            AddAccountState::AccountExists => seq![
                text_at(centered(width, byte_len(self.taken_notice(texts))), height / 2, self.taken_notice(texts)),
            ],
            AddAccountState::AddEmailRequest => self.account_data(texts, true, false, false) + request_footer(
                texts.add_account.add_email_question@,
                texts.misc.confirm_input@,
                width,
                height,
            ),
            AddAccountState::EnterEmail => self.account_data(texts, true, false, false) + input_footer(
                texts.account.email@,
                self.email(),
                width,
                height,
            ),
            AddAccountState::GeneratePasswordRequest => self.account_data(texts, true, true, false) + request_footer(
                texts.add_account.generate_pwd_question@,
                texts.misc.confirm_input@,
                width,
                height,
            ),
            AddAccountState::EnterPassword => self.account_data(texts, true, true, false) + input_footer(
                texts.account.password@,
                self.widget().footer_text(),
                width,
                height,
            ),
            AddAccountState::PasswordGenerated => self.account_data(texts, true, true, true) + control_footer(
                seq![texts.add_account.pwd_generated@],
                width,
                height,
            ),
            AddAccountState::PasswordSet => self.account_data(texts, true, true, true) + control_footer(
                seq![texts.add_account.pwd_set@],
                width,
                height,
            ),
            AddAccountState::Cancel => seq![
                text_at(
                    centered(width, byte_len(texts.add_account.cancel_question@)),
                    height / 2,
                    texts.add_account.cancel_question@,
                ),
            ] + request_footer(Seq::empty(), texts.misc.confirm_input@, width, height),
        }
    }

    /// The transition that waits at the clock reading `now`: the main menu,
    /// once the timer has run out.
    pub open spec fn pending(&self, now: u64) -> Option<TransitionView> {
        if self.signal().ready_at(now) {
            Some(TransitionView::ToMainMenu)
        } else {
            None
        }
    }

    /// The screen, with nothing typed.
    pub fn new(symbols: &Password) -> (screen: Self)
        ensures
            screen.state() is SetAccount,
            screen.name() == Seq::<char>::empty(),
            screen.email() == Seq::<char>::empty(),
            screen.password() == Seq::<char>::empty(),
            !screen.signal().is_armed(),
            !screen.signal().is_fired(),
    {
        AddEntryStateItem {
            switch_state: DeferredSignal::new(),
            internal_state: AddAccountState::SetAccount,
            account_name: String::new(),
            email_name: String::new(),
            password_buffer: String::new(),
            password_widget: PasswordWidget::new(String::new(), symbols),
        }
    }

    fn show_account_data(
        &self,
        show_account: bool,
        show_email: bool,
        show_password: bool,
        context: &mut TerminalContext,
        texts: &Texts,
    )
        requires
            old(context).well_formed(),
        ensures
            final(context).drew_all(old(context), self.account_data(*texts, show_account, show_email, show_password)),
    {
        context.print_at_position(0, 0, texts.add_account.heading.as_str());
        context.print_at_position(0, 2, texts.account.account_name.as_str());
        if show_account {
            context.print_at_position(0, 3, self.account_name.as_str());
        }
        context.print_at_position(0, 5, texts.account.email.as_str());
        if show_email {
            context.print_at_position(0, 6, self.email_name.as_str());
        }
        context.print_at_position(0, 8, texts.account.password.as_str());
        if show_password {
            self.password_widget.display(context, 0, 9);
        }
        assert(context.frame() =~= old(context).frame() + self.account_data(
            *texts,
            show_account,
            show_email,
            show_password,
        ));
    }

    fn switch_to_main_menu_state(&mut self, duration: u64, now: u64)
        ensures
            final(self).state() == old(self).state(),
            final(self).name() == old(self).name(),
            final(self).email() == old(self).email(),
            final(self).password() == old(self).password(),
            final(self).signal().is_armed(),
            final(self).signal().is_fired() == old(self).signal().is_fired(),
            old(self).signal().is_armed() ==> final(self).signal() == old(self).signal(),
            !old(self).signal().is_armed() ==> final(self).signal().armed_at() == now && final(self).signal().wait()
                == DeferredSignal::millis_of(duration),
    {
        wait_for_seconds(duration, now, &mut self.switch_state)
    }

    /// Whether an error is one that adding an account with this password and
    /// saving the vault can end in: `Locked` for a locked vault; else that the
    /// store did not take the account, and holds what it held; or what saving
    /// the vault with the account in it can end in.
    pub open spec fn failed_to_write(
        &self,
        e: VaultError,
        password: Seq<char>,
        today: i64,
        db_before: DatabaseManager,
        db_after: DatabaseManager,
        files: VaultFilesView,
    ) -> bool {
        if !db_before.is_unlocked() {
            e == VaultError::Locked
        } else {
            ||| db_after.rows() == db_before.rows() && e == VaultError::Store(StoreError::Engine)
            ||| is_added(db_before.rows(), db_after.rows(), self.name(), password, email_of(self.email()), today, today)
                && is_vault_save_failure(e, db_after, files)
        }
    }

    /// Adds the account with this password to the store and saves the vault.
    /// A locked vault is refused as `Locked`.
    fn write_to_database(&self, password: &str, clock: Clock, db_manager: &mut DatabaseManager, files: &mut VaultFiles) -> (done:
        Result<(), VaultError>)
        ensures
            old(db_manager).well_formed() ==> final(db_manager).well_formed(),
            final(db_manager).is_unlocked() == old(db_manager).is_unlocked(),
            final(db_manager).key() == old(db_manager).key(),
            match done {
                Ok(_) => {
                    &&& old(db_manager).is_unlocked()
                    &&& is_added(
                        old(db_manager).rows(),
                        final(db_manager).rows(),
                        self.name(),
                        password@,
                        email_of(self.email()),
                        clock.unix_seconds,
                        clock.unix_seconds,
                    )
                    &&& holds_sealed(final(files)@, final(db_manager).key(), final(db_manager).rows())
                },
                Err(e) => {
                    &&& final(files)@ == old(files)@
                    &&& self.failed_to_write(
                        e,
                        password@,
                        clock.unix_seconds,
                        *old(db_manager),
                        *final(db_manager),
                        old(files)@,
                    )
                },
            },
    {
        let email = if self.email_name.as_str().is_empty() {
            None
        } else {
            Some(self.email_name.clone())
        };
        match db_manager.add_account(self.account_name.as_str(), password, email, clock.unix_seconds) {
            Ok(_) => {},
            Err(e) => {
                return Err(e);
            },
        }
        db_manager.safe_database(files)
    }

    /// A new password: 30 random letters and digits, seven of them replaced
    /// by random special characters at random places.
    pub fn generate_password() -> (password: String)
        ensures
            is_generated(password@),
    {
        let special = chars_of(SPECIAL_CHARS);
        proof {
            reveal_strlit("!@#$%^&*()_+-=[]{}|;:,.<>?");
        }
        let mut password: Vec<char> = Vec::new();
        let mut i: usize = 0;
        while i < GENERATED_LENGTH
            invariant
                i <= GENERATED_LENGTH,
                password@.len() == i,
                forall|k: int|
                    0 <= k < i ==> (#[trigger] password@[k] as u32) < 256 && is_alphanumeric(password@[k] as u8),
            decreases GENERATED_LENGTH - i,
        {
            let byte = random_alphanumeric();
            password.push(byte as char);
            i += 1;
        }
        let mut j: usize = 0;
        while j < GENERATED_LENGTH / 4
            invariant
                j <= GENERATED_LENGTH / 4,
                special@ == SPECIAL_CHARS@,
                special@.len() > 0,
                password@.len() == GENERATED_LENGTH,
                forall|k: int|
                    0 <= k < GENERATED_LENGTH ==> (#[trigger] password@[k] as u32) < 256 && is_alphanumeric(
                        password@[k] as u8,
                    ) || SPECIAL_CHARS@.contains(password@[k]),
            decreases GENERATED_LENGTH / 4 - j,
        {
            let idx = random_below(GENERATED_LENGTH);
            let special_char = random_choice(&special);
            password.set(idx, special_char);
            j += 1;
        }
        string_of(&password)
    }

    /// Whether the store holds an account whose name holds the name that was
    /// typed.
    fn check_if_account_already_exists(&self, db_manager: &DatabaseManager) -> (taken: Result<bool, VaultError>)
        ensures
            match taken {
                Ok(t) => db_manager.is_unlocked() && t == (rows_matching(db_manager.rows(), self.name()).len() > 0),
                Err(e) => is_read_failure(e, *db_manager),
            },
    {
        let db_context = match db_manager.get_database_context() {
            Some(context) => context,
            None => return Err(VaultError::Locked),
        };
        match db_context.search_accounts_by_name(self.account_name.as_str()) {
            Ok(accounts) => {
                assert(accounts@.len() == crate::database_context::account_views(accounts@).len());
                Ok(accounts.len() > 0)
            },
            Err(e) => Err(VaultError::Store(e)),
        }
    }

    /// Draws what has been entered so far, and the footer of the step at
    /// which the dialogue stands.
    pub fn display(&self, context: &mut TerminalContext, texts: &Texts)
        requires
            old(context).well_formed(),
        ensures
            final(context).drew_all(old(context), self.drawing(*texts, old(context).width(), old(context).height())),
    {
        match self.internal_state {
            AddAccountState::SetAccount => {
                self.show_account_data(false, false, false, context, texts);
                context.draw_input_footer(&texts.account.account_name, Visibility::Visible(self.account_name.clone()), "")
            },
            AddAccountState::AccountExists => {
                let mut text = texts.add_account.account_exists.clone();
                text.push(' ');
                let text = text.concat(self.account_name.as_str());
                assert(text@ =~= self.taken_notice(*texts));
                let center_y = context.get_height() / 2;
                let pos_x = center(context.get_width(), text_len(text.as_str()));
                context.print_at_position(pos_x, center_y, text.as_str());
            },
            AddAccountState::AddEmailRequest => {
                self.show_account_data(true, false, false, context, texts);
                context.draw_request_footer(&texts.add_account.add_email_question, &texts.misc.confirm_input);
            },
            AddAccountState::EnterEmail => {
                self.show_account_data(true, false, false, context, texts);
                context.draw_input_footer(&texts.account.email, Visibility::Visible(self.email_name.clone()), "")
            },
            AddAccountState::GeneratePasswordRequest => {
                self.show_account_data(true, true, false, context, texts);
                context.draw_request_footer(&texts.add_account.generate_pwd_question, &texts.misc.confirm_input);
            },
            AddAccountState::EnterPassword => {
                self.show_account_data(true, true, false, context, texts);
                self.password_widget.display_as_footer(context, &texts.account.password);
            },
            AddAccountState::PasswordGenerated => {
                self.show_account_data(true, true, true, context, texts);
                let mut content: Vec<&String> = Vec::new();
                content.push(&texts.add_account.pwd_generated);
                assert(content@.map_values(|s: &String| s@) =~= seq![texts.add_account.pwd_generated@]);
                context.draw_control_footer(content);
            },
            AddAccountState::PasswordSet => {
                self.show_account_data(true, true, true, context, texts);
                let mut content: Vec<&String> = Vec::new();
                content.push(&texts.add_account.pwd_set);
                assert(content@.map_values(|s: &String| s@) =~= seq![texts.add_account.pwd_set@]);
                context.draw_control_footer(content);
            },
            AddAccountState::Cancel => {
                let text = &texts.add_account.cancel_question;
                context.print_at_position(
                    center(context.get_width(), text_len(text.as_str())),
                    context.get_height() / 2,
                    text.as_str(),
                );
                context.draw_request_footer(&String::new(), &texts.misc.confirm_input);
            },
        }
        assert(context.frame() =~= old(context).frame() + self.drawing(
            *texts,
            old(context).width(),
            old(context).height(),
        ));
    }

    /// Whether the screen is to be drawn anew without a key press.
    pub fn update_display(&self) -> (again: bool)
        ensures
            !again,
    {
        false
    }

    /// What a key press makes of the screen, the vault and the files.
    pub open spec fn took_key(
        before: Self,
        after: Self,
        key_code: KeyCode,
        now: u64,
        today: i64,
        db_before: DatabaseManager,
        db_after: DatabaseManager,
        files_before: crate::file_accesssor::VaultFilesView,
        files_after: crate::file_accesssor::VaultFilesView,
        done: Result<(), VaultError>,
    ) -> bool {
        &&& db_before.well_formed() ==> db_after.well_formed()
        &&& db_after.is_unlocked() == db_before.is_unlocked()
        &&& db_after.key() == db_before.key()
        &&& !db_before.is_unlocked() && (writes_account(before.state(), key_code) || (before.state() is SetAccount
            && key_code is Enter)) ==> done == Err::<(), _>(VaultError::Locked)
        &&& match done {
            Ok(_) => {
                &&& after.state() == state_after(
                    before.state(),
                    key_code,
                    rows_matching(db_before.rows(), before.name()).len() > 0,
                )
                &&& after.name() == (if before.state() is SetAccount {
                    text_after_key(before.name(), key_code)
                } else {
                    before.name()
                })
                &&& after.email() == (if before.state() is EnterEmail {
                    text_after_key(before.email(), key_code)
                } else {
                    before.email()
                })
                &&& if before.state() is EnterPassword {
                    after.password() == text_after_key(before.password(), key_code)
                } else if before.state() is GeneratePasswordRequest && yes_no_answer(key_code) == Some(true) {
                    is_generated(after.password())
                } else {
                    after.password() == before.password()
                }
                &&& if writes_account(before.state(), key_code) {
                    &&& db_before.is_unlocked()
                    &&& is_added(
                        db_before.rows(),
                        db_after.rows(),
                        before.name(),
                        after.password(),
                        email_of(before.email()),
                        today,
                        today,
                    )
                    &&& holds_sealed(files_after, db_after.key(), db_after.rows())
                } else {
                    db_after == db_before && files_after == files_before
                }
                &&& if writes_account(before.state(), key_code) || (before.state() is SetAccount
                    && after.state() is AccountExists) {
                    &&& after.signal().is_armed()
                    &&& after.signal().is_fired() == before.signal().is_fired()
                    &&& !before.signal().is_armed() ==> after.signal().armed_at() == now
                        && after.signal().wait() == DeferredSignal::millis_of(ADD_RESULT_SECONDS)
                } else if before.state() is Cancel && yes_no_answer(key_code) == Some(true) {
                    &&& after.signal().is_armed()
                    &&& after.signal().is_fired() == before.signal().is_fired()
                    &&& !before.signal().is_armed() ==> after.signal().armed_at() == now
                        && after.signal().wait() == 0
                } else {
                    after.signal() == before.signal()
                }
            },
            Err(e) => {
                &&& after == before
                &&& files_after == files_before
                &&& if writes_account(before.state(), key_code) {
                    exists|password: Seq<char>|
                        {
                            &&& if before.state() is EnterPassword {
                                password == before.password()
                            } else {
                                is_generated(password)
                            }
                            &&& #[trigger] before.failed_to_write(e, password, today, db_before, db_after, files_before)
                        }
                } else {
                    &&& before.state() is SetAccount
                    &&& key_code is Enter
                    &&& db_after == db_before
                    &&& is_read_failure(e, db_before)
                }
            },
        }
    }

    /// Takes a key press. The dialogue goes from step to step as
    /// `state_after` says. While a text is typed, the key edits it. When the
    /// password is there, typed or generated, the account is added to the
    /// store, the vault is saved, and the timer to the main menu starts; it
    /// starts too where the name is taken, and at once where the dialogue is
    /// given up. Where the store or the vault fails, that is the error, and
    /// the dialogue stays where it was.
    pub fn register_input(
        &mut self,
        key_code: KeyCode,
        clock: Clock,
        db_manager: &mut DatabaseManager,
        files: &mut VaultFiles,
        symbols: &Password,
    ) -> (done: Result<(), VaultError>)
        ensures
            Self::took_key(*old(self), *final(self), key_code, clock.millis, clock.unix_seconds, *old(db_manager), *final(db_manager), old(files)@, final(files)@, done),
    {
        match self.internal_state {
            AddAccountState::SetAccount => {
                match key_code {
                    KeyCode::Enter => {
                        let taken = match self.check_if_account_already_exists(db_manager) {
                            Ok(taken) => taken,
                            Err(e) => return Err(e),
                        };
                        if taken {
                            self.internal_state = AddAccountState::AccountExists;
                            self.switch_to_main_menu_state(ADD_RESULT_SECONDS, clock.millis);
                        } else {
                            self.internal_state = AddAccountState::AddEmailRequest;
                        }
                    },
                    KeyCode::Esc => {
                        self.internal_state = AddAccountState::Cancel;
                    },
                    _ => {
                        get_text_input(key_code, &mut self.account_name);
                    },
                }
            },
            AddAccountState::AccountExists => {},
            AddAccountState::AddEmailRequest => {
                if let Some(confirm) = evaluate_yes_no_answer(key_code) {
                    if confirm {
                        self.internal_state = AddAccountState::EnterEmail;
                    } else {
                        self.internal_state = AddAccountState::GeneratePasswordRequest;
                    }
                } else {
                    match key_code {
                        KeyCode::Esc => {
                            self.internal_state = AddAccountState::Cancel;
                        },
                        _ => {},
                    }
                }
            },
            AddAccountState::EnterEmail => {
                match key_code {
                    KeyCode::Enter => {
                        self.internal_state = AddAccountState::GeneratePasswordRequest;
                    },
                    KeyCode::Esc => {
                        self.internal_state = AddAccountState::Cancel;
                    },
                    _ => {
                        get_text_input(key_code, &mut self.email_name);
                    },
                }
            },
            AddAccountState::GeneratePasswordRequest => {
                if let Some(confirm) = evaluate_yes_no_answer(key_code) {
                    if confirm {
                        let password = Self::generate_password();
                        match self.write_to_database(password.as_str(), clock, db_manager, files) {
                            Ok(_) => {},
                            Err(e) => {
                                return Err(e);
                            },
                        }
                        self.password_widget.update_password(password.clone(), symbols);
                        self.password_buffer = password;
                        self.internal_state = AddAccountState::PasswordGenerated;
                        self.switch_to_main_menu_state(ADD_RESULT_SECONDS, clock.millis);
                    } else {
                        self.internal_state = AddAccountState::EnterPassword
                    }
                } else {
                    match key_code {
                        KeyCode::Esc => {
                            self.internal_state = AddAccountState::Cancel;
                        },
                        _ => {},
                    }
                }
            },
            AddAccountState::EnterPassword => {
                match key_code {
                    KeyCode::Enter => {
                        match self.write_to_database(self.password_buffer.as_str(), clock, db_manager, files) {
                            Ok(_) => {},
                            Err(e) => {
                                return Err(e);
                            },
                        }
                        self.internal_state = AddAccountState::PasswordSet;
                        self.switch_to_main_menu_state(ADD_RESULT_SECONDS, clock.millis);
                    },
                    KeyCode::Esc => {
                        self.internal_state = AddAccountState::Cancel;
                    },
                    _ => {
                        get_text_input(key_code, &mut self.password_buffer);
                        self.password_widget.update_password(self.password_buffer.clone(), symbols);
                    },
                }
            },
            AddAccountState::PasswordGenerated => {},
            AddAccountState::PasswordSet => {},
            AddAccountState::Cancel => {
                if let Some(confirm) = evaluate_yes_no_answer(key_code) {
                    if confirm {
                        self.switch_to_main_menu_state(0, clock.millis);
                    } else {
                        self.internal_state = AddAccountState::SetAccount;
                    }
                }
            },
        }
        Ok(())
    }

    /// Where the dialogue stands.
    pub fn get_state(&self) -> (state: AddAccountState)
        ensures
            state == self.state(),
    {
        self.internal_state
    }

    /// The password that has been typed or generated.
    pub fn get_password(&self) -> (password: &String)
        ensures
            password@ == self.password(),
    {
        &self.password_buffer
    }

    /// The transition that waits at the clock reading `now`.
    pub fn next_state(&self, now: u64) -> (transition: Option<Transition>)
        ensures
            transition_view(transition) == self.pending(now),
    {
        if self.switch_state.is_ready(now) {
            Some(Transition::ToMainMenu)
        } else {
            None
        }
    }
}

} // verus!
