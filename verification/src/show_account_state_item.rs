//! The screen of one account: its values, and the ways to edit them, to
//! copy the password, and to delete the account.

use vstd::prelude::*;
use crate::clipboard_controller::ClipboardController;
use crate::database_context::{
    holds_sealed, is_change_failure, rows_with_update, rows_without, Account, DatabaseManager, StoreError,
    VaultError,
};
use crate::deferred_signal::Clock;
use crate::dump_format::RowView;
use crate::file_accesssor::VaultFiles;
use crate::input_handler::{evaluate_yes_no_answer, text_after_key, yes_no_answer, KeyCode};
use crate::password_widget::PasswordWidget;
use crate::terminal_context::{
    byte_len, control_footer, cursor_behind, request_footer, styled_at, text_at, text_len, DrawCommandView,
    StyleAttribute, TerminalContext,
};
use crate::text::{chars_of, integer_text, push_integer, string_of};
use crate::texts::{Password, Texts};
use crate::transition::{duplicate_transition, transition_view, Transition, TransitionView};
use crate::widget::Widget;

verus! {

/// The seconds for which a copied password stays on the clipboard.
pub const CLIPBOARD_SECONDS: u8 = 30;

/// What the screen is doing.
#[derive(Clone, Copy, Debug, PartialEq, Eq)]
pub enum ShowAccountState {
    ShowAccount,
    EditAccountName,
    EditPassword,
    EditEmail,
    DeleteAccount,
    CopyPassword,
    SaveChanges,
}

/// What the screen is doing after a key press while a value is edited: Enter
/// asks whether to save, Down and Up go to the next value and the one
/// before, every other key stays.
pub open spec fn state_after_edit(state: ShowAccountState, key_code: KeyCode) -> ShowAccountState {
    match key_code {
        KeyCode::Enter => ShowAccountState::SaveChanges,
        KeyCode::Down => match state {
            ShowAccountState::EditAccountName => ShowAccountState::EditEmail,
            ShowAccountState::EditEmail => ShowAccountState::EditPassword,
            ShowAccountState::EditPassword => ShowAccountState::EditAccountName,
            _ => state,
        },
        KeyCode::Up => match state {
            ShowAccountState::EditAccountName => ShowAccountState::EditPassword,
            ShowAccountState::EditEmail => ShowAccountState::EditAccountName,
            ShowAccountState::EditPassword => ShowAccountState::EditEmail,
            _ => state,
        },
        _ => state,
    }
}

/// What the screen is doing after a key press while the account is shown.
pub open spec fn state_after_show(key_code: KeyCode) -> ShowAccountState {
    if key_code == KeyCode::Char('c') {
        ShowAccountState::CopyPassword
    } else if key_code == KeyCode::Char('e') {
        ShowAccountState::EditAccountName
    } else if key_code == KeyCode::Char('d') {
        ShowAccountState::DeleteAccount
    } else {
        ShowAccountState::ShowAccount
    }
}

/// The account after a key press while one of its values is edited.
pub open spec fn account_after_edit(account: RowView, state: ShowAccountState, key_code: KeyCode) -> RowView {
    match state {
        ShowAccountState::EditAccountName => RowView {
            account_name: text_after_key(account.account_name, key_code),
            ..account
        },
        ShowAccountState::EditPassword => RowView { password: text_after_key(account.password, key_code), ..account },
        ShowAccountState::EditEmail => RowView {
            email: Some(
                text_after_key(
                    match account.email {
                        Some(e) => e,
                        None => Seq::empty(),
                    },
                    key_code,
                ),
            ),
            ..account
        },
        _ => account,
    }
}

pub struct ShowAccountStateItem {
    account: Account,
    internal_state: ShowAccountState,
    next_state: Option<Transition>,
    clipboard_controller: ClipboardController,
    password_widget: PasswordWidget,
}

impl ShowAccountStateItem {
    /// The account as the screen holds it, with the edits made so far.
    pub closed spec fn account(&self) -> RowView {
        self.account@
    }

    /// What the screen is doing.
    pub closed spec fn state(&self) -> ShowAccountState {
        self.internal_state
    }

    /// The transition that waits, if any.
    pub closed spec fn pending(&self) -> Option<TransitionView> {
        transition_view(self.next_state)
    }

    /// The clipboard's countdown and what waits to go on the clipboard.
    pub closed spec fn clipboard(&self) -> ClipboardController {
        self.clipboard_controller
    }

    /// The widget that shows the password.
    pub closed spec fn widget(&self) -> PasswordWidget {
        self.password_widget
    }

    /// The label and the value of the name, as they are drawn.
    pub open spec fn name_rows(&self, texts: Texts, highlighted: bool) -> Seq<DrawCommandView> {
        if highlighted {
            seq![
                styled_at(0, 2, texts.account.account_name@, StyleAttribute::Bold),
                styled_at(0, 3, self.account().account_name, StyleAttribute::InverseColor),
            ]
        } else {
            seq![text_at(0, 2, texts.account.account_name@), text_at(0, 3, self.account().account_name)]
        }
    }

    /// The e-mail address as it is drawn: an empty text where there is none.
    pub open spec fn email_text(&self) -> Seq<char> {
        match self.account().email {
            Some(email) => email,
            None => ""@,
        }
    }

    /// The label and the value of the e-mail address, as they are drawn.
    pub open spec fn email_rows(&self, texts: Texts, highlighted: bool) -> Seq<DrawCommandView> {
        if highlighted {
            seq![
                styled_at(0, 5, texts.account.email@, StyleAttribute::Bold),
                styled_at(0, 6, self.email_text(), StyleAttribute::InverseColor),
            ]
        } else {
            seq![text_at(0, 5, texts.account.email@), text_at(0, 6, self.email_text())]
        }
    }

    /// The label of the password and what the widget shows of it, as they
    /// are drawn.
    pub open spec fn password_rows(&self, texts: Texts, highlighted: bool) -> Seq<DrawCommandView> {
        seq![
            if highlighted {
                styled_at(0, 8, texts.account.password@, StyleAttribute::Bold)
            } else {
                text_at(0, 8, texts.account.password@)
            },
        ] + self.widget().drawing(0, 9)
    }

    /// The three values of the account, as they are drawn.
    pub open spec fn values(&self, texts: Texts, name: bool, email: bool, password: bool) -> Seq<DrawCommandView> {
        self.name_rows(texts, name) + self.email_rows(texts, email) + self.password_rows(texts, password)
    }

    /// The footer while a value is edited.
    pub open spec fn edit_footer(texts: Texts, width: u16, height: u16) -> Seq<DrawCommandView> {
        control_footer(seq![texts.input.down_arrow@, texts.input.up_arrow@, texts.input.enter@], width, height)
    }

    /// What is said while a copied password is on the clipboard: that it was
    /// copied, and from the first full second on, how many seconds are left.
    pub open spec fn copy_notice(&self, texts: Texts, now: u64) -> Seq<char> {
        if self.clipboard().duration() == self.clipboard().remaining_at(now) {
            texts.show_account.copy_msg@
        } else {
            texts.show_account.copy_countdown@ + seq![' '] + integer_text(self.clipboard().remaining_at(now) as int)
                + seq!['s']
        }
    }

    /// What the screen draws in a frame of this size at the clock reading
    /// `now`: the heading, the values of the account with the one that is
    /// edited set off, the footer of what the screen is doing, and the cursor
    /// behind the value that is edited.
    pub open spec fn drawing(&self, texts: Texts, width: u16, height: u16, now: u64) -> Seq<DrawCommandView> {
        seq![styled_at(0, 0, texts.show_account.heading@, StyleAttribute::Underline)] + (match self.state() {
            ShowAccountState::ShowAccount => self.values(texts, false, false, false) + control_footer(
                seq![
                    texts.show_account.edit_input@,
                    texts.show_account.delete_input@,
                    texts.show_account.copy_input@,
                    texts.show_account.quit_input@,
                ],
                width,
                height,
            ),
            ShowAccountState::EditAccountName => self.values(texts, true, false, false) + Self::edit_footer(
                texts,
                width,
                height,
            ) + seq![DrawCommandView::Cursor { x: cursor_behind(width, byte_len(self.account().account_name)), y: 3 }],
            ShowAccountState::EditPassword => self.values(texts, false, false, true) + Self::edit_footer(
                texts,
                width,
                height,
            ) + seq![DrawCommandView::Cursor { x: 0, y: 9 }],
            ShowAccountState::EditEmail => self.values(texts, false, true, false) + Self::edit_footer(
                texts,
                width,
                height,
            ) + (match self.account().email {
                Some(email) => seq![DrawCommandView::Cursor { x: cursor_behind(width, byte_len(email)), y: 6 }],
                None => Seq::empty(),
            }),
            ShowAccountState::CopyPassword => self.values(texts, false, false, false) + control_footer(
                seq![self.copy_notice(texts, now)],
                width,
                height,
            ),
            ShowAccountState::SaveChanges => self.values(texts, false, false, false) + request_footer(
                texts.show_account.save_question@,
                texts.misc.confirm_input@,
                width,
                height,
            ),
            ShowAccountState::DeleteAccount => self.values(texts, false, false, false) + request_footer(
                texts.show_account.delete_question@,
                texts.misc.confirm_input@,
                width,
                height,
            ),
        })
    }

    /// Whether the account's id is one that the store can have given.
    pub closed spec fn well_formed(&self) -> bool {
        self.account.id == self.account@.id
    }

    /// The screen of an account, showing it.
    pub fn new(account: Account, symbols: &Password) -> (screen: Self)
        ensures
            screen.well_formed(),
            screen.account() == account@,
            screen.state() is ShowAccount,
            screen.pending() is None,
            !screen.clipboard().is_running(),
            screen.clipboard().requests() == Seq::<Seq<char>>::empty(),
            screen.widget().password() == account.password@,
            !screen.widget().visible(),
    {
        Self {
            password_widget: PasswordWidget::new(account.password.clone(), symbols),
            account,
            internal_state: ShowAccountState::ShowAccount,
            next_state: None,
            clipboard_controller: ClipboardController::new(),
        }
    }

    fn control_footer(context: &mut TerminalContext, texts: &Texts)
        requires
            old(context).well_formed(),
        ensures
            final(context).drew_all(old(context), Self::edit_footer(*texts, old(context).width(), old(context).height())),
    {
        let mut content: Vec<&String> = Vec::new();
        content.push(&texts.input.down_arrow);
        content.push(&texts.input.up_arrow);
        content.push(&texts.input.enter);
        assert(content@.map_values(|s: &String| s@) =~= seq![
            texts.input.down_arrow@,
            texts.input.up_arrow@,
            texts.input.enter@,
        ]);
        context.draw_control_footer(content);
    }

    fn show_values(&self, context: &mut TerminalContext, texts: &Texts, name: bool, email: bool, password: bool)
        requires
            old(context).well_formed(),
        ensures
            final(context).drew_all(old(context), self.values(*texts, name, email, password)),
    {
        self.show_account_name(context, texts, name);
        self.show_email(context, texts, email);
        self.show_password(context, texts, password);
        assert(context.frame() =~= old(context).frame() + self.values(*texts, name, email, password));
    }

    fn show_account(&self, context: &mut TerminalContext, texts: &Texts)
        requires
            old(context).well_formed(),
            self.state() is ShowAccount,
        ensures
            final(context).drew_all(
                old(context),
                self.drawing(*texts, old(context).width(), old(context).height(), 0).skip(1),
            ),
    {
        self.show_values(context, texts, false, false, false);
        let mut content: Vec<&String> = Vec::new();
        content.push(&texts.show_account.edit_input);
        content.push(&texts.show_account.delete_input);
        content.push(&texts.show_account.copy_input);
        content.push(&texts.show_account.quit_input);
        assert(content@.map_values(|s: &String| s@) =~= seq![
            texts.show_account.edit_input@,
            texts.show_account.delete_input@,
            texts.show_account.copy_input@,
            texts.show_account.quit_input@,
        ]);
        context.draw_control_footer(content);
        assert(context.frame() =~= old(context).frame() + self.drawing(
            *texts,
            old(context).width(),
            old(context).height(),
            0,
        ).skip(1));
    }

    /// Takes a key press while the account is shown: `c` copies the password
    /// for thirty seconds, `e` starts editing, `d` asks whether to delete,
    /// `q` leads back to the main menu.
    fn show_account_input(&mut self, key_code: KeyCode, now: u64)
        requires
            old(self).well_formed(),
            old(self).state() is ShowAccount,
        ensures
            final(self).well_formed(),
            final(self).account() == old(self).account(),
            final(self).widget() == old(self).widget(),
            final(self).state() == state_after_show(key_code),
            final(self).pending() == (if key_code == KeyCode::Char('q') {
                Some(TransitionView::ToMainMenu)
            } else {
                old(self).pending()
            }),
            if key_code == KeyCode::Char('c') {
                &&& final(self).clipboard().requests() == old(self).clipboard().requests().push(
                    old(self).account().password,
                )
                &&& final(self).clipboard().is_running()
                &&& final(self).clipboard().duration() == CLIPBOARD_SECONDS
                &&& final(self).clipboard().started_at() == now
            } else {
                final(self).clipboard() == old(self).clipboard()
            },
    {
        match key_code {
            KeyCode::Char(c) => {
                if c == 'c' {
                    self.internal_state = ShowAccountState::CopyPassword;
                    self.clipboard_controller.copy_value_to_clipboard(self.account.password.as_str(), CLIPBOARD_SECONDS, now);
                } else if c == 'e' {
                    self.internal_state = ShowAccountState::EditAccountName;
                } else if c == 'q' {
                    self.next_state = Some(Transition::ToMainMenu);
                } else if c == 'd' {
                    self.internal_state = ShowAccountState::DeleteAccount;
                }
            },
            _ => {},
        }
    }

    fn show_copy_password(&self, context: &mut TerminalContext, texts: &Texts, now: u64)
        requires
            old(context).well_formed(),
            self.state() is CopyPassword,
        ensures
            final(context).drew_all(
                old(context),
                self.drawing(*texts, old(context).width(), old(context).height(), now).skip(1),
            ),
    {
        self.show_values(context, texts, false, false, false);
        let time_left = self.clipboard_controller.get_countdown_value(now);
        if self.clipboard_controller.get_countdown_duration() == time_left {
            let mut content: Vec<&String> = Vec::new();
            content.push(&texts.show_account.copy_msg);
            assert(content@.map_values(|s: &String| s@) =~= seq![self.copy_notice(*texts, now)]);
            context.draw_control_footer(content)
        } else {
            let mut countdown = chars_of(texts.show_account.copy_countdown.as_str());
            countdown.push(' ');
            push_integer(&mut countdown, time_left as i64);
            countdown.push('s');
            let countdown = string_of(&countdown);
            assert(countdown@ =~= self.copy_notice(*texts, now));
            let mut content: Vec<&String> = Vec::new();
            content.push(&countdown);
            assert(content@.map_values(|s: &String| s@) =~= seq![self.copy_notice(*texts, now)]);
            context.draw_control_footer(content)
        };
        assert(context.frame() =~= old(context).frame() + self.drawing(
            *texts,
            old(context).width(),
            old(context).height(),
            now,
        ).skip(1));
    }

    fn show_save_changes(&self, context: &mut TerminalContext, texts: &Texts)
        requires
            old(context).well_formed(),
            self.state() is SaveChanges,
        ensures
            final(context).drew_all(
                old(context),
                self.drawing(*texts, old(context).width(), old(context).height(), 0).skip(1),
            ),
    {
        self.show_values(context, texts, false, false, false);
        context.draw_request_footer(&texts.show_account.save_question, &texts.misc.confirm_input);
        assert(context.frame() =~= old(context).frame() + self.drawing(
            *texts,
            old(context).width(),
            old(context).height(),
            0,
        ).skip(1));
    }

    /// Whether an error is one that the answer to the question whether to
    /// save can end in. After yes: one of writing the account and saving the
    /// vault. After no: that the store failed, or, where it holds no account
    /// of this id, `UnknownAccount`.
    pub open spec fn failed_to_save(
        before: Self,
        e: VaultError,
        key_code: KeyCode,
        today: i64,
        db_before: DatabaseManager,
        db_after: DatabaseManager,
        files: crate::file_accesssor::VaultFilesView,
    ) -> bool {
        &&& db_before.is_unlocked()
        &&& match yes_no_answer(key_code) {
            Some(true) => is_change_failure(
                e,
                db_before,
                db_after,
                rows_with_update(
                    db_before.rows(),
                    before.account().id,
                    before.account().account_name,
                    before.account().password,
                    before.account().email,
                    today,
                ),
                files,
            ),
            Some(false) => {
                &&& db_after == db_before
                &&& e == VaultError::Store(StoreError::Engine) || e == VaultError::UnknownAccount
                &&& e == VaultError::UnknownAccount ==> forall|i: int|
                    0 <= i < db_before.rows().len() ==> (#[trigger] db_before.rows()[i]).id != before.account().id
            },
            None => false,
        }
    }

    /// Whether an error is one that the answer to the question whether to
    /// delete can end in: one of removing the account and saving the vault,
    /// after yes.
    pub open spec fn failed_to_delete(
        before: Self,
        e: VaultError,
        key_code: KeyCode,
        db_before: DatabaseManager,
        db_after: DatabaseManager,
        files: crate::file_accesssor::VaultFilesView,
    ) -> bool {
        &&& db_before.is_unlocked()
        &&& yes_no_answer(key_code) == Some(true)
        &&& is_change_failure(e, db_before, db_after, rows_without(db_before.rows(), before.account().id), files)
    }

    /// Takes the answer to the question whether to save. Yes writes the
    /// account to the store and saves the vault; no reads the account from
    /// the store again. Either way the account is shown afterwards. While
    /// the vault is locked, the answer changes nothing.
    fn show_save_changes_input(
        &mut self,
        key_code: KeyCode,
        clock: Clock,
        db_manager: &mut DatabaseManager,
        files: &mut VaultFiles,
        symbols: &Password,
    ) -> (done: Result<(), VaultError>)
        requires
            old(self).well_formed(),
        ensures
            final(self).well_formed(),
            final(self).pending() == old(self).pending(),
            final(self).clipboard() == old(self).clipboard(),
            final(db_manager).is_unlocked() == old(db_manager).is_unlocked(),
            final(db_manager).key() == old(db_manager).key(),
            old(db_manager).well_formed() ==> final(db_manager).well_formed(),
            match done {
                Ok(_) => match yes_no_answer(key_code) {
                    Some(true) if old(db_manager).is_unlocked() => {
                        &&& final(self).state() is ShowAccount
                        &&& final(self).account() == old(self).account()
                        &&& final(db_manager).rows() == rows_with_update(
                            old(db_manager).rows(),
                            old(self).account().id,
                            old(self).account().account_name,
                            old(self).account().password,
                            old(self).account().email,
                            clock.unix_seconds,
                        )
                        &&& holds_sealed(final(files)@, final(db_manager).key(), final(db_manager).rows())
                    },
                    Some(false) if old(db_manager).is_unlocked() => {
                        &&& final(self).state() is ShowAccount
                        &&& old(db_manager).rows().contains(final(self).account())
                        &&& final(self).account().id == old(self).account().id
                        &&& *final(db_manager) == *old(db_manager)
                        &&& final(files)@ == old(files)@
                    },
                    _ => *final(self) == *old(self) && *final(db_manager) == *old(db_manager) && final(files)@
                        == old(files)@,
                },
                Err(e) => {
                    &&& *final(self) == *old(self)
                    &&& final(files)@ == old(files)@
                    &&& Self::failed_to_save(
                        *old(self),
                        e,
                        key_code,
                        clock.unix_seconds,
                        *old(db_manager),
                        *final(db_manager),
                        old(files)@,
                    )
                },
            },
    {
        if let Some(accept) = evaluate_yes_no_answer(key_code) {
            if !db_manager.is_open() {
                return Ok(());
            }
            if accept {
                match db_manager.update_account(&self.account, clock.unix_seconds) {
                    Ok(_) => {},
                    Err(e) => {
                        return Err(e);
                    },
                }
                match db_manager.safe_database(files) {
                    Ok(_) => {},
                    Err(e) => {
                        return Err(e);
                    },
                }
            } else {
                let found = match db_manager.get_database_context() {
                    Some(db_context) => db_context.get_account_by_id(self.account.id),
                    None => return Ok(()),
                };
                let account = match found {
                    Ok(Some(account)) => account,
                    Ok(None) => return Err(VaultError::UnknownAccount),
                    Err(e) => return Err(VaultError::Store(e)),
                };
                self.password_widget.update_password(account.password.clone(), symbols);
                self.account = account;
            }
            self.internal_state = ShowAccountState::ShowAccount;
        }
        Ok(())
    }

    fn show_edit_accountname(&self, context: &mut TerminalContext, texts: &Texts)
        requires
            old(context).well_formed(),
            self.state() is EditAccountName,
        ensures
            final(context).drew_all(
                old(context),
                self.drawing(*texts, old(context).width(), old(context).height(), 0).skip(1),
            ),
    {
        self.show_values(context, texts, true, false, false);
        Self::control_footer(context, texts);
        let typed = text_len(self.account.account_name.as_str());
        let x = if typed <= context.get_width() as usize {
            typed as u16
        } else {
            context.get_width()
        };
        context.move_cursor_to_position(x, 3);
        assert(context.frame() =~= old(context).frame() + self.drawing(
            *texts,
            old(context).width(),
            old(context).height(),
            0,
        ).skip(1));
    }

    fn show_edit_accountname_input(&mut self, key_code: KeyCode)
        requires
            old(self).well_formed(),
            old(self).state() is EditAccountName,
        ensures
            final(self).well_formed(),
            final(self).pending() == old(self).pending(),
            final(self).clipboard() == old(self).clipboard(),
            final(self).state() == state_after_edit(old(self).state(), key_code),
            final(self).account() == account_after_edit(old(self).account(), old(self).state(), key_code),
    {
        let mut account_name = self.account.account_name.clone();
        self.edit_account_input(key_code, &mut account_name, ShowAccountState::EditEmail, ShowAccountState::EditPassword);
        self.account.account_name = account_name;
    }

    fn show_edit_password_name(&self, context: &mut TerminalContext, texts: &Texts)
        requires
            old(context).well_formed(),
            self.state() is EditPassword,
        ensures
            final(context).drew_all(
                old(context),
                self.drawing(*texts, old(context).width(), old(context).height(), 0).skip(1),
            ),
    {
        self.show_values(context, texts, false, false, true);
        Self::control_footer(context, texts);
        context.move_cursor_to_position(0, 9);
        assert(context.frame() =~= old(context).frame() + self.drawing(
            *texts,
            old(context).width(),
            old(context).height(),
            0,
        ).skip(1));
    }

    fn show_edit_password_input(&mut self, key_code: KeyCode, symbols: &Password)
        requires
            old(self).well_formed(),
            old(self).state() is EditPassword,
        ensures
            final(self).well_formed(),
            final(self).pending() == old(self).pending(),
            final(self).clipboard() == old(self).clipboard(),
            final(self).state() == state_after_edit(old(self).state(), key_code),
            final(self).account() == account_after_edit(old(self).account(), old(self).state(), key_code),
            final(self).widget().password() == final(self).account().password,
    {
        let mut password = self.account.password.clone();
        self.edit_account_input(key_code, &mut password, ShowAccountState::EditAccountName, ShowAccountState::EditEmail);
        self.password_widget.update_password(password.clone(), symbols);
        self.account.password = password;
    }

    fn show_edit_email(&self, context: &mut TerminalContext, texts: &Texts)
        requires
            old(context).well_formed(),
            self.state() is EditEmail,
        ensures
            final(context).drew_all(
                old(context),
                self.drawing(*texts, old(context).width(), old(context).height(), 0).skip(1),
            ),
    {
        self.show_values(context, texts, false, true, false);
        Self::control_footer(context, texts);
        if let Some(email) = &self.account.email {
            let typed = text_len(email.as_str());
            let x = if typed <= context.get_width() as usize {
                typed as u16
            } else {
                context.get_width()
            };
            context.move_cursor_to_position(x, 6);
        }
        assert(context.frame() =~= old(context).frame() + self.drawing(
            *texts,
            old(context).width(),
            old(context).height(),
            0,
        ).skip(1));
    }

    fn show_edit_email_input(&mut self, key_code: KeyCode)
        requires
            old(self).well_formed(),
            old(self).state() is EditEmail,
        ensures
            final(self).well_formed(),
            final(self).pending() == old(self).pending(),
            final(self).clipboard() == old(self).clipboard(),
            final(self).state() == state_after_edit(old(self).state(), key_code),
            final(self).account() == account_after_edit(old(self).account(), old(self).state(), key_code),
    {
        let mut email = match &self.account.email {
            Some(email) => email.clone(),
            None => String::new(),
        };
        self.edit_account_input(key_code, &mut email, ShowAccountState::EditPassword, ShowAccountState::EditAccountName);
        self.account.email = Some(email);
    }

    fn show_delete_account(&self, context: &mut TerminalContext, texts: &Texts)
        requires
            old(context).well_formed(),
            self.state() is DeleteAccount,
        ensures
            final(context).drew_all(
                old(context),
                self.drawing(*texts, old(context).width(), old(context).height(), 0).skip(1),
            ),
    {
        self.show_values(context, texts, false, false, false);
        context.draw_request_footer(&texts.show_account.delete_question, &texts.misc.confirm_input);
        assert(context.frame() =~= old(context).frame() + self.drawing(
            *texts,
            old(context).width(),
            old(context).height(),
            0,
        ).skip(1));
    }

    /// Takes the answer to the question whether to delete. Yes removes the
    /// account from the store, saves the vault and leads back to the main
    /// menu; no shows the account again. While the vault is locked, the
    /// answer changes nothing.
    fn show_delete_account_input(&mut self, key_code: KeyCode, db_manager: &mut DatabaseManager, files: &mut VaultFiles) -> (done:
        Result<(), VaultError>)
        requires
            old(self).well_formed(),
        ensures
            final(self).well_formed(),
            final(self).account() == old(self).account(),
            final(self).clipboard() == old(self).clipboard(),
            final(db_manager).is_unlocked() == old(db_manager).is_unlocked(),
            final(db_manager).key() == old(db_manager).key(),
            old(db_manager).well_formed() ==> final(db_manager).well_formed(),
            match done {
                Ok(_) => match yes_no_answer(key_code) {
                    Some(true) if old(db_manager).is_unlocked() => {
                        &&& final(self).state() == old(self).state()
                        &&& final(self).pending() == Some(TransitionView::ToMainMenu)
                        &&& final(db_manager).rows() == rows_without(old(db_manager).rows(), old(self).account().id)
                        &&& holds_sealed(final(files)@, final(db_manager).key(), final(db_manager).rows())
                    },
                    Some(false) if old(db_manager).is_unlocked() => {
                        &&& final(self).state() is ShowAccount
                        &&& final(self).pending() == old(self).pending()
                        &&& *final(db_manager) == *old(db_manager)
                        &&& final(files)@ == old(files)@
                    },
                    _ => *final(self) == *old(self) && *final(db_manager) == *old(db_manager) && final(files)@
                        == old(files)@,
                },
                Err(e) => {
                    &&& *final(self) == *old(self)
                    &&& final(files)@ == old(files)@
                    &&& Self::failed_to_delete(*old(self), e, key_code, *old(db_manager), *final(db_manager), old(files)@)
                },
            },
    {
        if let Some(accept) = evaluate_yes_no_answer(key_code) {
            if !db_manager.is_open() {
                return Ok(());
            }
            if accept {
                match db_manager.remove_account(self.account.id) {
                    Ok(_) => {},
                    Err(e) => {
                        return Err(e);
                    },
                }
                match db_manager.safe_database(files) {
                    Ok(_) => {},
                    Err(e) => {
                        return Err(e);
                    },
                }
                self.next_state = Some(Transition::ToMainMenu);
                return Ok(());
            }
            self.internal_state = ShowAccountState::ShowAccount;
        }
        Ok(())
    }

    fn show_account_name(&self, context: &mut TerminalContext, texts: &Texts, highlighted: bool)
        requires
            old(context).well_formed(),
        ensures
            final(context).drew_all(old(context), self.name_rows(*texts, highlighted)),
    {
        if highlighted {
            context.print_styled_at_position(0, 2, texts.account.account_name.as_str(), StyleAttribute::Bold);
            context.print_styled_at_position(0, 3, self.account.account_name.as_str(), StyleAttribute::InverseColor);
        } else {
            context.print_at_position(0, 2, texts.account.account_name.as_str());
            context.print_at_position(0, 3, self.account.account_name.as_str());
        }
        assert(context.frame() =~= old(context).frame() + self.name_rows(*texts, highlighted));
    }

    fn show_email(&self, context: &mut TerminalContext, texts: &Texts, highlighted: bool)
        requires
            old(context).well_formed(),
        ensures
            final(context).drew_all(old(context), self.email_rows(*texts, highlighted)),
    {
        let email = match &self.account.email {
            Some(email) => email.as_str(),
            None => "",
        };
        if highlighted {
            context.print_styled_at_position(0, 5, texts.account.email.as_str(), StyleAttribute::Bold);
            context.print_styled_at_position(0, 6, email, StyleAttribute::InverseColor);
        } else {
            context.print_at_position(0, 5, texts.account.email.as_str());
            context.print_at_position(0, 6, email);
        }
        assert(context.frame() =~= old(context).frame() + self.email_rows(*texts, highlighted));
    }

    fn show_password(&self, context: &mut TerminalContext, texts: &Texts, highlighted: bool)
        requires
            old(context).well_formed(),
        ensures
            final(context).drew_all(old(context), self.password_rows(*texts, highlighted)),
    {
        if highlighted {
            context.print_styled_at_position(0, 8, texts.account.password.as_str(), StyleAttribute::Bold);
            self.password_widget.display(context, 0, 9);
        } else {
            context.print_at_position(0, 8, texts.account.password.as_str());
            self.password_widget.display(context, 0, 9)
        }
        assert(context.frame() =~= old(context).frame() + self.password_rows(*texts, highlighted));
    }

    /// Edits a value by one key press, or leaves the value: Enter for the
    /// question whether to save, Up and Down for the value before and the
    /// next one.
    fn edit_account_input(
        &mut self,
        key_code: KeyCode,
        text_buffer: &mut String,
        next_state: ShowAccountState,
        prev_state: ShowAccountState,
    )
        requires
            old(self).well_formed(),
        ensures
            final(self).well_formed(),
            final(self).account == old(self).account,
            final(self).next_state == old(self).next_state,
            final(self).clipboard_controller == old(self).clipboard_controller,
            final(text_buffer)@ == text_after_key(old(text_buffer)@, key_code),
            final(self).state() == (match key_code {
                KeyCode::Enter => ShowAccountState::SaveChanges,
                KeyCode::Up => prev_state,
                KeyCode::Down => next_state,
                _ => old(self).state(),
            }),
    {
        match key_code {
            KeyCode::Enter => {
                self.change_internal_state(ShowAccountState::SaveChanges)
            },
            KeyCode::Backspace => {
                text_buffer.pop();
            },
            KeyCode::Char(c) => text_buffer.push(c),
            KeyCode::Up => {
                self.change_internal_state(prev_state)
            },
            KeyCode::Down => {
                self.change_internal_state(next_state)
            },
            _ => (),
        };
    }

    /// Goes over to doing something else; the password is in clear exactly
    /// while it is edited.
    fn change_internal_state(&mut self, new_state: ShowAccountState)
        requires
            old(self).well_formed(),
        ensures
            final(self).well_formed(),
            final(self).account == old(self).account,
            final(self).next_state == old(self).next_state,
            final(self).clipboard_controller == old(self).clipboard_controller,
            final(self).state() == new_state,
            final(self).widget().visible() == (new_state is EditPassword),
            final(self).widget().password() == old(self).widget().password(),
    {
        let editing = match new_state {
            ShowAccountState::EditPassword => true,
            _ => false,
        };
        self.password_widget.change_visibility(editing);
        self.internal_state = new_state;
    }

    /// Ends the copying of the password where the countdown has run out: the
    /// clipboard is to be emptied, and the account is shown again.
    pub fn on_tick(&mut self, now: u64)
        requires
            old(self).well_formed(),
        ensures
            final(self).well_formed(),
            final(self).account() == old(self).account(),
            final(self).pending() == old(self).pending(),
            if old(self).state() is CopyPassword && old(self).clipboard().is_running() && old(self).clipboard().remaining_at(now) == 0 {
                &&& final(self).state() is ShowAccount
                &&& !final(self).clipboard().is_running()
                &&& final(self).clipboard().requests() == old(self).clipboard().requests().push(Seq::<char>::empty())
            } else {
                *final(self) == *old(self)
            },
    {
        match self.internal_state {
            ShowAccountState::CopyPassword => {
                if self.clipboard_controller.finish_if_due(now) {
                    self.internal_state = ShowAccountState::ShowAccount;
                }
            },
            _ => {},
        }
    }

    /// Hands over the texts that wait to be put on the clipboard.
    pub fn take_clipboard_requests(&mut self) -> (texts: Vec<String>)
        requires
            old(self).well_formed(),
        ensures
            final(self).well_formed(),
            texts@.map_values(|s: String| s@) == old(self).clipboard().requests(),
            final(self).clipboard().requests() == Seq::<Seq<char>>::empty(),
            final(self).clipboard().is_running() == old(self).clipboard().is_running(),
            final(self).account() == old(self).account(),
            final(self).state() == old(self).state(),
            final(self).pending() == old(self).pending(),
    {
        self.clipboard_controller.take_requests()
    }

    /// Hands over the texts that wait to be put on the clipboard, when the
    /// screen is replaced.
    pub fn take_requests_on_leave(&mut self) -> (texts: Vec<String>)
        ensures
            texts@.map_values(|s: String| s@) == old(self).clipboard().requests(),
    {
        self.clipboard_controller.take_requests()
    }

    /// Draws the heading, the values of the account, and the footer of what
    /// the screen is doing.
    pub fn display(&self, context: &mut TerminalContext, texts: &Texts, now: u64)
        requires
            old(context).well_formed(),
        ensures
            final(context).drew_all(
                old(context),
                self.drawing(*texts, old(context).width(), old(context).height(), now),
            ),
    {
        context.print_styled_at_position(0, 0, texts.show_account.heading.as_str(), StyleAttribute::Underline);
        match self.internal_state {
            ShowAccountState::ShowAccount => self.show_account(context, texts),
            ShowAccountState::EditAccountName => self.show_edit_accountname(context, texts),
            ShowAccountState::EditPassword => self.show_edit_password_name(context, texts),
            ShowAccountState::EditEmail => self.show_edit_email(context, texts),
            ShowAccountState::CopyPassword => self.show_copy_password(context, texts, now),
            ShowAccountState::SaveChanges => self.show_save_changes(context, texts),
            ShowAccountState::DeleteAccount => self.show_delete_account(context, texts),
        };
        assert(context.frame() =~= old(context).frame() + self.drawing(
            *texts,
            old(context).width(),
            old(context).height(),
            now,
        ));
    }

    /// Whether the screen is to be drawn anew without a key press: while the
    /// countdown of a copied password runs.
    pub fn update_display(&self) -> (again: bool)
        ensures
            again == (self.state() is CopyPassword),
    {
        match self.internal_state {
            ShowAccountState::CopyPassword => true,
            _ => false,
        }
    }

    /// What a key press makes of the screen, the vault and the files.
    pub open spec fn took_key(
        before: Self,
        after: Self,
        key_code: KeyCode,
        now: u64,
        today: i64,
        db_before: DatabaseManager,
        db_after: DatabaseManager,
        files_before: crate::file_accesssor::VaultFilesView,
        files_after: crate::file_accesssor::VaultFilesView,
        done: Result<(), VaultError>,
    ) -> bool {
        &&& after.well_formed()
        &&& db_after.is_unlocked() == db_before.is_unlocked()
        &&& db_after.key() == db_before.key()
        &&& db_before.well_formed() ==> db_after.well_formed()
        &&& !(before.state() is SaveChanges || before.state() is DeleteAccount) ==> done is Ok && db_after == db_before && files_after == files_before
        &&& match done {
            Err(e) => {
                &&& after == before
                &&& files_after == files_before
                &&& match before.state() {
                    ShowAccountState::SaveChanges => Self::failed_to_save(
                        before,
                        e,
                        key_code,
                        today,
                        db_before,
                        db_after,
                        files_before,
                    ),
                    ShowAccountState::DeleteAccount => Self::failed_to_delete(
                        before,
                        e,
                        key_code,
                        db_before,
                        db_after,
                        files_before,
                    ),
                    _ => false,
                }
            },
            Ok(_) => true,
        }
        &&& done is Ok ==> match before.state() {
            ShowAccountState::ShowAccount => {
                &&& after.account() == before.account()
                &&& after.state() == state_after_show(key_code)
                &&& after.pending() == (if key_code == KeyCode::Char('q') {
                    Some(TransitionView::ToMainMenu)
                } else {
                    before.pending()
                })
                &&& if key_code == KeyCode::Char('c') {
                    &&& after.clipboard().requests() == before.clipboard().requests().push(
                        before.account().password,
                    )
                    &&& after.clipboard().is_running()
                    &&& after.clipboard().duration() == CLIPBOARD_SECONDS
                    &&& after.clipboard().started_at() == now
                } else {
                    after.clipboard() == before.clipboard()
                }
            },
            ShowAccountState::EditAccountName | ShowAccountState::EditPassword | ShowAccountState::EditEmail => {
                &&& after.pending() == before.pending()
                &&& after.clipboard() == before.clipboard()
                &&& after.state() == state_after_edit(before.state(), key_code)
                &&& after.account() == account_after_edit(before.account(), before.state(), key_code)
            },
            ShowAccountState::CopyPassword => after == before,
            ShowAccountState::SaveChanges => {
                &&& after.pending() == before.pending()
                &&& after.clipboard() == before.clipboard()
                &&& match yes_no_answer(key_code) {
                    Some(true) if db_before.is_unlocked() => {
                        &&& after.state() is ShowAccount
                        &&& after.account() == before.account()
                        &&& db_after.rows() == rows_with_update(
                            db_before.rows(),
                            before.account().id,
                            before.account().account_name,
                            before.account().password,
                            before.account().email,
                            today,
                        )
                        &&& holds_sealed(files_after, db_after.key(), db_after.rows())
                    },
                    Some(false) if db_before.is_unlocked() => {
                        &&& after.state() is ShowAccount
                        &&& db_before.rows().contains(after.account())
                        &&& after.account().id == before.account().id
                        &&& db_after == db_before
                        &&& files_after == files_before
                    },
                    _ => after == before && db_after == db_before && files_after
                        == files_before,
                }
            },
            ShowAccountState::DeleteAccount => {
                &&& after.account() == before.account()
                &&& after.clipboard() == before.clipboard()
                &&& match yes_no_answer(key_code) {
                    Some(true) if db_before.is_unlocked() => {
                        &&& after.state() == before.state()
                        &&& after.pending() == Some(TransitionView::ToMainMenu)
                        &&& db_after.rows() == rows_without(db_before.rows(), before.account().id)
                        &&& holds_sealed(files_after, db_after.key(), db_after.rows())
                    },
                    Some(false) if db_before.is_unlocked() => {
                        &&& after.state() is ShowAccount
                        &&& after.pending() == before.pending()
                        &&& db_after == db_before
                        &&& files_after == files_before
                    },
                    _ => after == before && db_after == db_before && files_after
                        == files_before,
                }
            },
        }
    }

    /// Takes a key press, as what the screen is doing asks for.
    pub fn register_input(
        &mut self,
        key_code: KeyCode,
        clock: Clock,
        db_manager: &mut DatabaseManager,
        files: &mut VaultFiles,
        symbols: &Password,
    ) -> (done: Result<(), VaultError>)
        requires
            old(self).well_formed(),
        ensures
            Self::took_key(*old(self), *final(self), key_code, clock.millis, clock.unix_seconds, *old(db_manager), *final(db_manager), old(files)@, final(files)@, done),
    {
        match self.internal_state {
            ShowAccountState::ShowAccount => {
                self.show_account_input(key_code, clock.millis);
                Ok(())
            },
            ShowAccountState::EditAccountName => {
                self.show_edit_accountname_input(key_code);
                Ok(())
            },
            ShowAccountState::EditPassword => {
                self.show_edit_password_input(key_code, symbols);
                Ok(())
            },
            ShowAccountState::EditEmail => {
                self.show_edit_email_input(key_code);
                Ok(())
            },
            ShowAccountState::CopyPassword => Ok(()),
            ShowAccountState::SaveChanges => self.show_save_changes_input(key_code, clock, db_manager, files, symbols),
            ShowAccountState::DeleteAccount => self.show_delete_account_input(key_code, db_manager, files),
        }
    }

    /// What the screen is doing.
    pub fn get_state(&self) -> (state: ShowAccountState)
        ensures
            state == self.state(),
    {
        self.internal_state
    }

    /// The account as the screen holds it, with the edits made so far.
    pub fn get_account(&self) -> (account: &Account)
        ensures
            account@ == self.account(),
    {
        &self.account
    }

    /// The transition that waits, if any.
    pub fn next_state(&self) -> (transition: Option<Transition>)
        ensures
            transition_view(transition) == self.pending(),
    {
        duplicate_transition(&self.next_state)
    }
}

} // verus!
