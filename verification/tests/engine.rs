use rusty_password_manager::add_account_state_item::{AddAccountState, AddEntryStateItem};
use rusty_password_manager::authentication_state_item::LockState;
use rusty_password_manager::database_context::{DatabaseManager, VaultError};
use rusty_password_manager::deferred_signal::Clock;
use rusty_password_manager::encryption_controller::PasswordEncryption;
use rusty_password_manager::file_accesssor::VaultFiles;
use rusty_password_manager::input_handler::KeyCode;
use rusty_password_manager::list_accounts_state::ListState;
use rusty_password_manager::set_authentication_state_item::SetAuthState;
use rusty_password_manager::show_account_state_item::ShowAccountState;
use rusty_password_manager::state_item::StateItem;
use rusty_password_manager::state_manager::{StateManager, StepOutcome};
use rusty_password_manager::terminal_context::{DrawCommand, TerminalContext};
use rusty_password_manager::texts::{
    Account, AddAccount, Auth, Input, ListAccounts, MainMenu, Misc, Password, ShowAccount, Texts, Wipe,
};
use rusty_password_manager::wipe_database_state_item::WipeState;

fn texts() -> Texts {
    let s = |t: &str| t.to_string();
    Texts {
        misc: Misc { welcome: s("Welcome"), confirm_input: s("[Y]es | [N]o") },
        input: Input {
            up_arrow: s("up"),
            down_arrow: s("down"),
            left_arrow: s("left"),
            right_arrow: s("right"),
            enter: s("enter"),
            escape: s("esc"),
        },
        main_menu: MainMenu {
            heading: s("Main menu"),
            add_account: s("[1] Add account"),
            list_accounts: s("[2] List accounts"),
            set_master_pwd: s("[3] Set master password"),
            wipe_database: s("[4] Wipe database"),
            exit: s("[5] Exit"),
        },
        account: Account { account_name: s("Account"), email: s("E-mail"), password: s("Password") },
        add_account: AddAccount {
            heading: s("Add account"),
            account_exists: s("There is an account named"),
            add_email_question: s("Add an e-mail address?"),
            generate_pwd_question: s("Generate a password?"),
            pwd_generated: s("Password generated"),
            pwd_set: s("Password set"),
            cancel_question: s("Give up?"),
        },
        list_accounts: ListAccounts { heading: s("Accounts"), search: s("Search"), search_input: s("[s]earch"), quit_input: s("[q]uit") },
        show_account: ShowAccount {
            heading: s("Account"),
            delete_question: s("Delete?"),
            save_question: s("Save?"),
            copy_msg: s("Copied"),
            copy_countdown: s("Clipboard is emptied in"),
            copy_input: s("[c]opy"),
            edit_input: s("[e]dit"),
            delete_input: s("[d]elete"),
            quit_input: s("[q]uit"),
        },
        auth: Auth {
            enter_pwd_promt: s("Enter the master password"),
            invalid_pwd: s("Wrong password"),
            valid_pwd: s("Unlocked"),
            set_new_master_pwd: s("Set a master password"),
            confirm_new_master_pwd: s("Once more"),
            master_password_set: s("Master password set"),
            confirm_failed: s("The two differ"),
            cancel_question: s("Give up?"),
        },
        wipe: Wipe {
            are_you_sure_question: s("Wipe the database?"),
            warning: s("This cannot be undone"),
            delete_msg: s("Wiping"),
            enter_pwd_request: s("Master password"),
            success_msg: s("Wiped"),
            failure_msg: s("Not wiped"),
        },
        password: Password { symbols: s("*#") },
    }
}

struct Session {
    manager: StateManager,
    context: TerminalContext,
    files: VaultFiles,
    millis: u64,
}

impl Session {
    fn start(files: VaultFiles) -> Session {
        let manager = StateManager::new(texts(), 0, &files);
        Session { manager, context: TerminalContext::new(0, 0, 80, 24), files, millis: 0 }
    }

    fn clock(&self) -> Clock {
        Clock { millis: self.millis, unix_seconds: 1_700_000_000 + (self.millis / 1000) as i64 }
    }

    fn run(&mut self) {
        self.context.take_frame();
        let clock = self.clock();
        self.manager.run(&mut self.context, clock, &mut self.files);
    }

    fn wait(&mut self, millis: u64) {
        self.millis += millis;
        self.run();
    }

    fn keys(&mut self, keys: &[KeyCode]) {
        for key in keys {
            self.context.push_input(*key);
        }
        self.run();
    }

    fn text(&mut self, text: &str) {
        let keys: Vec<KeyCode> = text.chars().map(KeyCode::Char).collect();
        self.keys(&keys);
    }

    fn enter(&mut self, text: &str) {
        self.text(text);
        self.keys(&[KeyCode::Enter]);
    }

    fn screen(&self) -> &StateItem {
        self.manager.get_state().as_ref().unwrap()
    }

    fn shows(&self, text: &str) -> bool {
        self.context.get_frame().iter().any(|c| matches!(c, DrawCommand::Text { content, .. } if content.contains(text)))
    }

    fn names(&self) -> Vec<String> {
        let store = self.manager.get_database_manager().get_database_context().unwrap();
        store.list_all_accounts().unwrap().iter().map(|a| a.account_name.clone()).collect()
    }
}

fn set_up(passphrase: &str) -> Session {
    let mut session = Session::start(VaultFiles::new());
    session.wait(2_000);
    session.enter(passphrase);
    session.enter(passphrase);
    session.wait(2_000);
    session
}

fn add(session: &mut Session, name: &str, password: &str) {
    session.keys(&[KeyCode::Char('1'), KeyCode::Enter]);
    session.enter(name);
    session.keys(&[KeyCode::Char('n'), KeyCode::Char('n')]);
    session.enter(password);
    session.wait(2_000);
}

#[test]
fn first_start_leads_through_setting_a_passphrase_to_the_menu() {
    let mut session = Session::start(VaultFiles::new());
    session.run();
    assert!(matches!(session.screen(), StateItem::Startup(_)));
    assert!(session.shows("Welcome"));
    session.wait(1_999);
    assert!(matches!(session.screen(), StateItem::Startup(_)));
    session.wait(1);
    assert!(matches!(session.screen(), StateItem::SetAuthentication(s) if s.get_state() == SetAuthState::EnterPassword));
    assert!(session.shows("Set a master password"));
    session.enter("hunter2");
    assert!(matches!(session.screen(), StateItem::SetAuthentication(s) if s.get_state() == SetAuthState::ConfirmPassword));
    assert!(session.files.password_file.is_none());
    session.enter("hunter2");
    assert!(matches!(session.screen(), StateItem::SetAuthentication(s) if s.get_state() == SetAuthState::Success));
    assert!(session.shows("Master password set"));
    assert!(session.files.directory_exists);
    assert!(session.files.password_file.is_some());
    assert!(session.files.db_file.is_some());
    assert!(session.manager.get_database_manager().is_open());
    session.wait(1_999);
    assert!(matches!(session.screen(), StateItem::SetAuthentication(_)));
    session.wait(1);
    assert!(matches!(session.screen(), StateItem::MainMenu(m) if m.get_selected() == 0));
    assert!(session.shows("[5] Exit"));
    assert!(session.manager.is_running());

    let mut reopened = DatabaseManager::new();
    assert_eq!(reopened.unlock("hunter2", &session.files), Ok(()));
}

#[test]
fn a_passphrase_that_is_not_confirmed_is_not_stored() {
    let mut session = Session::start(VaultFiles::new());
    session.wait(2_000);
    session.enter("hunter2");
    session.enter("hunter3");
    assert!(matches!(session.screen(), StateItem::SetAuthentication(s) if s.get_state() == SetAuthState::Failure));
    assert!(session.files.password_file.is_none());
    assert!(!session.manager.get_database_manager().is_open());
    session.wait(2_000);
    assert!(matches!(session.screen(), StateItem::SetAuthentication(s) if s.get_state() == SetAuthState::EnterPassword));
}

#[test]
fn the_second_start_asks_for_the_passphrase() {
    let files = set_up("hunter2").files;
    let mut session = Session::start(files);
    session.wait(2_000);
    assert!(matches!(session.screen(), StateItem::Authentication(s) if s.get_lock_state() == LockState::Locked));
    session.enter("wrong");
    assert!(matches!(session.screen(), StateItem::Authentication(s) if s.get_lock_state() == LockState::Invalid));
    assert!(session.shows("Wrong password"));
    assert!(!session.manager.get_database_manager().is_open());
    session.text("ignored");
    session.wait(10_000);
    assert!(matches!(session.screen(), StateItem::Authentication(s) if s.get_lock_state() == LockState::Invalid));
    session.keys(&[KeyCode::Enter]);
    assert!(matches!(session.screen(), StateItem::Authentication(s) if s.get_lock_state() == LockState::Locked));
    session.enter("  hunter2 ");
    assert!(matches!(session.screen(), StateItem::Authentication(s) if s.get_lock_state() == LockState::Invalid));
    assert!(!session.manager.get_database_manager().is_open());
    session.keys(&[KeyCode::Enter]);
    session.enter("hunter2");
    assert!(matches!(session.screen(), StateItem::Authentication(s) if s.get_lock_state() == LockState::Unlocked));
    assert!(session.manager.get_database_manager().is_open());
    session.wait(999);
    assert!(matches!(session.screen(), StateItem::Authentication(_)));
    session.wait(1);
    assert!(matches!(session.screen(), StateItem::MainMenu(_)));
}

#[test]
fn a_passphrase_with_spaces_round_it_opens_the_vault_it_was_set_for() {
    let files = set_up(" hunter2 ").files;
    let record = PasswordEncryption::create_from_string(files.password_file.clone().unwrap()).unwrap();
    assert!(record.verify_string(" hunter2 "));
    assert!(!record.verify_string("hunter2"));
    let mut session = Session::start(files);
    session.wait(2_000);
    session.enter("hunter2");
    assert!(matches!(session.screen(), StateItem::Authentication(s) if s.get_lock_state() == LockState::Invalid));
    session.keys(&[KeyCode::Enter]);
    session.enter(" hunter2 ");
    assert!(matches!(session.screen(), StateItem::Authentication(s) if s.get_lock_state() == LockState::Unlocked));
    assert!(session.manager.get_database_manager().is_open());
}

#[test]
fn no_key_reaches_a_screen_whose_transition_waits() {
    let mut session = Session::start(VaultFiles::new());
    session.millis = 2_000;
    session.context.push_input(KeyCode::Char('a'));
    session.context.push_input(KeyCode::Char('b'));
    let clock = session.clock();
    let first = session.manager.step(&mut session.context, clock, &mut session.files);
    assert_eq!(first, StepOutcome::Moved);
    assert!(matches!(session.screen(), StateItem::SetAuthentication(_)));
    let second = session.manager.step(&mut session.context, clock, &mut session.files);
    assert_eq!(second, StepOutcome::TookKey(Ok(())));
    let third = session.manager.step(&mut session.context, clock, &mut session.files);
    assert_eq!(third, StepOutcome::TookKey(Ok(())));
    let fourth = session.manager.step(&mut session.context, clock, &mut session.files);
    assert_eq!(fourth, StepOutcome::Idle);
    session.enter("");
    session.enter("ab");
    assert!(matches!(session.screen(), StateItem::SetAuthentication(s) if s.get_state() == SetAuthState::Success));
}

#[test]
fn the_menu_moves_and_wraps() {
    let mut session = set_up("pw");
    let selected = |session: &Session| match session.screen() {
        StateItem::MainMenu(m) => m.get_selected(),
        _ => 99,
    };
    session.keys(&[KeyCode::Down]);
    assert_eq!(selected(&session), 1);
    session.keys(&[KeyCode::Up, KeyCode::Up]);
    assert_eq!(selected(&session), 4);
    session.keys(&[KeyCode::Down]);
    assert_eq!(selected(&session), 0);
    session.keys(&[KeyCode::Char('3')]);
    assert_eq!(selected(&session), 2);
    session.keys(&[KeyCode::Char('9')]);
    assert_eq!(selected(&session), 4);
    session.keys(&[KeyCode::Char('0'), KeyCode::Char('x'), KeyCode::Left]);
    assert_eq!(selected(&session), 4);
    session.keys(&[KeyCode::Char('1')]);
    assert_eq!(selected(&session), 0);
}

#[test]
fn exit_stops_the_engine() {
    let mut session = set_up("pw");
    session.keys(&[KeyCode::Char('5'), KeyCode::Enter, KeyCode::Char('1')]);
    assert!(!session.manager.is_running());
    assert_eq!(session.manager.get_failure(), None);
    let clock = session.clock();
    assert_eq!(session.manager.step(&mut session.context, clock, &mut session.files), StepOutcome::Stopped);
}

#[test]
fn an_account_is_added_and_saved() {
    let mut session = set_up("hunter2");
    let empty_blob = session.files.db_file.clone();
    session.keys(&[KeyCode::Char('1'), KeyCode::Enter]);
    assert!(matches!(session.screen(), StateItem::AddAccount(s) if s.get_state() == AddAccountState::SetAccount));
    session.enter("github");
    assert!(matches!(session.screen(), StateItem::AddAccount(s) if s.get_state() == AddAccountState::AddEmailRequest));
    session.keys(&[KeyCode::Char('y')]);
    session.enter("me@example.org");
    assert!(matches!(session.screen(), StateItem::AddAccount(s) if s.get_state() == AddAccountState::GeneratePasswordRequest));
    session.keys(&[KeyCode::Char('n')]);
    session.text("abc124");
    session.keys(&[KeyCode::Backspace, KeyCode::Char('3')]);
    assert!(session.names().is_empty());
    session.keys(&[KeyCode::Enter]);
    assert!(matches!(session.screen(), StateItem::AddAccount(s) if s.get_state() == AddAccountState::PasswordSet));
    assert_eq!(session.names(), vec!["github"]);
    assert_ne!(session.files.db_file, empty_blob);
    session.wait(2_000);
    assert!(matches!(session.screen(), StateItem::MainMenu(_)));

    let mut reopened = DatabaseManager::new();
    reopened.unlock("hunter2", &session.files).unwrap();
    let accounts = reopened.get_database_context().unwrap().list_all_accounts().unwrap();
    assert_eq!(accounts.len(), 1);
    assert_eq!(accounts[0].account_name, "github");
    assert_eq!(accounts[0].password, "abc123");
    assert_eq!(accounts[0].email, Some("me@example.org".to_string()));
    assert_eq!(accounts[0].created_at, accounts[0].updated_at);
    assert!(accounts[0].created_at >= 1_700_000_000);
}

#[test]
fn a_generated_password_has_thirty_permitted_characters() {
    for _ in 0..20 {
        let password = AddEntryStateItem::generate_password();
        assert_eq!(password.chars().count(), 30);
        assert!(password.chars().all(|c| c.is_ascii_alphanumeric() || "!@#$%^&*()_+-=[]{}|;:,.<>?".contains(c)));
    }
    let mut session = set_up("pw");
    session.keys(&[KeyCode::Char('1'), KeyCode::Enter]);
    session.enter("site");
    session.keys(&[KeyCode::Char('n'), KeyCode::Char('y')]);
    let generated = match session.screen() {
        StateItem::AddAccount(s) => {
            assert_eq!(s.get_state(), AddAccountState::PasswordGenerated);
            s.get_password().clone()
        },
        _ => panic!("not the add screen"),
    };
    assert_eq!(generated.chars().count(), 30);
    let store = session.manager.get_database_manager().get_database_context().unwrap();
    assert_eq!(store.list_all_accounts().unwrap()[0].password, generated);
    assert_eq!(store.list_all_accounts().unwrap()[0].email, None);
}

#[test]
fn a_name_that_is_taken_is_refused() {
    let mut session = set_up("pw");
    add(&mut session, "github", "pw1");
    session.keys(&[KeyCode::Char('1'), KeyCode::Enter]);
    session.enter("GIT");
    assert!(matches!(session.screen(), StateItem::AddAccount(s) if s.get_state() == AddAccountState::AccountExists));
    assert!(session.shows("There is an account named GIT"));
    session.text("yn");
    session.wait(2_000);
    assert!(matches!(session.screen(), StateItem::MainMenu(_)));
    assert_eq!(session.names(), vec!["github"]);
}

#[test]
fn adding_can_be_given_up() {
    let mut session = set_up("pw");
    session.keys(&[KeyCode::Char('1'), KeyCode::Enter]);
    session.text("gi");
    session.keys(&[KeyCode::Esc]);
    assert!(matches!(session.screen(), StateItem::AddAccount(s) if s.get_state() == AddAccountState::Cancel));
    session.keys(&[KeyCode::Char('n')]);
    assert!(matches!(session.screen(), StateItem::AddAccount(s) if s.get_state() == AddAccountState::SetAccount));
    session.keys(&[KeyCode::Esc, KeyCode::Char('Y'), KeyCode::Char('x')]);
    assert!(matches!(session.screen(), StateItem::MainMenu(_)));
    assert!(session.names().is_empty());
}

#[test]
fn the_list_pages_searches_and_selects() {
    let mut session = set_up("pw");
    for i in 0..12 {
        add(&mut session, &format!("site{:02}", i), "pw");
    }
    session.keys(&[KeyCode::Char('2'), KeyCode::Enter]);
    let selected = |session: &Session| match session.screen() {
        StateItem::ListAccounts(s) => s.get_selected_account_id(),
        _ => None,
    };
    assert!(matches!(session.screen(), StateItem::ListAccounts(s) if s.get_state() == ListState::List && s.get_entries().len() == 12));
    assert!(session.shows("[1/2]"));
    assert!(session.shows("site09"));
    assert!(!session.shows("site10"));
    assert_eq!(selected(&session), Some(1));
    session.keys(&[KeyCode::Down, KeyCode::Down]);
    assert_eq!(selected(&session), Some(3));
    session.keys(&[KeyCode::Up, KeyCode::Up, KeyCode::Up]);
    assert_eq!(selected(&session), Some(1));
    session.keys(&[KeyCode::Right]);
    assert!(session.shows("[2/2]"));
    assert_eq!(selected(&session), Some(11));
    session.keys(&[KeyCode::Down, KeyCode::Down, KeyCode::Right]);
    assert_eq!(selected(&session), Some(12));
    session.keys(&[KeyCode::Left, KeyCode::Left]);
    assert_eq!(selected(&session), Some(1));
    session.keys(&[KeyCode::Char('s')]);
    session.text("E1");
    assert!(matches!(session.screen(), StateItem::ListAccounts(s) if s.get_state() == ListState::Search && s.get_entries().len() == 2));
    assert_eq!(selected(&session), Some(11));
    session.keys(&[KeyCode::Backspace]);
    assert!(matches!(session.screen(), StateItem::ListAccounts(s) if s.get_entries().len() == 12));
    session.text("11");
    assert_eq!(selected(&session), Some(12));
    session.text("x");
    assert_eq!(selected(&session), None);
    session.keys(&[KeyCode::Enter]);
    assert!(matches!(session.screen(), StateItem::ListAccounts(_)));
    session.keys(&[KeyCode::Esc]);
    assert!(matches!(session.screen(), StateItem::ListAccounts(s) if s.get_state() == ListState::List && s.get_entries().len() == 12));
    session.keys(&[KeyCode::Down, KeyCode::Enter]);
    assert!(matches!(session.screen(), StateItem::ShowAccount(s) if s.get_account().account_name == "site01"));
    session.keys(&[KeyCode::Char('q')]);
    assert!(matches!(session.screen(), StateItem::MainMenu(_)));
    session.keys(&[KeyCode::Char('2'), KeyCode::Enter, KeyCode::Char('q')]);
    assert!(matches!(session.screen(), StateItem::MainMenu(_)));
}

fn open_first_account(session: &mut Session) {
    session.keys(&[KeyCode::Char('2'), KeyCode::Enter, KeyCode::Enter]);
    assert!(matches!(session.screen(), StateItem::ShowAccount(s) if s.get_state() == ShowAccountState::ShowAccount));
}

#[test]
fn an_account_is_edited_and_saved_or_read_again() {
    let mut session = set_up("pw");
    add(&mut session, "github", "abc");
    session.millis += 5_000;
    open_first_account(&mut session);
    let state = |session: &Session| match session.screen() {
        StateItem::ShowAccount(s) => s.get_state(),
        _ => panic!("not the account screen"),
    };
    session.keys(&[KeyCode::Char('e')]);
    assert_eq!(state(&session), ShowAccountState::EditAccountName);
    session.text("!");
    session.keys(&[KeyCode::Down]);
    assert_eq!(state(&session), ShowAccountState::EditEmail);
    session.text("a@b");
    session.keys(&[KeyCode::Down]);
    assert_eq!(state(&session), ShowAccountState::EditPassword);
    session.keys(&[KeyCode::Backspace]);
    session.text("x");
    session.keys(&[KeyCode::Down]);
    assert_eq!(state(&session), ShowAccountState::EditAccountName);
    session.keys(&[KeyCode::Up]);
    assert_eq!(state(&session), ShowAccountState::EditPassword);
    session.keys(&[KeyCode::Up]);
    assert_eq!(state(&session), ShowAccountState::EditEmail);
    session.keys(&[KeyCode::Up]);
    assert_eq!(state(&session), ShowAccountState::EditAccountName);
    session.keys(&[KeyCode::Enter]);
    assert_eq!(state(&session), ShowAccountState::SaveChanges);
    session.keys(&[KeyCode::Char('x')]);
    assert_eq!(state(&session), ShowAccountState::SaveChanges);
    session.keys(&[KeyCode::Char('n')]);
    assert_eq!(state(&session), ShowAccountState::ShowAccount);
    assert!(matches!(session.screen(), StateItem::ShowAccount(s) if s.get_account().account_name == "github" && s.get_account().email.is_none()));

    session.keys(&[KeyCode::Char('e')]);
    session.text("!");
    session.keys(&[KeyCode::Up, KeyCode::Backspace, KeyCode::Char('x'), KeyCode::Enter, KeyCode::Char('y')]);
    assert_eq!(state(&session), ShowAccountState::ShowAccount);
    let mut reopened = DatabaseManager::new();
    reopened.unlock("pw", &session.files).unwrap();
    let accounts = reopened.get_database_context().unwrap().list_all_accounts().unwrap();
    assert_eq!(accounts.len(), 1);
    assert_eq!(accounts[0].account_name, "github!");
    assert_eq!(accounts[0].password, "abx");
    assert_eq!(accounts[0].email, None);
    assert!(accounts[0].updated_at > accounts[0].created_at);
}

#[test]
fn an_account_is_deleted() {
    let mut session = set_up("pw");
    add(&mut session, "a", "1");
    add(&mut session, "b", "2");
    open_first_account(&mut session);
    session.keys(&[KeyCode::Char('d'), KeyCode::Char('n')]);
    assert!(matches!(session.screen(), StateItem::ShowAccount(s) if s.get_state() == ShowAccountState::ShowAccount));
    assert_eq!(session.names(), vec!["a", "b"]);
    session.keys(&[KeyCode::Char('d'), KeyCode::Char('y')]);
    assert!(matches!(session.screen(), StateItem::MainMenu(_)));
    assert_eq!(session.names(), vec!["b"]);
    let mut reopened = DatabaseManager::new();
    reopened.unlock("pw", &session.files).unwrap();
    assert_eq!(reopened.get_database_context().unwrap().list_all_accounts().unwrap().len(), 1);
}

#[test]
fn a_copied_password_leaves_the_clipboard_after_thirty_seconds() {
    let mut session = set_up("pw");
    add(&mut session, "a", "secret");
    open_first_account(&mut session);
    assert!(!session.manager.update_display());
    session.keys(&[KeyCode::Char('c')]);
    assert!(matches!(session.screen(), StateItem::ShowAccount(s) if s.get_state() == ShowAccountState::CopyPassword));
    assert!(session.manager.update_display());
    assert_eq!(session.manager.take_clipboard_requests(), vec!["secret".to_string()]);
    assert!(session.shows("Copied"));
    session.keys(&[KeyCode::Char('q'), KeyCode::Char('d')]);
    session.wait(1_000);
    assert!(session.shows("Clipboard is emptied in 29s"));
    session.wait(28_999);
    assert!(matches!(session.screen(), StateItem::ShowAccount(s) if s.get_state() == ShowAccountState::CopyPassword));
    assert!(session.manager.take_clipboard_requests().is_empty());
    session.wait(1);
    assert!(matches!(session.screen(), StateItem::ShowAccount(s) if s.get_state() == ShowAccountState::ShowAccount));
    session.keys(&[KeyCode::Char('q')]);
    assert!(matches!(session.screen(), StateItem::MainMenu(_)));
    assert_eq!(session.manager.take_clipboard_requests(), vec![String::new()]);
    assert!(session.manager.take_clipboard_requests().is_empty());
}

#[test]
fn the_passphrase_is_changed_from_the_menu() {
    let mut session = set_up("old");
    add(&mut session, "a", "1");
    session.keys(&[KeyCode::Char('3'), KeyCode::Enter]);
    session.enter("new");
    session.keys(&[KeyCode::Esc]);
    assert!(matches!(session.screen(), StateItem::SetAuthentication(s) if s.get_state() == SetAuthState::Cancel));
    session.keys(&[KeyCode::Char('n')]);
    session.enter("new");
    session.enter("new");
    session.wait(2_000);
    assert!(matches!(session.screen(), StateItem::MainMenu(_)));
    let mut reopened = DatabaseManager::new();
    assert_eq!(reopened.unlock("old", &session.files), Err(VaultError::WrongPassphrase));
    assert_eq!(reopened.unlock("new", &session.files), Ok(()));
    assert_eq!(reopened.get_database_context().unwrap().list_all_accounts().unwrap().len(), 1);
    session.keys(&[KeyCode::Char('3'), KeyCode::Enter, KeyCode::Esc, KeyCode::Char('y')]);
    assert!(matches!(session.screen(), StateItem::MainMenu(_)));
}

#[test]
fn the_database_is_wiped_with_the_passphrase_only() {
    let mut session = set_up("pw");
    session.keys(&[KeyCode::Char('4'), KeyCode::Enter]);
    assert!(matches!(session.screen(), StateItem::WipeDatabase(s) if s.get_wipe_state() == WipeState::ConfirmWipe));
    session.keys(&[KeyCode::Char('n')]);
    assert!(matches!(session.screen(), StateItem::MainMenu(_)));
    session.keys(&[KeyCode::Char('4'), KeyCode::Enter, KeyCode::Char('y')]);
    assert!(matches!(session.screen(), StateItem::WipeDatabase(s) if s.get_wipe_state() == WipeState::EnterPassword));
    session.enter("wrong");
    assert!(matches!(session.screen(), StateItem::WipeDatabase(s) if s.get_wipe_state() == WipeState::WipeFailure));
    assert!(session.files.directory_exists);
    session.wait(2_000);
    assert!(matches!(session.screen(), StateItem::MainMenu(_)));
    session.keys(&[KeyCode::Char('4'), KeyCode::Enter, KeyCode::Char('y')]);
    session.enter(" pw ");
    assert!(matches!(session.screen(), StateItem::WipeDatabase(s) if s.get_wipe_state() == WipeState::WipeFailure));
    assert!(session.files.directory_exists);
    session.wait(2_000);
    assert!(matches!(session.screen(), StateItem::MainMenu(_)));
    session.keys(&[KeyCode::Char('4'), KeyCode::Enter, KeyCode::Char('y')]);
    session.enter("pw");
    assert!(matches!(session.screen(), StateItem::WipeDatabase(s) if s.get_wipe_state() == WipeState::WipeSuccess));
    assert!(!session.files.directory_exists);
    assert!(session.files.password_file.is_none());
    assert!(session.files.db_file.is_none());
    assert!(session.manager.is_running());
    session.wait(2_000);
    assert!(!session.manager.is_running());
    assert_eq!(session.manager.get_failure(), None);
}

#[test]
fn failures_stop_the_engine() {
    let files = VaultFiles { directory_exists: true, password_file: Some("broken".into()), db_file: Some(vec![]) };
    let mut session = Session::start(files);
    session.wait(2_000);
    assert!(!session.manager.is_running());
    assert_eq!(
        session.manager.get_failure(),
        Some(VaultError::Format(rusty_password_manager::encryption_controller::FormatError::MissingField))
    );
    assert!(matches!(session.screen(), StateItem::Startup(_)));

    let mut corrupt = set_up("pw").files;
    corrupt.db_file = Some(vec![0; 40]);
    let mut session = Session::start(corrupt);
    session.wait(2_000);
    session.enter("nope");
    assert!(session.manager.is_running());
    session.keys(&[KeyCode::Enter]);
    session.enter("pw");
    assert!(!session.manager.is_running());
    assert_eq!(session.manager.get_failure(), Some(VaultError::CorruptVault));

    let mut session = Session::start(VaultFiles::new());
    session.wait(2_000);
    session.keys(&[KeyCode::Esc, KeyCode::Char('y')]);
    assert!(matches!(session.screen(), StateItem::MainMenu(_)));
    session.keys(&[KeyCode::Char('2'), KeyCode::Enter]);
    assert!(!session.manager.is_running());
    assert_eq!(session.manager.get_failure(), Some(VaultError::Locked));
    let record = PasswordEncryption::generate_new("x").unwrap();
    assert!(record.verify_string("x"));
}
