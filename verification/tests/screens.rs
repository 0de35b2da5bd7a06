use rusty_password_manager::add_account_state_item::AddEntryStateItem;
use rusty_password_manager::authentication_state_item::{AuthenticationStateItem, LockState};
use rusty_password_manager::database_context::{Account, DatabaseManager, VaultError};
use rusty_password_manager::deferred_signal::Clock;
use rusty_password_manager::encryption_controller::{FormatError, PasswordEncryption};
use rusty_password_manager::file_accesssor::VaultFiles;
use rusty_password_manager::input_handler::KeyCode;
use rusty_password_manager::main_menu_state_item::MainMenuStateItem;
use rusty_password_manager::set_authentication_state_item::SetAuthenticationStateItem;
use rusty_password_manager::show_account_state_item::{ShowAccountState, ShowAccountStateItem};
use rusty_password_manager::startup_state_item::StartupStateItem;
use rusty_password_manager::state_item::StateItem;
use rusty_password_manager::terminal_context::{DrawCommand, StyleAttribute, TerminalContext};
use rusty_password_manager::texts::{
    Account as AccountTexts, AddAccount, Auth, Input, ListAccounts, MainMenu, Misc, Password, ShowAccount, Texts, Wipe,
};
use rusty_password_manager::transition::Transition;
use rusty_password_manager::wipe_database_state_item::{WipeDatabaseStateItem, WipeState};

fn texts() -> Texts {
    let s = |t: &str| t.to_string();
    Texts {
        misc: Misc { welcome: s("Welcome"), confirm_input: s("[Y]es | [N]o") },
        input: Input {
            up_arrow: s("up"),
            down_arrow: s("down"),
            left_arrow: s("left"),
            right_arrow: s("right"),
            enter: s("enter"),
            escape: s("esc"),
        },
        main_menu: MainMenu {
            heading: s("Main menu"),
            add_account: s("Add"),
            list_accounts: s("List"),
            set_master_pwd: s("Set"),
            wipe_database: s("Wipe"),
            exit: s("Exit"),
        },
        account: AccountTexts { account_name: s("Account"), email: s("E-mail"), password: s("Password") },
        add_account: AddAccount {
            heading: s("Add account"),
            account_exists: s("Taken:"),
            add_email_question: s("Add an e-mail address?"),
            generate_pwd_question: s("Generate a password?"),
            pwd_generated: s("Password generated"),
            pwd_set: s("Password set"),
            cancel_question: s("Give up?"),
        },
        list_accounts: ListAccounts { heading: s("Accounts"), search: s("Search"), search_input: s("[s]"), quit_input: s("[q]") },
        show_account: ShowAccount {
            heading: s("Account"),
            delete_question: s("Delete?"),
            save_question: s("Save?"),
            copy_msg: s("Copied"),
            copy_countdown: s("Left:"),
            copy_input: s("[c]"),
            edit_input: s("[e]"),
            delete_input: s("[d]"),
            quit_input: s("[q]"),
        },
        auth: Auth {
            enter_pwd_promt: s("Password?"),
            invalid_pwd: s("Wrong"),
            valid_pwd: s("Unlocked"),
            set_new_master_pwd: s("Set a master password"),
            confirm_new_master_pwd: s("Once more"),
            master_password_set: s("Set"),
            confirm_failed: s("The two differ"),
            cancel_question: s("Give up?"),
        },
        wipe: Wipe {
            are_you_sure_question: s("Wipe?"),
            warning: s("No way back"),
            delete_msg: s("Wiping"),
            enter_pwd_request: s("Master password"),
            success_msg: s("Wiped"),
            failure_msg: s("Not wiped"),
        },
        password: Password { symbols: s("*") },
    }
}

#[derive(Debug, PartialEq)]
enum Drawn {
    Clear,
    Border,
    Line(u16, u16, u16),
    Text(u16, u16, String),
    Styled(u16, u16, String, StyleAttribute),
    Cursor(u16, u16),
    Restore,
}

fn text(x: u16, y: u16, content: &str) -> Drawn {
    Drawn::Text(x, y, content.to_string())
}

fn frame_of(context: &mut TerminalContext) -> Vec<Drawn> {
    context
        .take_frame()
        .into_iter()
        .map(|c| match c {
            DrawCommand::Clear => Drawn::Clear,
            DrawCommand::Border => Drawn::Border,
            DrawCommand::Line { x, y, width } => Drawn::Line(x, y, width),
            DrawCommand::Text { x, y, content, style: None } => Drawn::Text(x, y, content),
            DrawCommand::Text { x, y, content, style: Some(style) } => Drawn::Styled(x, y, content, style),
            DrawCommand::Cursor { x, y } => Drawn::Cursor(x, y),
            DrawCommand::Restore => Drawn::Restore,
        })
        .collect()
}

fn context() -> TerminalContext {
    let mut context = TerminalContext::new(0, 0, 60, 20);
    context.take_frame();
    context
}

fn vault(passphrase: &str) -> (DatabaseManager, VaultFiles) {
    let mut files = VaultFiles::new();
    let mut manager = DatabaseManager::new();
    manager.create_new_database(&PasswordEncryption::generate_new(passphrase).unwrap(), &mut files).unwrap();
    (manager, files)
}

#[test]
fn the_welcome_stands_in_the_middle() {
    let mut context = context();
    StartupStateItem::new(0, &VaultFiles::new()).display(&mut context, &texts());
    assert_eq!(frame_of(&mut context), vec![text(26, 10, "Welcome")]);
    let screen = StateItem::Startup(StartupStateItem::new(0, &VaultFiles::new()));
    screen.display_content(&mut context, &texts(), 0);
    assert_eq!(frame_of(&mut context), vec![Drawn::Clear, Drawn::Border, text(26, 10, "Welcome")]);
}

#[test]
fn the_menu_is_drawn_with_its_selection() {
    let mut context = context();
    let mut menu = MainMenuStateItem::new(&texts());
    menu.register_input(KeyCode::Down);
    menu.display(&mut context, &texts());
    assert_eq!(
        frame_of(&mut context),
        vec![
            text(25, 6, "Main menu"),
            text(0, 8, "Add"),
            Drawn::Styled(0, 9, "List".to_string(), StyleAttribute::InverseColor),
            text(0, 10, "Set"),
            text(0, 11, "Wipe"),
            text(0, 12, "Exit"),
            Drawn::Line(0, 18, 59),
            text(0, 19, "down|up|enter"),
        ]
    );
    assert!(menu.next_state().is_none());
    menu.register_input(KeyCode::Enter);
    assert!(matches!(menu.next_state(), Some(Transition::ToListAccounts)));
    menu.register_input(KeyCode::Char('5'));
    assert!(matches!(menu.next_state(), Some(Transition::ToListAccounts)));
    menu.register_input(KeyCode::Enter);
    assert!(matches!(menu.next_state(), Some(Transition::ToExit)));
    for (key, target) in [('1', 0), ('2', 1), ('3', 2), ('4', 3)] {
        let mut menu = MainMenuStateItem::new(&texts());
        menu.register_input(KeyCode::Char(key));
        menu.register_input(KeyCode::Enter);
        let index = match menu.next_state() {
            Some(Transition::ToAddAccount) => 0,
            Some(Transition::ToListAccounts) => 1,
            Some(Transition::ToChangeAuthentication) => 2,
            Some(Transition::ToWipeDatabase) => 3,
            _ => 9,
        };
        assert_eq!(index, target);
    }
}

#[test]
fn the_passphrase_screen_hides_what_is_typed() {
    let (_, files) = vault("pw");
    let symbols = texts().password;
    let mut screen = AuthenticationStateItem::new(&files, &symbols).unwrap();
    let mut context = context();
    screen.display(&mut context, &texts());
    assert_eq!(
        frame_of(&mut context),
        vec![text(25, 10, "Password?"), Drawn::Line(0, 18, 59), text(0, 19, "enter"), Drawn::Cursor(25, 11)]
    );
    let mut manager = DatabaseManager::new();
    screen.register_input(KeyCode::Char('p'), 0, &mut manager, &files, &symbols).unwrap();
    screen.display(&mut context, &texts());
    assert_eq!(
        frame_of(&mut context),
        vec![
            text(25, 10, "Password?"),
            text(25, 11, &"*".repeat(30)),
            Drawn::Line(0, 18, 59),
            text(0, 19, "enter"),
            Drawn::Cursor(25, 11)
        ]
    );
    screen.register_input(KeyCode::Enter, 0, &mut manager, &files, &symbols).unwrap();
    assert_eq!(screen.get_lock_state(), LockState::Invalid);
    screen.display(&mut context, &texts());
    assert_eq!(frame_of(&mut context), vec![text(27, 10, "Wrong"), Drawn::Line(0, 18, 59), text(0, 19, "enter")]);
    assert!(screen.next_state(u64::MAX).is_none());
    screen.register_input(KeyCode::Enter, 0, &mut manager, &files, &symbols).unwrap();
    screen.register_input(KeyCode::Char('p'), 0, &mut manager, &files, &symbols).unwrap();
    screen.register_input(KeyCode::Char('w'), 0, &mut manager, &files, &symbols).unwrap();
    screen.register_input(KeyCode::Enter, 7_000, &mut manager, &files, &symbols).unwrap();
    assert_eq!(screen.get_lock_state(), LockState::Unlocked);
    assert!(manager.is_open());
    screen.display(&mut context, &texts());
    assert_eq!(frame_of(&mut context), vec![text(26, 10, "Unlocked")]);
    assert!(screen.next_state(7_999).is_none());
    assert!(matches!(screen.next_state(8_000), Some(Transition::ToMainMenu)));
}

#[test]
fn the_passphrase_screen_needs_a_key_file() {
    let symbols = texts().password;
    assert_eq!(AuthenticationStateItem::new(&VaultFiles::new(), &symbols).err(), Some(VaultError::IoFailure));
    let broken = VaultFiles { directory_exists: true, password_file: Some("x".into()), db_file: None };
    assert_eq!(
        AuthenticationStateItem::new(&broken, &symbols).err(),
        Some(VaultError::Format(FormatError::MissingField))
    );
}

#[test]
fn setting_a_passphrase_draws_its_steps() {
    let mut screen = SetAuthenticationStateItem::new();
    let mut context = context();
    screen.display(&mut context, &texts());
    assert_eq!(
        frame_of(&mut context),
        vec![
            text(15, 9, "Set a master password"),
            text(15, 10, ""),
            Drawn::Line(0, 18, 59),
            text(0, 19, "enter"),
            Drawn::Cursor(15, 10)
        ]
    );
    let mut manager = DatabaseManager::new();
    let mut files = VaultFiles::new();
    screen.register_input(KeyCode::Esc, 0, &mut manager, &mut files).unwrap();
    screen.display(&mut context, &texts());
    assert_eq!(
        frame_of(&mut context),
        vec![text(26, 10, "Give up?"), Drawn::Line(0, 17, 59), text(0, 18, ""), text(0, 19, "[Y]es | [N]o")]
    );
    assert!(screen.next_state(0).is_none());
    screen.register_input(KeyCode::Char('y'), 0, &mut manager, &mut files).unwrap();
    assert!(matches!(screen.next_state(0), Some(Transition::ToMainMenu)));
}

#[test]
fn wiping_draws_its_steps() {
    let symbols = texts().password;
    let mut screen = WipeDatabaseStateItem::new(&symbols);
    let mut context = context();
    screen.display(&mut context, &texts());
    assert_eq!(
        frame_of(&mut context),
        vec![text(27, 10, "Wipe?"), text(24, 11, "No way back"), Drawn::Line(0, 18, 59), text(0, 19, "[Y]es | [N]o")]
    );
    let (_, mut files) = vault("pw");
    screen.register_input(KeyCode::Char('y'), 0, &mut files).unwrap();
    assert_eq!(screen.get_wipe_state(), WipeState::EnterPassword);
    screen.register_input(KeyCode::Char('p'), 0, &mut files).unwrap();
    screen.display(&mut context, &texts());
    assert_eq!(
        frame_of(&mut context),
        vec![
            text(27, 10, "Wiping"),
            Drawn::Line(0, 17, 59),
            text(0, 18, "Master password"),
            text(0, 19, &"*".repeat(30)),
            Drawn::Cursor(30, 19)
        ]
    );
    files.password_file = Some("broken".to_string());
    assert_eq!(
        screen.register_input(KeyCode::Enter, 0, &mut files),
        Err(VaultError::Format(FormatError::MissingField))
    );
    assert_eq!(screen.get_wipe_state(), WipeState::EnterPassword);
    files.password_file = None;
    assert_eq!(screen.register_input(KeyCode::Enter, 0, &mut files), Err(VaultError::IoFailure));
}

#[test]
fn adding_draws_what_was_entered() {
    let symbols = texts().password;
    let (mut manager, mut files) = vault("pw");
    let mut screen = AddEntryStateItem::new(&symbols);
    let clock = Clock { millis: 0, unix_seconds: 50 };
    for key in [KeyCode::Char('a'), KeyCode::Char('b')] {
        screen.register_input(key, clock, &mut manager, &mut files, &symbols).unwrap();
    }
    let mut context = context();
    screen.display(&mut context, &texts());
    assert_eq!(
        frame_of(&mut context),
        vec![
            text(0, 0, "Add account"),
            text(0, 2, "Account"),
            text(0, 5, "E-mail"),
            text(0, 8, "Password"),
            Drawn::Line(0, 17, 59),
            text(0, 18, "Account"),
            text(0, 19, "ab"),
            Drawn::Cursor(2, 19)
        ]
    );
    for key in [KeyCode::Enter, KeyCode::Char('n'), KeyCode::Char('n'), KeyCode::Char('x'), KeyCode::Enter] {
        screen.register_input(key, clock, &mut manager, &mut files, &symbols).unwrap();
    }
    screen.display(&mut context, &texts());
    assert_eq!(
        frame_of(&mut context),
        vec![
            text(0, 0, "Add account"),
            text(0, 2, "Account"),
            text(0, 3, "ab"),
            text(0, 5, "E-mail"),
            text(0, 6, ""),
            text(0, 8, "Password"),
            text(0, 9, &"*".repeat(30)),
            Drawn::Line(0, 18, 59),
            text(0, 19, "Password set")
        ]
    );
    let mut again = AddEntryStateItem::new(&symbols);
    for key in [KeyCode::Char('A'), KeyCode::Enter] {
        again.register_input(key, clock, &mut manager, &mut files, &symbols).unwrap();
    }
    again.display(&mut context, &texts());
    assert_eq!(frame_of(&mut context), vec![text(26, 10, "Taken: A")]);
    let mut locked = DatabaseManager::new();
    let mut third = AddEntryStateItem::new(&symbols);
    assert_eq!(
        third.register_input(KeyCode::Enter, clock, &mut locked, &mut files, &symbols),
        Err(VaultError::Locked)
    );
}

#[test]
fn an_account_is_drawn_with_the_edited_value_set_off() {
    let symbols = texts().password;
    let account = Account {
        id: 1,
        account_name: "github".to_string(),
        password: "abc".to_string(),
        email: None,
        created_at: 1,
        updated_at: 1,
    };
    let mut screen = ShowAccountStateItem::new(account, &symbols);
    let mut context = context();
    screen.display(&mut context, &texts(), 0);
    assert_eq!(
        frame_of(&mut context),
        vec![
            Drawn::Styled(0, 0, "Account".to_string(), StyleAttribute::Underline),
            text(0, 2, "Account"),
            text(0, 3, "github"),
            text(0, 5, "E-mail"),
            text(0, 6, ""),
            text(0, 8, "Password"),
            text(0, 9, &"*".repeat(30)),
            Drawn::Line(0, 18, 59),
            text(0, 19, "[e]|[d]|[c]|[q]")
        ]
    );
    let (mut manager, mut files) = vault("pw");
    let clock = Clock { millis: 5_000, unix_seconds: 9 };
    for key in [KeyCode::Char('e'), KeyCode::Up] {
        screen.register_input(key, clock, &mut manager, &mut files, &symbols).unwrap();
    }
    assert_eq!(screen.get_state(), ShowAccountState::EditPassword);
    screen.display(&mut context, &texts(), 0);
    let frame = frame_of(&mut context);
    assert_eq!(frame[5], Drawn::Styled(0, 8, "Password".to_string(), StyleAttribute::Bold));
    assert_eq!(frame[6], text(0, 9, "abc"));
    assert_eq!(frame[9], Drawn::Cursor(0, 9));
    screen.register_input(KeyCode::Down, clock, &mut manager, &mut files, &symbols).unwrap();
    screen.display(&mut context, &texts(), 0);
    let frame = frame_of(&mut context);
    assert_eq!(frame[1], Drawn::Styled(0, 2, "Account".to_string(), StyleAttribute::Bold));
    assert_eq!(frame[2], Drawn::Styled(0, 3, "github".to_string(), StyleAttribute::InverseColor));
    assert_eq!(frame[6], text(0, 9, &"*".repeat(30)));
    assert_eq!(frame[9], Drawn::Cursor(6, 3));
    for key in [KeyCode::Enter, KeyCode::Char('n')] {
        let done = screen.register_input(key, clock, &mut manager, &mut files, &symbols);
        if key == KeyCode::Enter {
            assert_eq!(done, Ok(()));
        } else {
            assert_eq!(done, Err(VaultError::UnknownAccount));
        }
    }
    assert_eq!(screen.get_state(), ShowAccountState::SaveChanges);
}

fn copy_of(files: &VaultFiles) -> VaultFiles {
    VaultFiles {
        directory_exists: files.directory_exists,
        password_file: files.password_file.clone(),
        db_file: files.db_file.clone(),
    }
}

fn keys_of(text: &str) -> Vec<KeyCode> {
    text.chars().map(KeyCode::Char).collect()
}

#[test]
fn the_passphrase_screen_says_why_the_vault_does_not_unlock() {
    let symbols = texts().password;
    let (mut open, files) = vault("pw");
    let mut screen = AuthenticationStateItem::new(&files, &symbols).unwrap();
    for key in keys_of("pw") {
        screen.register_input(key, 0, &mut open, &files, &symbols).unwrap();
    }
    assert_eq!(screen.register_input(KeyCode::Enter, 0, &mut open, &files, &symbols), Err(VaultError::NotLocked));
    assert_eq!(screen.get_lock_state(), LockState::Locked);
    assert!(open.is_open());

    let mut locked = DatabaseManager::new();
    let mut without = copy_of(&files);
    without.db_file = None;
    assert_eq!(screen.register_input(KeyCode::Enter, 0, &mut locked, &without, &symbols), Err(VaultError::IoFailure));
    let mut changed = copy_of(&files);
    let last = changed.db_file.as_ref().unwrap().len() - 1;
    changed.db_file.as_mut().unwrap()[last] ^= 1;
    assert_eq!(screen.register_input(KeyCode::Enter, 0, &mut locked, &changed, &symbols), Err(VaultError::CorruptVault));
    assert!(!locked.is_open());
    assert_eq!(screen.register_input(KeyCode::Enter, 0, &mut locked, &files, &symbols), Ok(()));
    assert_eq!(screen.get_lock_state(), LockState::Unlocked);
    assert!(locked.is_open());
}

#[test]
fn a_passphrase_is_not_stored_over_a_locked_vault_or_in_half_a_directory() {
    let (_, files) = vault("old");
    let enter_twice = |manager: &mut DatabaseManager, files: &mut VaultFiles| {
        let mut screen = SetAuthenticationStateItem::new();
        for _ in 0..2 {
            for key in keys_of("new") {
                screen.register_input(key, 0, manager, files).unwrap();
            }
            let done = screen.register_input(KeyCode::Enter, 0, manager, files);
            if done.is_err() {
                return done;
            }
        }
        Ok(())
    };
    let mut locked = DatabaseManager::new();
    let mut kept = copy_of(&files);
    assert_eq!(enter_twice(&mut locked, &mut kept), Err(VaultError::Locked));
    assert_eq!(kept.password_file, files.password_file);
    assert_eq!(kept.db_file, files.db_file);

    let mut half = VaultFiles { directory_exists: true, password_file: None, db_file: None };
    assert_eq!(enter_twice(&mut locked, &mut half), Err(VaultError::IoFailure));
    assert!(half.password_file.is_none() && half.db_file.is_none());
    assert!(!locked.is_open());

    let mut fresh = VaultFiles::new();
    assert_eq!(enter_twice(&mut locked, &mut fresh), Ok(()));
    assert!(locked.is_open());
    let record = PasswordEncryption::create_from_string(fresh.password_file.clone().unwrap()).unwrap();
    assert!(record.verify_string("new"));
    let mut again = DatabaseManager::new();
    assert_eq!(again.unlock("new", &fresh), Ok(()));

    let mut unlocked = DatabaseManager::new();
    unlocked.unlock("old", &files).unwrap();
    unlocked.add_account("a", "b", None, 1).unwrap();
    let mut replaced = copy_of(&files);
    assert_eq!(enter_twice(&mut unlocked, &mut replaced), Ok(()));
    let mut reopened = DatabaseManager::new();
    assert_eq!(reopened.unlock("old", &replaced), Err(VaultError::WrongPassphrase));
    assert_eq!(reopened.unlock("new", &replaced), Ok(()));
    assert_eq!(reopened.get_database_context().unwrap().list_all_accounts().unwrap().len(), 1);
}

#[test]
fn adding_to_a_locked_vault_is_refused() {
    let symbols = texts().password;
    let mut locked = DatabaseManager::new();
    let mut files = VaultFiles::new();
    let mut screen = AddEntryStateItem::new(&symbols);
    let clock = Clock { millis: 0, unix_seconds: 50 };
    screen.register_input(KeyCode::Char('a'), clock, &mut locked, &mut files, &symbols).unwrap();
    assert_eq!(
        screen.register_input(KeyCode::Enter, clock, &mut locked, &mut files, &symbols),
        Err(VaultError::Locked)
    );
    assert!(!locked.is_open());
    assert!(!files.directory_exists);
}

#[test]
fn an_account_that_cannot_be_saved_stays_in_the_store_only() {
    let symbols = texts().password;
    let (mut manager, files) = vault("pw");
    let mut nowhere = VaultFiles::new();
    let mut screen = AddEntryStateItem::new(&symbols);
    let clock = Clock { millis: 0, unix_seconds: 50 };
    for key in [KeyCode::Char('a'), KeyCode::Enter, KeyCode::Char('n'), KeyCode::Char('n'), KeyCode::Char('p')] {
        screen.register_input(key, clock, &mut manager, &mut nowhere, &symbols).unwrap();
    }
    assert_eq!(
        screen.register_input(KeyCode::Enter, clock, &mut manager, &mut nowhere, &symbols),
        Err(VaultError::IoFailure)
    );
    assert!(!nowhere.directory_exists && nowhere.db_file.is_none());
    let held = manager.get_database_context().unwrap().list_all_accounts().unwrap();
    assert_eq!(held.len(), 1);
    assert_eq!((held[0].account_name.as_str(), held[0].password.as_str()), ("a", "p"));
    let mut reopened = DatabaseManager::new();
    reopened.unlock("pw", &files).unwrap();
    assert!(reopened.get_database_context().unwrap().list_all_accounts().unwrap().is_empty());
}

#[test]
fn deleting_without_a_directory_fails_after_the_store_changed() {
    let symbols = texts().password;
    let (mut manager, _) = vault("pw");
    manager.add_account("a", "b", None, 1).unwrap();
    let account = manager.get_database_context().unwrap().list_all_accounts().unwrap().remove(0);
    let mut screen = ShowAccountStateItem::new(account, &symbols);
    let clock = Clock { millis: 0, unix_seconds: 9 };
    let mut nowhere = VaultFiles::new();
    screen.register_input(KeyCode::Char('d'), clock, &mut manager, &mut nowhere, &symbols).unwrap();
    assert_eq!(screen.get_state(), ShowAccountState::DeleteAccount);
    assert_eq!(
        screen.register_input(KeyCode::Char('y'), clock, &mut manager, &mut nowhere, &symbols),
        Err(VaultError::IoFailure)
    );
    assert_eq!(screen.get_state(), ShowAccountState::DeleteAccount);
    assert!(screen.next_state().is_none());
    assert!(manager.get_database_context().unwrap().list_all_accounts().unwrap().is_empty());
    assert!(!nowhere.directory_exists);
}
