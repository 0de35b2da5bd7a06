use rusty_password_manager::database_context::{
    encrypt_database, DatabaseContext, DatabaseManager, ParseError, VaultError,
};
use rusty_password_manager::encryption_controller::{FormatError, PasswordEncryption};
use rusty_password_manager::file_accesssor::{
    create_directory_and_files, delete_directory_and_files, does_directory_and_files_exist,
    read_db_from_disk, read_password_from_disk, write_db_to_disk, write_password_to_disk, IoFailure,
    VaultFiles,
};

fn names(manager: &DatabaseManager) -> Vec<(String, String)> {
    manager
        .get_database_context()
        .unwrap()
        .list_all_accounts()
        .unwrap()
        .iter()
        .map(|a| (a.account_name.clone(), a.password.clone()))
        .collect()
}

fn new_vault(passphrase: &str) -> (DatabaseManager, VaultFiles) {
    let mut files = VaultFiles::new();
    let mut manager = DatabaseManager::new();
    let record = PasswordEncryption::generate_new(passphrase).unwrap();
    manager.create_new_database(&record, &mut files).unwrap();
    (manager, files)
}

fn snapshot(files: &VaultFiles) -> (bool, Option<String>, Option<Vec<u8>>) {
    (files.directory_exists, files.password_file.clone(), files.db_file.clone())
}

#[test]
fn a_new_manager_is_locked() {
    let manager = DatabaseManager::new();
    assert!(!manager.is_open());
    assert!(manager.get_database_context().is_none());
}

#[test]
fn add_then_reopen() {
    let (mut manager, mut files) = new_vault("hunter2");
    assert!(manager.is_open());
    assert!(names(&manager).is_empty());
    manager.add_account("github", "abc123", None, 1_700_000_000).unwrap();
    manager.safe_database(&mut files).unwrap();

    let mut restarted = DatabaseManager::new();
    assert_eq!(restarted.unlock("hunter2", &files), Ok(()));
    assert!(restarted.is_open());
    assert_eq!(names(&restarted), vec![("github".to_string(), "abc123".to_string())]);
    let account = &restarted.get_database_context().unwrap().list_all_accounts().unwrap()[0];
    assert_eq!(account.id, 1);
    assert_eq!(account.email, None);
    assert_eq!(account.created_at, 1_700_000_000);
}

#[test]
fn wrong_passphrase_three_times_then_the_right_one() {
    let (mut manager, mut files) = new_vault("hunter2");
    manager.add_account("github", "abc123", None, 5).unwrap();
    manager.safe_database(&mut files).unwrap();
    let before = snapshot(&files);

    let mut restarted = DatabaseManager::new();
    for wrong in ["hunter3", "", "HUNTER2"] {
        assert_eq!(restarted.unlock(wrong, &files), Err(VaultError::WrongPassphrase));
        assert!(!restarted.is_open());
        assert!(restarted.get_database_context().is_none());
        assert_eq!(snapshot(&files), before);
    }
    assert_eq!(restarted.unlock("hunter2", &files), Ok(()));
    assert!(restarted.is_open());
    assert_eq!(names(&restarted).len(), 1);
    assert_eq!(snapshot(&files), before);
}

#[test]
fn unlocking_twice_is_refused() {
    let (mut manager, files) = new_vault("hunter2");
    assert_eq!(manager.unlock("hunter2", &files), Err(VaultError::NotLocked));
    assert!(manager.is_open());
}

#[test]
fn what_is_not_saved_is_not_there_after_a_restart() {
    let (mut manager, mut files) = new_vault("pw");
    manager.add_account("kept", "1", None, 1).unwrap();
    manager.safe_database(&mut files).unwrap();
    manager.add_account("lost", "2", None, 2).unwrap();
    let mut restarted = DatabaseManager::new();
    restarted.unlock("pw", &files).unwrap();
    assert_eq!(names(&restarted), vec![("kept".to_string(), "1".to_string())]);
}

#[test]
fn every_save_writes_a_new_blob() {
    let (manager, mut files) = new_vault("pw");
    let first = files.db_file.clone().unwrap();
    manager.safe_database(&mut files).unwrap();
    let second = files.db_file.clone().unwrap();
    assert_eq!(first.len(), second.len());
    assert_ne!(first, second);
    assert_ne!(first[..12], second[..12]);
}

#[test]
fn a_locked_vault_does_not_save_or_change() {
    let mut manager = DatabaseManager::new();
    let mut files = VaultFiles::new();
    assert_eq!(manager.safe_database(&mut files), Err(VaultError::Locked));
    assert_eq!(manager.add_account("a", "b", None, 1), Err(VaultError::Locked));
    assert_eq!(manager.remove_account(1), Err(VaultError::Locked));
    let record = PasswordEncryption::generate_new("pw").unwrap();
    assert_eq!(manager.set_new_passkey(&record, &mut files), Err(VaultError::Locked));
    assert_eq!(snapshot(&files), (false, None, None));
}

#[test]
fn missing_files_are_io_failures() {
    let (_, files) = new_vault("pw");
    let mut manager = DatabaseManager::new();
    assert_eq!(manager.unlock("pw", &VaultFiles::new()), Err(VaultError::IoFailure));
    let no_db = VaultFiles { directory_exists: true, password_file: files.password_file.clone(), db_file: None };
    assert_eq!(manager.unlock("pw", &no_db), Err(VaultError::IoFailure));
    let no_key = VaultFiles { directory_exists: true, password_file: None, db_file: files.db_file.clone() };
    assert_eq!(manager.unlock("pw", &no_key), Err(VaultError::IoFailure));
    assert!(!manager.is_open());
}

#[test]
fn a_malformed_key_file_is_a_format_error() {
    let (_, mut files) = new_vault("pw");
    files.password_file = Some("no colon".to_string());
    let mut manager = DatabaseManager::new();
    assert_eq!(manager.unlock("pw", &files), Err(VaultError::Format(FormatError::MissingField)));
    files.password_file = Some("AAAA:AAAA".to_string());
    assert_eq!(manager.unlock("pw", &files), Err(VaultError::Format(FormatError::BadLength)));
    files.password_file = Some("*:*".to_string());
    assert_eq!(manager.unlock("pw", &files), Err(VaultError::Format(FormatError::InvalidEncoding)));
}

#[test]
fn a_changed_database_file_is_a_corrupt_vault() {
    let (_, mut files) = new_vault("pw");
    let mut blob = files.db_file.clone().unwrap();
    let last = blob.len() - 1;
    blob[last] ^= 1;
    files.db_file = Some(blob);
    let mut manager = DatabaseManager::new();
    assert_eq!(manager.unlock("pw", &files), Err(VaultError::CorruptVault));
    files.db_file = Some(vec![1, 2, 3]);
    assert_eq!(manager.unlock("pw", &files), Err(VaultError::CorruptVault));
    assert_eq!(manager.unlock("wrong", &files), Err(VaultError::WrongPassphrase));
    assert!(!manager.is_open());
}

#[test]
fn a_sealed_file_that_is_no_dump_is_a_parse_error() {
    let (_, mut files) = new_vault("pw");
    let record = PasswordEncryption::create_from_string(files.password_file.clone().unwrap()).unwrap();
    let key = record.get_encrypted_string();
    files.db_file = Some(rusty_password_manager::encryption_controller::seal(&key, b"DROP TABLE accounts;").unwrap());
    let mut manager = DatabaseManager::new();
    assert_eq!(manager.unlock("pw", &files), Err(VaultError::Parse(ParseError::Malformed)));
    files.db_file = Some(rusty_password_manager::encryption_controller::seal(&key, &[0xff]).unwrap());
    assert_eq!(manager.unlock("pw", &files), Err(VaultError::Parse(ParseError::InvalidUtf8)));
    assert_eq!(manager.unlock_with_key(&key, &files), Err(VaultError::Parse(ParseError::InvalidUtf8)));
}

#[test]
fn unlock_with_the_key_itself() {
    let (mut first, mut files) = new_vault("pw");
    first.add_account("a", "b", None, 1).unwrap();
    first.safe_database(&mut files).unwrap();
    let record = PasswordEncryption::create_from_string(files.password_file.clone().unwrap()).unwrap();
    let mut manager = DatabaseManager::new();
    assert_eq!(manager.unlock_with_key(&[0u8; 32], &files), Err(VaultError::CorruptVault));
    assert_eq!(manager.unlock_with_key(&record.get_encrypted_string(), &files), Ok(()));
    assert_eq!(names(&manager), vec![("a".to_string(), "b".to_string())]);
}

#[test]
fn a_new_passkey_replaces_key_file_and_database_file_together() {
    let (mut manager, mut files) = new_vault("old");
    manager.add_account("a", "b", None, 1).unwrap();
    manager.safe_database(&mut files).unwrap();
    let before = snapshot(&files);
    let record = PasswordEncryption::generate_new("new").unwrap();
    manager.set_new_passkey(&record, &mut files).unwrap();
    assert_ne!(files.password_file, before.1);
    assert_ne!(files.db_file, before.2);
    assert_eq!(files.password_file, Some(record.create_string()));

    let mut restarted = DatabaseManager::new();
    assert_eq!(restarted.unlock("old", &files), Err(VaultError::WrongPassphrase));
    assert_eq!(restarted.unlock("new", &files), Ok(()));
    assert_eq!(names(&restarted), vec![("a".to_string(), "b".to_string())]);
    manager.add_account("c", "d", None, 2).unwrap();
    manager.safe_database(&mut files).unwrap();
    let mut again = DatabaseManager::new();
    again.unlock("new", &files).unwrap();
    assert_eq!(names(&again).len(), 2);
}

#[test]
fn a_new_passkey_needs_the_directory() {
    let (mut manager, _) = new_vault("old");
    let mut nowhere = VaultFiles::new();
    let record = PasswordEncryption::generate_new("new").unwrap();
    assert_eq!(manager.set_new_passkey(&record, &mut nowhere), Err(VaultError::IoFailure));
    assert_eq!(manager.safe_database(&mut nowhere), Err(VaultError::IoFailure));
    assert_eq!(snapshot(&nowhere), (false, None, None));
}

#[test]
fn creating_a_vault_keeps_the_store_of_an_unlocked_one() {
    let (mut manager, _) = new_vault("old");
    manager.add_account("a", "b", None, 1).unwrap();
    let mut elsewhere = VaultFiles::new();
    let record = PasswordEncryption::generate_new("new").unwrap();
    manager.create_new_database(&record, &mut elsewhere).unwrap();
    let mut restarted = DatabaseManager::new();
    restarted.unlock("new", &elsewhere).unwrap();
    assert_eq!(names(&restarted), vec![("a".to_string(), "b".to_string())]);
}

#[test]
fn creating_a_vault_in_half_a_directory_fails() {
    let mut files = VaultFiles { directory_exists: true, password_file: None, db_file: None };
    let mut manager = DatabaseManager::new();
    let record = PasswordEncryption::generate_new("pw").unwrap();
    assert_eq!(manager.create_new_database(&record, &mut files), Err(VaultError::IoFailure));
    assert!(!manager.is_open());
    assert_eq!(snapshot(&files), (true, None, None));
}

#[test]
fn encrypt_database_seals_the_dump() {
    let mut store = DatabaseContext::new().unwrap();
    store.add_account("a", "b", None, 1).unwrap();
    let key = [4u8; 32];
    let blob = encrypt_database(&store, &key).unwrap();
    let plain = rusty_password_manager::encryption_controller::load_encrypted_db(blob, &key).unwrap();
    assert_eq!(String::from_utf8(plain).unwrap(), store.dump_db().unwrap());
}

#[test]
fn a_saved_blob_is_nonce_dump_and_tag() {
    let (mut manager, mut files) = new_vault("pw");
    let empty = manager.get_database_context().unwrap().dump_db().unwrap();
    assert_eq!(files.db_file.as_ref().unwrap().len(), 12 + empty.len() + 16);
    manager.add_account("site", "secret", Some("me@example.org".to_string()), 7).unwrap();
    manager.safe_database(&mut files).unwrap();
    let dump = manager.get_database_context().unwrap().dump_db().unwrap();
    assert!(dump.len() > empty.len());
    assert_eq!(files.db_file.as_ref().unwrap().len(), 12 + dump.len() + 16);
    let store = DatabaseContext::new().unwrap();
    let blob = encrypt_database(&store, &[9u8; 32]).unwrap();
    assert_eq!(blob.len(), 12 + store.dump_db().unwrap().len() + 16);
}

#[test]
fn a_new_vault_holds_the_key_record_as_text() {
    let mut files = VaultFiles::new();
    let mut manager = DatabaseManager::new();
    let record = PasswordEncryption::generate_new("pw").unwrap();
    manager.create_new_database(&record, &mut files).unwrap();
    assert_eq!(files.password_file, Some(record.create_string()));
    let read = PasswordEncryption::create_from_string(files.password_file.clone().unwrap()).unwrap();
    assert!(read.verify_string("pw"));
}

#[test]
fn a_passphrase_is_taken_as_it_was_typed() {
    let (_, files) = new_vault(" pw ");
    let mut manager = DatabaseManager::new();
    assert_eq!(manager.unlock("pw", &files), Err(VaultError::WrongPassphrase));
    assert_eq!(manager.unlock(" pw", &files), Err(VaultError::WrongPassphrase));
    assert_eq!(manager.unlock(" pw ", &files), Ok(()));
}

#[test]
fn the_files_model_follows_the_directory() {
    let mut files = VaultFiles::new();
    assert!(!does_directory_and_files_exist(&files));
    assert_eq!(write_password_to_disk(&mut files, "k".to_string()), Err(IoFailure));
    assert_eq!(write_db_to_disk(&mut files, vec![1]), Err(IoFailure));
    assert_eq!(read_password_from_disk(&files), None);
    assert_eq!(read_db_from_disk(&files), None);
    assert_eq!(create_directory_and_files(&mut files, vec![1, 2], "key".to_string()), Ok(()));
    assert!(does_directory_and_files_exist(&files));
    assert_eq!(read_password_from_disk(&files), Some("key".to_string()));
    assert_eq!(read_db_from_disk(&files), Some(vec![1, 2]));
    assert_eq!(write_password_to_disk(&mut files, "k2".to_string()), Ok(()));
    assert_eq!(write_db_to_disk(&mut files, vec![3]), Ok(()));
    assert_eq!(snapshot(&files), (true, Some("k2".to_string()), Some(vec![3])));
    assert_eq!(create_directory_and_files(&mut files, vec![9], "k3".to_string()), Ok(()));
    assert_eq!(snapshot(&files), (true, Some("k3".to_string()), Some(vec![9])));
    files.db_file = None;
    assert!(!does_directory_and_files_exist(&files));
    assert_eq!(create_directory_and_files(&mut files, vec![9], "k4".to_string()), Err(IoFailure));
    delete_directory_and_files(&mut files);
    assert_eq!(snapshot(&files), (false, None, None));
    delete_directory_and_files(&mut files);
    assert_eq!(snapshot(&files), (false, None, None));
}
