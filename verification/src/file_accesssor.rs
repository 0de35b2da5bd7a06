//! The two files of a vault, as the library sees them: a plain value that
//! the program reads from disk before it calls the library and writes back
//! afterwards. Nothing here touches the disk.

use vstd::prelude::*;

verus! {

/// What the vault's directory holds: whether it is there, the text of the
/// key file and the bytes of the database file.
pub struct VaultFiles {
    pub directory_exists: bool,
    pub password_file: Option<String>,
    pub db_file: Option<Vec<u8>>,
}

/// What a `VaultFiles` holds.
pub struct VaultFilesView {
    pub directory_exists: bool,
    pub password_file: Option<Seq<char>>,
    pub db_file: Option<Seq<u8>>,
}

impl View for VaultFiles {
    type V = VaultFilesView;

    open spec fn view(&self) -> VaultFilesView {
        VaultFilesView {
            directory_exists: self.directory_exists,
            password_file: match self.password_file {
                Some(t) => Some(t@),
                None => None,
            },
            db_file: match self.db_file {
                Some(b) => Some(b@),
                None => None,
            },
        }
    }
}

/// A file could not be written because its directory is missing, or the
/// directory could not be made because it is there.
#[derive(Clone, Copy, Debug, PartialEq, Eq, Structural)]
pub struct IoFailure;

impl VaultFiles {
    /// No directory and no files: no vault exists yet.
    pub fn new() -> (files: VaultFiles)
        ensures
            files@ == (VaultFilesView { directory_exists: false, password_file: None, db_file: None }),
    {
        VaultFiles { directory_exists: false, password_file: None, db_file: None }
    }
}

/// Whether a vault exists: the directory and both files are there.
pub open spec fn vault_exists(files: VaultFilesView) -> bool {
    files.directory_exists && files.db_file is Some && files.password_file is Some
}

/// Whether a vault exists: the directory and both files are there.
pub fn does_directory_and_files_exist(files: &VaultFiles) -> (exists: bool)
    ensures
        exists == vault_exists(files@),
{
    if !files.directory_exists {
        return false;
    }
    if files.db_file.is_none() {
        return false;
    }
    if files.password_file.is_none() {
        return false;
    }
    true
}

/// Removes the directory with what is in it, if it is there.
pub fn delete_directory_and_files(files: &mut VaultFiles)
    ensures
        final(files)@ == (if old(files).directory_exists {
            VaultFilesView { directory_exists: false, password_file: None, db_file: None }
        } else {
            old(files)@
        }),
{
    if files.directory_exists {
        files.directory_exists = false;
        files.password_file = None;
        files.db_file = None;
    }
}

/// Writes the key file. It fails, and changes nothing, where the directory
/// is missing.
pub fn write_password_to_disk(files: &mut VaultFiles, pwd_cipher: String) -> (done: Result<(), IoFailure>)
    ensures
        done is Ok == old(files).directory_exists,
        final(files)@ == (if old(files).directory_exists {
            VaultFilesView { password_file: Some(pwd_cipher@), ..old(files)@ }
        } else {
            old(files)@
        }),
{
    if !files.directory_exists {
        return Err(IoFailure);
    }
    files.password_file = Some(pwd_cipher);
    Ok(())
}

/// Writes the database file. It fails, and changes nothing, where the
/// directory is missing.
pub fn write_db_to_disk(files: &mut VaultFiles, db_cipher: Vec<u8>) -> (done: Result<(), IoFailure>)
    ensures
        done is Ok == old(files).directory_exists,
        final(files)@ == (if old(files).directory_exists {
            VaultFilesView { db_file: Some(db_cipher@), ..old(files)@ }
        } else {
            old(files)@
        }),
{
    if !files.directory_exists {
        return Err(IoFailure);
    }
    files.db_file = Some(db_cipher);
    Ok(())
}

/// The text of the key file, if it is there.
pub fn read_password_from_disk(files: &VaultFiles) -> (text: Option<String>)
    ensures
        text is Some == files@.password_file is Some,
        text matches Some(t) ==> files@.password_file == Some(t@),
{
    match &files.password_file {
        Some(t) => Some(t.clone()),
        None => None,
    }
}

/// The bytes of the database file, if it is there.
pub fn read_db_from_disk(files: &VaultFiles) -> (bytes: Option<Vec<u8>>)
    ensures
        bytes is Some == files@.db_file is Some,
        bytes matches Some(b) ==> files@.db_file == Some(b@),
{
    match &files.db_file {
        Some(b) => Some(b.clone()),
        None => None,
    }
}

/// Makes the directory anew with both files in it. A vault that exists is
/// removed first. It fails, and changes nothing, where the directory is
/// there without being a whole vault.
pub fn create_directory_and_files(files: &mut VaultFiles, db_cipher: Vec<u8>, pwd_cipher: String) -> (done: Result<
    (),
    IoFailure,
>)
    ensures
        done is Ok == (vault_exists(old(files)@) || !old(files).directory_exists),
        final(files)@ == (if done is Ok {
            VaultFilesView { directory_exists: true, password_file: Some(pwd_cipher@), db_file: Some(db_cipher@) }
        } else {
            old(files)@
        }),
{
    if files.directory_exists && !does_directory_and_files_exist(files) {
        return Err(IoFailure);
    }
    files.directory_exists = true;
    files.password_file = Some(pwd_cipher);
    files.db_file = Some(db_cipher);
    Ok(())
}

} // verus!
