//! The credential store and the vault that locks it.
//!
//! The accounts live in an in-memory SQLite table, reached through
//! `rusqlite`. What the table holds has a name, `stored_rows`, and each
//! statement that the store runs is described by what it does to that name.

use vstd::prelude::*;
use crate::dump_format::{
    ascending_ids, dump_rows, dump_text, lemma_dump_roundtrip, parse_dump, parsed_dump, row_views,
    RowView, StoredRow, ACCOUNTS_SCHEMA,
};
use crate::text::{
    chars_of, contains_ignore_case, contains_ignoring_case, string_from_utf8,
};
use crate::encryption_controller::{
    derived_key, is_sealed, load_encrypted_db, opened_blob, parsed_record, passphrase_fits, record_text,
    seal, sealed_blob, FormatError, KeyError, PasswordEncryption, SealError, MAX_PLAINTEXT_BYTES, NONCE_LEN,
    TAG_LEN,
};
use crate::file_accesssor::{
    create_directory_and_files, read_db_from_disk, read_password_from_disk, vault_exists, VaultFiles,
    VaultFilesView,
};
use vstd::utf8::{decode_utf8, encode_utf8, valid_utf8};

verus! {

/// `rusqlite::Connection`: a connection to an SQLite database. Nothing of
/// its inside is seen here; what its accounts table holds is `stored_rows`.
#[verifier::external_type_specification]
#[verifier::external_body]
pub struct ExConnection(rusqlite::Connection);

/// `rusqlite::Error`: what `rusqlite` reports when a call fails. It is
/// carried out of the calls and turned into `StoreError::Engine`.
#[verifier::external_type_specification]
#[verifier::external_body]
pub struct ExSqliteError(rusqlite::Error);

/// The rows of the accounts table of a connection, by ascending id.
pub uninterp spec fn stored_rows(conn: rusqlite::Connection) -> Seq<RowView>;

/// `rows` with the name, the password, the e-mail address and the time of the
/// last change replaced in the row of this id, if there is one.
pub open spec fn rows_with_update(
    rows: Seq<RowView>,
    id: i64,
    account_name: Seq<char>,
    password: Seq<char>,
    email: Option<Seq<char>>,
    updated_at: i64,
) -> Seq<RowView> {
    rows.map_values(
        |r: RowView|
            if r.id == id {
                RowView { id, account_name, password, email, created_at: r.created_at, updated_at }
            } else {
                r
            },
    )
}

/// `rows` without the row of this id.
pub open spec fn rows_without(rows: Seq<RowView>, id: i64) -> Seq<RowView> {
    rows.filter(|r: RowView| r.id != id)
}

/// Whether `after` is `before` with one new row behind it, which holds these
/// values and a positive id above every id in `before`.
pub open spec fn is_added(
    before: Seq<RowView>,
    after: Seq<RowView>,
    account_name: Seq<char>,
    password: Seq<char>,
    email: Option<Seq<char>>,
    created_at: i64,
    updated_at: i64,
) -> bool {
    &&& after.len() == before.len() + 1
    &&& after.drop_last() == before
    &&& after.last() == RowView { id: after.last().id, account_name, password, email, created_at, updated_at }
    &&& after.last().id > 0
    &&& forall|i: int| 0 <= i < before.len() ==> (#[trigger] before[i]).id < after.last().id
}

/// What an optional text holds.
pub open spec fn optional_view(text: Option<String>) -> Option<Seq<char>> {
    match text {
        Some(t) => Some(t@),
        None => None,
    }
}

/// `Connection::open_in_memory`, then `Connection::execute` on the statement
/// that creates the accounts table. Where both succeed the table is there and
/// empty.
#[verifier::external_body]
fn open_accounts_table(statement: &str) -> (opened: Result<rusqlite::Connection, rusqlite::Error>)
    requires
        statement@ == ACCOUNTS_SCHEMA@,
    ensures
        opened matches Ok(conn) ==> stored_rows(conn) == Seq::<RowView>::empty(),
{
    let conn = rusqlite::Connection::open_in_memory()?;
    conn.execute(statement, ())?;
    Ok(conn)
}

/// `Connection::execute` on an insert statement that leaves the id to
/// SQLite. The table declares the id `INTEGER PRIMARY KEY AUTOINCREMENT`, so
/// the new row gets a positive id above every id in the table, and stands
/// last. Where the statement fails the table is as it was.
#[verifier::external_body]
fn insert_account(
    conn: &mut rusqlite::Connection,
    account_name: &str,
    password: &str,
    email: &Option<String>,
    created_at: i64,
    updated_at: i64,
) -> (done: Result<usize, rusqlite::Error>)
    ensures
        match done {
            Ok(_) => is_added(
                stored_rows(*old(conn)),
                stored_rows(*final(conn)),
                account_name@,
                password@,
                optional_view(*email),
                created_at,
                updated_at,
            ),
            Err(_) => stored_rows(*final(conn)) == stored_rows(*old(conn)),
        },
{
    conn.execute(
        "INSERT INTO accounts (account_name, password, email, created_at, updated_at) VALUES (?1, ?2, ?3, ?4, ?5)",
        (account_name, password, email, created_at, updated_at),
    )
}

/// `Connection::execute` on an insert statement that gives all six values,
/// for a row whose id is above every id in the table: the row stands last.
/// Where the statement fails the table is as it was.
#[verifier::external_body]
fn insert_row(conn: &mut rusqlite::Connection, row: &StoredRow) -> (done: Result<usize, rusqlite::Error>)
    requires
        forall|i: int| 0 <= i < stored_rows(*old(conn)).len() ==> (#[trigger] stored_rows(*old(conn))[i]).id < row.id,
    ensures
        match done {
            Ok(_) => stored_rows(*final(conn)) == stored_rows(*old(conn)).push(row@),
            Err(_) => stored_rows(*final(conn)) == stored_rows(*old(conn)),
        },
{
    conn.execute(
        "INSERT INTO accounts VALUES (?1, ?2, ?3, ?4, ?5, ?6)",
        (row.id, &row.account_name, &row.password, &row.email, row.created_at, row.updated_at),
    )
}

/// `Connection::prepare` and `Statement::query_map` on a select statement
/// over the whole table, ordered by id, each row read column by column. What
/// comes back is what the table holds.
#[verifier::external_body]
fn select_rows(conn: &rusqlite::Connection) -> (found: Result<Vec<StoredRow>, rusqlite::Error>)
    ensures
        found matches Ok(rows) ==> row_views(rows@) == stored_rows(*conn) && ascending_ids(row_views(rows@)),
{
    let mut statement = conn.prepare(
        "SELECT id, account_name, password, email, created_at, updated_at FROM accounts ORDER BY id",
    )?;
    let rows = statement.query_map((), |row| {
        Ok(StoredRow {
            id: row.get(0)?,
            account_name: row.get(1)?,
            password: row.get(2)?,
            email: row.get(3)?,
            created_at: row.get(4)?,
            updated_at: row.get(5)?,
        })
    })?;
    rows.collect()
}

/// `Connection::prepare` and `Statement::query_map` on a select statement
/// for one id. The table holds at most one row of an id; it comes back if it
/// is there.
#[verifier::external_body]
fn select_row(conn: &rusqlite::Connection, id: i64) -> (found: Result<Vec<StoredRow>, rusqlite::Error>)
    ensures
        found matches Ok(rows) ==> row_views(rows@) == stored_rows(*conn).filter(|r: RowView| r.id == id),
{
    let mut statement = conn.prepare(
        "SELECT id, account_name, password, email, created_at, updated_at FROM accounts WHERE id = ?1",
    )?;
    let rows = statement.query_map((id,), |row| {
        Ok(StoredRow {
            id: row.get(0)?,
            account_name: row.get(1)?,
            password: row.get(2)?,
            email: row.get(3)?,
            created_at: row.get(4)?,
            updated_at: row.get(5)?,
        })
    })?;
    rows.collect()
}

/// `Connection::execute` on an update statement for one id: the row of that
/// id, if there is one, gets the new values; the others stay. Where the
/// statement fails the table is as it was.
#[verifier::external_body]
fn update_row(
    conn: &mut rusqlite::Connection,
    id: i64,
    account_name: &str,
    password: &str,
    email: &Option<String>,
    updated_at: i64,
) -> (done: Result<usize, rusqlite::Error>)
    ensures
        match done {
            Ok(_) => stored_rows(*final(conn)) == rows_with_update(
                stored_rows(*old(conn)),
                id,
                account_name@,
                password@,
                optional_view(*email),
                updated_at,
            ),
            Err(_) => stored_rows(*final(conn)) == stored_rows(*old(conn)),
        },
{
    conn.execute(
        "UPDATE accounts SET account_name = ?1, password = ?2, email = ?3, updated_at = ?4 WHERE id = ?5",
        (account_name, password, email, updated_at, id),
    )
}

/// `Connection::execute` on a delete statement for one id: the row of that
/// id leaves, if there is one; the others stay. Where the statement fails
/// the table is as it was.
#[verifier::external_body]
fn delete_row(conn: &mut rusqlite::Connection, id: i64) -> (done: Result<usize, rusqlite::Error>)
    ensures
        match done {
            Ok(_) => stored_rows(*final(conn)) == rows_without(stored_rows(*old(conn)), id),
            Err(_) => stored_rows(*final(conn)) == stored_rows(*old(conn)),
        },
{
    conn.execute("DELETE FROM accounts WHERE id = ?1", (id,))
}

/// A credential record, as the screens see it.
#[derive(Clone, Debug)]
pub struct Account {
    pub id: i32,
    pub account_name: String,
    pub password: String,
    pub email: Option<String>,
    /// Seconds since the Unix epoch at which the record was added.
    pub created_at: i64,
    /// Seconds since the Unix epoch at which the record was last changed.
    pub updated_at: i64,
}

impl View for Account {
    type V = RowView;

    open spec fn view(&self) -> RowView {
        RowView {
            id: self.id as i64,
            account_name: self.account_name@,
            password: self.password@,
            email: optional_view(self.email),
            created_at: self.created_at,
            updated_at: self.updated_at,
        }
    }
}

impl Account {
    /// A copy of the account.
    pub fn duplicate(&self) -> (copy: Account)
        ensures
            copy@ == self@,
            copy.id == self.id,
    {
        Account {
            id: self.id,
            account_name: self.account_name.clone(),
            password: self.password.clone(),
            email: match &self.email {
                Some(address) => Some(address.clone()),
                None => None,
            },
            created_at: self.created_at,
            updated_at: self.updated_at,
        }
    }
}

/// What each of the accounts holds.
pub open spec fn account_views(accounts: Seq<Account>) -> Seq<RowView> {
    accounts.map_values(|a: Account| a@)
}

/// Why the store could not do what was asked.
#[derive(Clone, Copy, Debug, PartialEq, Eq, Structural)]
pub enum StoreError {
    /// SQLite reported an error.
    Engine,
    /// A row has an id that no `Account` can hold.
    IdOutOfRange,
}

/// Why a dump was not restored.
#[derive(Clone, Copy, Debug, PartialEq, Eq, Structural)]
pub enum ParseError {
    /// The bytes are not UTF-8.
    InvalidUtf8,
    /// The text is not the dump of a table.
    Malformed,
    /// The text was read, and SQLite reported an error when the rows were
    /// put in.
    Engine,
}

/// Whether every id fits an `Account`.
pub open spec fn ids_fit(rows: Seq<RowView>) -> bool {
    forall|i: int| 0 <= i < rows.len() ==> i32::MIN <= (#[trigger] rows[i]).id <= i32::MAX
}

/// The rows whose name holds `part`, capital and small ASCII letters taken as
/// the same.
pub open spec fn rows_matching(rows: Seq<RowView>, part: Seq<char>) -> Seq<RowView> {
    rows.filter(|r: RowView| contains_ignoring_case(r.account_name, part))
}

/// What is kept of rows was among them and was to be kept, and nothing that
/// was to be kept is missing.
pub proof fn lemma_filter_members(rows: Seq<RowView>, keep: spec_fn(RowView) -> bool)
    ensures
        forall|k: int|
            0 <= k < rows.filter(keep).len() ==> rows.contains(#[trigger] rows.filter(keep)[k]) && keep(
                rows.filter(keep)[k],
            ),
        forall|i: int| 0 <= i < rows.len() && keep(#[trigger] rows[i]) ==> rows.filter(keep).contains(rows[i]),
    decreases rows.len(),
{
    reveal(Seq::filter);
    if rows.len() > 0 {
        let front = rows.drop_last();
        lemma_filter_members(front, keep);
        let kept = front.filter(keep);
        let all = rows.filter(keep);
        assert(rows[rows.len() - 1] == rows.last());
        assert forall|k: int| 0 <= k < all.len() implies rows.contains(#[trigger] all[k]) && keep(all[k]) by {
            if k < kept.len() {
                assert(all[k] == kept[k]);
                let i = choose|i: int| 0 <= i < front.len() && front[i] == kept[k];
                assert(rows[i] == kept[k]);
            }
        }
        assert forall|i: int| 0 <= i < rows.len() && keep(#[trigger] rows[i]) implies all.contains(rows[i]) by {
            if i < front.len() {
                assert(front[i] == rows[i]);
                let k = choose|k: int| 0 <= k < kept.len() && kept[k] == front[i];
                assert(all[k] == rows[i]);
            } else {
                assert(all[all.len() - 1] == rows[i]);
            }
        }
    }
}

/// The credential store: the accounts table of one in-memory SQLite
/// database. Its rows stand by ascending id.
pub struct DatabaseContext {
    conn: rusqlite::Connection,
}

impl View for DatabaseContext {
    type V = Seq<RowView>;

    closed spec fn view(&self) -> Seq<RowView> {
        stored_rows(self.conn)
    }
}

impl DatabaseContext {
    /// An empty store.
    pub fn new() -> (store: Result<Self, StoreError>)
        ensures
            match store {
                Ok(s) => s@ == Seq::<RowView>::empty(),
                Err(e) => e == StoreError::Engine,
            },
    {
        match open_accounts_table(ACCOUNTS_SCHEMA) {
            Ok(conn) => Ok(DatabaseContext { conn }),
            Err(_) => Err(StoreError::Engine),
        }
    }

    /// The store that a dump describes. The bytes have to be the UTF-8 text
    /// of a dump, as `dump_db` writes it; the store then holds the rows of
    /// that dump. Nothing is restored in part.
    pub fn restore_db(plain_data: Vec<u8>) -> (store: Result<Self, ParseError>)
        ensures
            match store {
                Ok(s) => valid_utf8(plain_data@) && parsed_dump(decode_utf8(plain_data@)) == Some(s@),
                Err(ParseError::InvalidUtf8) => !valid_utf8(plain_data@),
                Err(ParseError::Malformed) => valid_utf8(plain_data@) && parsed_dump(decode_utf8(plain_data@))
                    is None,
                Err(ParseError::Engine) => valid_utf8(plain_data@) && parsed_dump(decode_utf8(plain_data@))
                    is Some,
            },
    {
        let sql_dump = match string_from_utf8(plain_data) {
            Some(text) => text,
            None => return Err(ParseError::InvalidUtf8),
        };
        let text = chars_of(sql_dump.as_str());
        let rows = match parse_dump(&text) {
            Some(rows) => rows,
            None => return Err(ParseError::Malformed),
        };
        let mut conn = match open_accounts_table(ACCOUNTS_SCHEMA) {
            Ok(conn) => conn,
            Err(_) => return Err(ParseError::Engine),
        };
        let ghost all = row_views(rows@);
        let mut i: usize = 0;
        while i < rows.len()
            invariant
                i <= rows.len(),
                all == row_views(rows@),
                ascending_ids(all),
                stored_rows(conn) == all.take(i as int),
                valid_utf8(plain_data@),
                parsed_dump(decode_utf8(plain_data@)) == Some(all),
            decreases rows.len() - i,
        {
            assert(all[i as int] == rows@[i as int]@);
            assert forall|k: int| 0 <= k < i implies (#[trigger] all.take(i as int)[k]).id < rows@[i as int].id by {
                assert(all[k].id < all[i as int].id);
            }
            match insert_row(&mut conn, &rows[i]) {
                Ok(_) => {},
                Err(_) => {
                    return Err(ParseError::Engine);
                },
            }
            assert(all.take(i + 1) =~= all.take(i as int).push(all[i as int]));
            i += 1;
        }
        assert(all.take(rows.len() as int) =~= all);
        Ok(DatabaseContext { conn })
    }

    /// The dump of the store: the schema statement, then one insert statement
    /// for each row. `restore_db` reads it back as the same rows.
    pub fn dump_db(&self) -> (dump: Result<String, StoreError>)
        ensures
            match dump {
                Ok(text) => text@ == dump_text(self@) && parsed_dump(text@) == Some(self@),
                Err(e) => e == StoreError::Engine,
            },
    {
        match select_rows(&self.conn) {
            Ok(rows) => {
                proof {
                    lemma_dump_roundtrip(self@);
                }
                Ok(dump_rows(&rows))
            },
            Err(_) => Err(StoreError::Engine),
        }
    }

    /// Adds an account. The store gives it a new id, above every id it holds,
    /// and `now` as the time of its creation and of its last change.
    pub fn add_account(&mut self, account_name: &str, password: &str, email: Option<String>, now: i64) -> (done:
        Result<(), StoreError>)
        ensures
            match done {
                Ok(_) => is_added(old(self)@, final(self)@, account_name@, password@, optional_view(email), now, now),
                Err(e) => e == StoreError::Engine && final(self)@ == old(self)@,
            },
    {
        match insert_account(&mut self.conn, account_name, password, &email, now, now) {
            Ok(_) => Ok(()),
            Err(_) => Err(StoreError::Engine),
        }
    }

    /// The account of this id, if the store holds one.
    pub fn get_account_by_id(&self, id: i32) -> (found: Result<Option<Account>, StoreError>)
        ensures
            match found {
                Ok(Some(account)) => self@.contains(account@) && account.id == id,
                Ok(None) => forall|i: int| 0 <= i < self@.len() ==> (#[trigger] self@[i]).id != id,
                Err(e) => e == StoreError::Engine,
            },
    {
        match select_row(&self.conn, id as i64) {
            Ok(rows) => {
                let ghost found = row_views(rows@);
                let ghost same_id = |r: RowView| r.id == id as i64;
                proof {
                    lemma_filter_members(self@, same_id);
                }
                if rows.len() == 0 {
                    Ok(None)
                } else {
                    proof {
                        assert(found[0] == rows@[0]@);
                    }
                    match Self::create_account_from_row(&rows[0]) {
                        Ok(account) => Ok(Some(account)),
                        Err(_) => Err(StoreError::Engine),
                    }
                }
            },
            Err(_) => Err(StoreError::Engine),
        }
    }

    /// Writes the name, the password and the e-mail address of `account` to
    /// the row of its id, with `now` as the time of the change. Where the
    /// store holds no such row, nothing changes.
    pub fn update_account(&mut self, account: &Account, now: i64) -> (done: Result<(), StoreError>)
        ensures
            match done {
                Ok(_) => final(self)@ == rows_with_update(
                    old(self)@,
                    account.id as i64,
                    account.account_name@,
                    account.password@,
                    optional_view(account.email),
                    now,
                ),
                Err(e) => e == StoreError::Engine && final(self)@ == old(self)@,
            },
    {
        match update_row(
            &mut self.conn,
            account.id as i64,
            account.account_name.as_str(),
            account.password.as_str(),
            &account.email,
            now,
        ) {
            Ok(_) => Ok(()),
            Err(_) => Err(StoreError::Engine),
        }
    }

    /// Removes the account of this id, if the store holds one.
    pub fn remove_account(&mut self, id: i32) -> (done: Result<(), StoreError>)
        ensures
            match done {
                Ok(_) => final(self)@ == rows_without(old(self)@, id as i64),
                Err(e) => e == StoreError::Engine && final(self)@ == old(self)@,
            },
    {
        match delete_row(&mut self.conn, id as i64) {
            Ok(_) => Ok(()),
            Err(_) => Err(StoreError::Engine),
        }
    }

    /// The accounts whose name holds `name_part` somewhere, capital and small
    /// ASCII letters taken as the same, by ascending id.
    pub fn search_accounts_by_name(&self, name_part: &str) -> (found: Result<Vec<Account>, StoreError>)
        ensures
            match found {
                Ok(accounts) => account_views(accounts@) == rows_matching(self@, name_part@),
                Err(StoreError::Engine) => true,
                Err(StoreError::IdOutOfRange) => !ids_fit(self@),
            },
    {
        let all = match self.list_all_accounts() {
            Ok(all) => all,
            Err(e) => return Err(e),
        };
        let part = chars_of(name_part);
        let ghost keep = |r: RowView| contains_ignoring_case(r.account_name, name_part@);
        let mut found: Vec<Account> = Vec::new();
        let mut i: usize = 0;
        proof {
            reveal(Seq::filter);
            assert(self@.take(0).filter(keep) =~= Seq::<RowView>::empty());
        }
        while i < all.len()
            invariant
                i <= all.len(),
                part@ == name_part@,
                account_views(all@) == self@,
                keep == (|r: RowView| contains_ignoring_case(r.account_name, name_part@)),
                account_views(found@) == self@.take(i as int).filter(keep),
            decreases all.len() - i,
        {
            let name = chars_of(all[i].account_name.as_str());
            proof {
                assert(self@[i as int] == all@[i as int]@);
                assert(self@.take(i + 1) =~= self@.take(i as int).push(self@[i as int]));
                self@.take(i as int).lemma_filter_push(self@[i as int], keep);
            }
            if contains_ignore_case(&name, &part) {
                let account = all[i].duplicate();
                proof {
                    assert(account_views(found@.push(account)) =~= account_views(found@).push(account@));
                }
                found.push(account);
            }
            i += 1;
        }
        assert(self@.take(all.len() as int) =~= self@);
        Ok(found)
    }

    /// Every account of the store, by ascending id.
    pub fn list_all_accounts(&self) -> (found: Result<Vec<Account>, StoreError>)
        ensures
            match found {
                Ok(accounts) => account_views(accounts@) == self@ && ascending_ids(self@),
                Err(StoreError::Engine) => true,
                Err(StoreError::IdOutOfRange) => !ids_fit(self@),
            },
    {
        let rows = match select_rows(&self.conn) {
            Ok(rows) => rows,
            Err(_) => return Err(StoreError::Engine),
        };
        let ghost all = row_views(rows@);
        let mut accounts: Vec<Account> = Vec::new();
        let mut i: usize = 0;
        while i < rows.len()
            invariant
                i <= rows.len(),
                all == self@,
                all == row_views(rows@),
                account_views(accounts@) == all.take(i as int),
            decreases rows.len() - i,
        {
            match Self::create_account_from_row(&rows[i]) {
                Ok(account) => {
                    proof {
                        assert(all[i as int] == rows@[i as int]@);
                        assert(account_views(accounts@.push(account)) =~= account_views(accounts@).push(account@));
                        assert(all.take(i + 1) =~= all.take(i as int).push(all[i as int]));
                    }
                    accounts.push(account);
                },
                Err(e) => {
                    assert(all[i as int] == rows@[i as int]@);
                    return Err(e);
                },
            }
            i += 1;
        }
        assert(all.take(rows.len() as int) =~= all);
        Ok(accounts)
    }

    /// The account that a row stands for; `IdOutOfRange` where the row's id
    /// is beyond what an account holds.
    pub fn create_account_from_row(row: &StoredRow) -> (account: Result<Account, StoreError>)
        ensures
            match account {
                Ok(a) => a@ == row@,
                Err(e) => e == StoreError::IdOutOfRange && !(i32::MIN <= row.id <= i32::MAX),
            },
    {
        if row.id < i32::MIN as i64 || row.id > i32::MAX as i64 {
            return Err(StoreError::IdOutOfRange);
        }
        Ok(
            Account {
                id: row.id as i32,
                account_name: row.account_name.clone(),
                password: row.password.clone(),
                email: match &row.email {
                    Some(address) => Some(address.clone()),
                    None => None,
                },
                created_at: row.created_at,
                updated_at: row.updated_at,
            },
        )
    }
}

/// What went wrong in the vault.
#[derive(Clone, Copy, Debug, PartialEq, Eq, Structural)]
pub enum VaultError {
    /// The passphrase is not the one the key file was made from.
    WrongPassphrase,
    /// The key verified, and the database file does not open under it.
    CorruptVault,
    /// The key file is malformed.
    Format(FormatError),
    /// The database file opened, and what it holds is no dump.
    Parse(ParseError),
    /// A file is missing, or could not be written.
    IoFailure,
    /// The store reported an error.
    Store(StoreError),
    /// The database could not be sealed.
    Seal(SealError),
    /// No key could be made from the passphrase.
    Key(KeyError),
    /// The store holds no account of the id that was asked for.
    UnknownAccount,
    /// The vault is unlocked, and a locked one was asked for.
    NotLocked,
    /// The vault is locked, and an unlocked one was asked for.
    Locked,
}

/// What a database file opens to under a key: the rows of the dump in it.
pub open spec fn opened_database(key: Seq<u8>, files: VaultFilesView) -> Result<Seq<RowView>, VaultError> {
    match files.db_file {
        None => Err(VaultError::IoFailure),
        Some(blob) => match opened_blob(key, blob) {
            None => Err(VaultError::CorruptVault),
            Some(plain) => if !valid_utf8(plain) {
                Err(VaultError::Parse(ParseError::InvalidUtf8))
            } else {
                match parsed_dump(decode_utf8(plain)) {
                    None => Err(VaultError::Parse(ParseError::Malformed)),
                    Some(rows) => Ok(rows),
                }
            },
        },
    }
}

/// Whether an error is one that reading the accounts of a vault can end in:
/// `Locked` where the vault is locked, and there only; else an error of the
/// store, that of an id out of range only where the store holds one.
pub open spec fn is_read_failure(e: VaultError, vault: DatabaseManager) -> bool {
    if !vault.is_unlocked() {
        e == VaultError::Locked
    } else {
        match e {
            VaultError::Store(StoreError::Engine) => true,
            VaultError::Store(StoreError::IdOutOfRange) => !ids_fit(vault.rows()),
            _ => false,
        }
    }
}

/// The error that saving a vault owes before anything is written: `Locked`
/// for a locked vault, `IoFailure` where the directory is not there.
pub open spec fn save_refusal(vault: DatabaseManager, files: VaultFilesView) -> Option<VaultError> {
    if !vault.is_unlocked() {
        Some(VaultError::Locked)
    } else if !files.directory_exists {
        Some(VaultError::IoFailure)
    } else {
        None
    }
}

/// Whether an error is one that saving a vault can end in: the one it owes,
/// or, where it owes none, one of dumping and sealing its rows.
pub open spec fn is_vault_save_failure(e: VaultError, vault: DatabaseManager, files: VaultFilesView) -> bool {
    match save_refusal(vault, files) {
        Some(refusal) => e == refusal,
        None => is_save_failure(e, vault.rows()),
    }
}

/// Whether an error is one that changing the rows of an unlocked vault to
/// `changed` and saving the vault can end in: that the store did not take
/// the change, and holds what it held; or what saving the changed vault can
/// end in.
pub open spec fn is_change_failure(
    e: VaultError,
    before: DatabaseManager,
    after: DatabaseManager,
    changed: Seq<RowView>,
    files: VaultFilesView,
) -> bool {
    ||| after.rows() == before.rows() && e == VaultError::Store(StoreError::Engine)
    ||| after.rows() == changed && is_vault_save_failure(e, after, files)
}

/// The error that unlocking with a key owes: that the vault is unlocked
/// already, or what is wrong with the database file under the key. `None`
/// where nothing is, and only the store can still fail.
pub open spec fn key_unlock_refusal(vault: DatabaseManager, key: Seq<u8>, files: VaultFilesView) -> Option<
    VaultError,
> {
    if vault.is_unlocked() {
        Some(VaultError::NotLocked)
    } else {
        match opened_database(key, files) {
            Err(e) => Some(e),
            Ok(_) => None,
        }
    }
}

/// Whether an error is one that unlocking with a key can end in: the one it
/// owes, or, where it owes none, that the store did not take the rows.
pub open spec fn is_key_unlock_failure(e: VaultError, vault: DatabaseManager, key: Seq<u8>, files: VaultFilesView) -> bool {
    match key_unlock_refusal(vault, key, files) {
        Some(refusal) => e == refusal,
        None => e == VaultError::Parse(ParseError::Engine),
    }
}

/// The key that a passphrase unlocks the vault with: the key of the key file,
/// where the passphrase is the one it was derived from.
pub open spec fn unlocking_key(candidate: Seq<char>, files: VaultFilesView) -> Result<Seq<u8>, VaultError> {
    if files.password_file is None || files.db_file is None {
        Err(VaultError::IoFailure)
    } else {
        match parsed_record(files.password_file->0) {
            Err(e) => Err(VaultError::Format(e)),
            Ok((salt, key)) => if passphrase_fits(candidate) && key == derived_key(salt, candidate) {
                Ok(key)
            } else {
                Err(VaultError::WrongPassphrase)
            },
        }
    }
}

/// What unlocking with a passphrase comes to: the rows of the vault, or the
/// first thing that is wrong. The key file is read and the passphrase held
/// against it before the database file is opened.
pub open spec fn unlock_outcome(candidate: Seq<char>, files: VaultFilesView) -> Result<Seq<RowView>, VaultError> {
    match unlocking_key(candidate, files) {
        Err(e) => Err(e),
        Ok(key) => opened_database(key, files),
    }
}

/// The bytes of the dump of a table.
pub open spec fn dump_bytes(rows: Seq<RowView>) -> Seq<u8> {
    encode_utf8(dump_text(rows))
}

/// Whether a database file holds the dump of `rows`, sealed under `key`: a
/// nonce, then the encryption of the dump with its tag, 28 bytes more than the
/// dump, which opens to the dump again.
pub open spec fn holds_sealed(files: VaultFilesView, key: Seq<u8>, rows: Seq<RowView>) -> bool {
    files.db_file matches Some(blob) && is_sealed(key, dump_bytes(rows), blob)
}

/// Whether the failure `e` is one that dumping and sealing `rows` can end
/// in: the store reported an error; or the dump is longer than the cipher
/// seals; or it is not, and the system gave no nonce.
pub open spec fn is_save_failure(e: VaultError, rows: Seq<RowView>) -> bool {
    match e {
        VaultError::Store(s) => s == StoreError::Engine,
        VaultError::Seal(SealError::PlaintextTooLong) => dump_bytes(rows).len() > MAX_PLAINTEXT_BYTES,
        VaultError::Seal(SealError::NoEntropy) => dump_bytes(rows).len() <= MAX_PLAINTEXT_BYTES,
        _ => false,
    }
}

/// The rows that a vault keeps when it is put under a new key: its own, or
/// none where it is locked.
pub open spec fn rows_kept(vault: DatabaseManager) -> Seq<RowView> {
    if vault.is_unlocked() {
        vault.rows()
    } else {
        Seq::empty()
    }
}

/// **The bytes of a dump restore.** The bytes of the dump of a table are
/// UTF-8, and what they are read as is that table: restoring them never ends
/// in `InvalidUtf8` or `Malformed`.
pub proof fn lemma_dump_bytes_restore(rows: Seq<RowView>)
    requires
        ascending_ids(rows),
    ensures
        valid_utf8(dump_bytes(rows)),
        parsed_dump(decode_utf8(dump_bytes(rows))) == Some(rows),
{
    vstd::utf8::encode_utf8_valid_utf8(dump_text(rows));
    vstd::utf8::encode_utf8_decode_utf8(dump_text(rows));
    lemma_dump_roundtrip(rows);
}

/// **What is saved opens again.** A database file that holds rows sealed
/// under a key opens under that key to those rows.
pub proof fn lemma_sealed_file_opens(files: VaultFilesView, key: Seq<u8>, rows: Seq<RowView>)
    requires
        holds_sealed(files, key, rows),
        ascending_ids(rows),
    ensures
        opened_database(key, files) == Ok::<_, VaultError>(rows),
{
    lemma_dump_bytes_restore(rows);
}

/// **Lock lifecycle.** Where the key file holds a record and the database
/// file holds the rows that were saved under the record's key, the
/// passphrase that the record was derived from unlocks exactly those rows,
/// and every other passphrase is refused as wrong.
pub proof fn lemma_saved_vault_unlocks(
    candidate: Seq<char>,
    files: VaultFilesView,
    salt: Seq<u8>,
    key: Seq<u8>,
    rows: Seq<RowView>,
)
    requires
        files.password_file is Some,
        parsed_record(files.password_file->0) == Ok::<_, FormatError>((salt, key)),
        holds_sealed(files, key, rows),
        ascending_ids(rows),
    ensures
        unlock_outcome(candidate, files) == (if passphrase_fits(candidate) && key == derived_key(salt, candidate) {
            Ok::<_, VaultError>(rows)
        } else {
            Err(VaultError::WrongPassphrase)
        }),
{
    let text = dump_text(rows);
    vstd::utf8::encode_utf8_valid_utf8(text);
    vstd::utf8::encode_utf8_decode_utf8(text);
    lemma_dump_roundtrip(rows);
}

/// Whether files hold a vault that unlocks to these rows with every
/// passphrase that a record accepts, and refuses every other passphrase as
/// wrong.
pub open spec fn unlocks_to(files: VaultFilesView, record: PasswordEncryption, rows: Seq<RowView>) -> bool {
    forall|candidate: Seq<char>| #[trigger]
        unlock_outcome(candidate, files) == (if record.accepts(candidate) {
            Ok::<_, VaultError>(rows)
        } else {
            Err(VaultError::WrongPassphrase)
        })
}

/// **A stored vault unlocks.** Where the key file holds a record and the
/// database file holds rows sealed under the record's key, the files unlock
/// to those rows with the passphrases that the record accepts, and with no
/// others.
pub proof fn lemma_stored_vault_unlocks(files: VaultFilesView, record: PasswordEncryption, rows: Seq<RowView>)
    requires
        files.password_file is Some,
        parsed_record(files.password_file->0) == Ok::<_, FormatError>((record.salt(), record.key())),
        holds_sealed(files, record.key(), rows),
        ascending_ids(rows),
    ensures
        unlocks_to(files, record, rows),
{
    assert forall|candidate: Seq<char>| #[trigger]
        unlock_outcome(candidate, files) == (if record.accepts(candidate) {
            Ok::<_, VaultError>(rows)
        } else {
            Err(VaultError::WrongPassphrase)
        }) by {
        lemma_saved_vault_unlocks(candidate, files, record.salt(), record.key(), rows);
    }
}

/// Dumps a store and seals the dump under a key, with a fresh random nonce.
/// The blob is the nonce, then the encryption of the dump under the key and
/// that nonce with its tag; it opens to the dump again under the same key.
/// It fails where the store does, where the dump is longer than the cipher
/// seals, and where the system gives no nonce.
pub fn encrypt_database(database_context: &DatabaseContext, encryption_key: &[u8; 32]) -> (blob: Result<
    Vec<u8>,
    VaultError,
>)
    ensures
        match blob {
            Ok(b) => {
                &&& dump_bytes(database_context@).len() <= MAX_PLAINTEXT_BYTES
                &&& b@.len() == NONCE_LEN + encode_utf8(dump_text(database_context@)).len() + TAG_LEN
                &&& exists|nonce: Seq<u8>|
                    nonce.len() == NONCE_LEN && b@ == #[trigger] sealed_blob(
                        encryption_key@,
                        nonce,
                        encode_utf8(dump_text(database_context@)),
                    )
                &&& opened_blob(encryption_key@, b@) == Some(encode_utf8(dump_text(database_context@)))
                &&& is_sealed(encryption_key@, dump_bytes(database_context@), b@)
                &&& ascending_ids(database_context@)
            },
            Err(e) => is_save_failure(e, database_context@),
        },
{
    let plaintext = match database_context.dump_db() {
        Ok(plaintext) => plaintext,
        Err(e) => return Err(VaultError::Store(e)),
    };
    proof {
        crate::dump_format::lemma_dump_sound(plaintext@);
    }
    match seal(encryption_key, plaintext.as_str().as_bytes()) {
        Ok(b) => Ok(b),
        Err(e) => Err(VaultError::Seal(e)),
    }
}

/// Whether the vault is open, and with which store.
pub enum DatabaseState {
    Locked,
    Unlocked(DatabaseContext),
}

/// The vault: locked, or unlocked with the store and the key that opened it.
/// While it is locked it holds no key.
pub struct DatabaseManager {
    state: DatabaseState,
    passkey: [u8; 32],
}

impl DatabaseManager {
    /// Whether the vault is unlocked.
    pub closed spec fn is_unlocked(&self) -> bool {
        self.state is Unlocked
    }

    /// The rows of the store of an unlocked vault.
    pub closed spec fn rows(&self) -> Seq<RowView> {
        self.state->Unlocked_0@
    }

    /// The key that the vault holds: all zero while it is locked.
    pub closed spec fn key(&self) -> Seq<u8> {
        self.passkey@
    }

    /// Whether the vault holds no key while it is locked.
    pub closed spec fn well_formed(&self) -> bool {
        self.state is Locked ==> self.passkey@ == Seq::new(32, |i: int| 0u8)
    }

    /// A locked vault.
    pub fn new() -> (manager: Self)
        ensures
            !manager.is_unlocked(),
            manager.well_formed(),
    {
        let manager = DatabaseManager { state: DatabaseState::Locked, passkey: [0;32] };
        assert(manager.passkey@ =~= Seq::new(32, |i: int| 0u8));
        manager
    }

    /// Whether the vault is unlocked.
    pub fn is_open(&self) -> (open: bool)
        ensures
            open == self.is_unlocked(),
    {
        match &self.state {
            DatabaseState::Locked => false,
            DatabaseState::Unlocked(_) => true,
        }
    }

    /// Unlocks the vault with a passphrase. The key file is read and the
    /// passphrase held against it; a passphrase that does not match is
    /// `WrongPassphrase`. Then the database file is opened under the key: a
    /// file that does not open is `CorruptVault`. Then the store is restored
    /// from the dump. The vault is unlocked only where all of it went well;
    /// everywhere else it stays as it was.
    pub fn unlock(&mut self, candidate_passphrase: &str, files: &VaultFiles) -> (done: Result<(), VaultError>)
        ensures
            old(self).is_unlocked() ==> done == Err::<(), _>(VaultError::NotLocked) && *final(self) == *old(self),
            !old(self).is_unlocked() ==> match unlock_outcome(candidate_passphrase@, files@) {
                Err(refusal) => done == Err::<(), _>(refusal),
                Ok(_) => done is Ok || done == Err::<(), _>(VaultError::Parse(ParseError::Engine)),
            },
            !old(self).is_unlocked() ==> match done {
                Ok(_) => {
                    &&& final(self).is_unlocked()
                    &&& unlock_outcome(candidate_passphrase@, files@) == Ok::<_, VaultError>(final(self).rows())
                    &&& unlocking_key(candidate_passphrase@, files@) == Ok::<_, VaultError>(final(self).key())
                },
                Err(VaultError::Parse(ParseError::Engine)) => unlock_outcome(candidate_passphrase@, files@) is Ok
                    && *final(self) == *old(self),
                Err(e) => unlock_outcome(candidate_passphrase@, files@) == Err::<Seq<RowView>, _>(e) && *final(self)
                    == *old(self),
            },
            old(self).well_formed() ==> final(self).well_formed(),
    {
        if self.is_open() {
            return Err(VaultError::NotLocked);
        }
        let key_text = match read_password_from_disk(files) {
            Some(text) => text,
            None => return Err(VaultError::IoFailure),
        };
        if files.db_file.is_none() {
            return Err(VaultError::IoFailure);
        }
        let record = match PasswordEncryption::create_from_string(key_text) {
            Ok(record) => record,
            Err(e) => return Err(VaultError::Format(e)),
        };
        if !record.verify_string(candidate_passphrase) {
            return Err(VaultError::WrongPassphrase);
        }
        let passkey = record.get_encrypted_string();
        self.unlock_with_key(&passkey, files)
    }

    /// Unlocks the vault with the key itself: the database file is opened
    /// under it and the store restored from the dump. The vault is unlocked
    /// only where all of it went well; everywhere else it stays as it was.
    pub fn unlock_with_key(&mut self, passkey: &[u8; 32], files: &VaultFiles) -> (done: Result<(), VaultError>)
        ensures
            old(self).is_unlocked() ==> done == Err::<(), _>(VaultError::NotLocked) && *final(self) == *old(self),
            !old(self).is_unlocked() ==> match opened_database(passkey@, files@) {
                Err(refusal) => done == Err::<(), _>(refusal),
                Ok(_) => done is Ok || done == Err::<(), _>(VaultError::Parse(ParseError::Engine)),
            },
            !old(self).is_unlocked() ==> match done {
                Ok(_) => {
                    &&& final(self).is_unlocked()
                    &&& opened_database(passkey@, files@) == Ok::<_, VaultError>(final(self).rows())
                    &&& final(self).key() == passkey@
                },
                Err(VaultError::Parse(ParseError::Engine)) => opened_database(passkey@, files@) is Ok && *final(self)
                    == *old(self),
                Err(e) => opened_database(passkey@, files@) == Err::<Seq<RowView>, _>(e) && *final(self) == *old(
                    self,
                ),
            },
            old(self).well_formed() ==> final(self).well_formed(),
    {
        if self.is_open() {
            return Err(VaultError::NotLocked);
        }
        let encrypted_database = match read_db_from_disk(files) {
            Some(bytes) => bytes,
            None => return Err(VaultError::IoFailure),
        };
        let db_content = match load_encrypted_db(encrypted_database, passkey) {
            Ok(plain) => plain,
            Err(_) => return Err(VaultError::CorruptVault),
        };
        let context = match DatabaseContext::restore_db(db_content) {
            Ok(context) => context,
            Err(e) => return Err(VaultError::Parse(e)),
        };
        self.passkey = *passkey;
        self.state = DatabaseState::Unlocked(context);
        Ok(())
    }

    /// Saves the store: dumps it, seals the dump under the key that the vault
    /// holds, and puts the blob in place of the database file. Unlocking
    /// with that key gives the same rows again. A locked vault is refused
    /// as `Locked`, a missing directory as `IoFailure`, before anything is
    /// dumped or sealed. Nothing is written where anything fails.
    pub fn safe_database(&self, files: &mut VaultFiles) -> (done: Result<(), VaultError>)
        ensures
            !self.is_unlocked() ==> done == Err::<(), _>(VaultError::Locked),
            self.is_unlocked() && !old(files).directory_exists ==> done == Err::<(), _>(VaultError::IoFailure),
            match done {
                Ok(_) => {
                    &&& self.is_unlocked()
                    &&& old(files).directory_exists
                    &&& holds_sealed(final(files)@, self.key(), self.rows())
                    &&& ascending_ids(self.rows())
                    &&& opened_database(self.key(), final(files)@) == Ok::<_, VaultError>(self.rows())
                    &&& final(files)@ == (VaultFilesView { db_file: final(files)@.db_file, ..old(files)@ })
                },
                Err(e) => {
                    &&& final(files)@ == old(files)@
                    &&& e == VaultError::Locked <==> !self.is_unlocked()
                    &&& e == VaultError::IoFailure <==> self.is_unlocked() && !old(files).directory_exists
                    &&& self.is_unlocked() && old(files).directory_exists ==> is_save_failure(e, self.rows())
                },
            },
    {
        let context = match &self.state {
            DatabaseState::Locked => return Err(VaultError::Locked),
            DatabaseState::Unlocked(context) => context,
        };
        if !files.directory_exists {
            return Err(VaultError::IoFailure);
        }
        let encrypted_db = match encrypt_database(context, &self.passkey) {
            Ok(blob) => blob,
            Err(e) => return Err(e),
        };
        files.db_file = Some(encrypted_db);
        proof {
            lemma_sealed_file_opens(files@, self.key(), self.rows());
        }
        Ok(())
    }

    /// The store, while the vault is unlocked.
    pub fn get_database_context(&self) -> (context: Option<&DatabaseContext>)
        ensures
            context is Some == self.is_unlocked(),
            context matches Some(c) ==> c@ == self.rows(),
    {
        match &self.state {
            DatabaseState::Locked => None,
            DatabaseState::Unlocked(context) => Some(context),
        }
    }

    /// Puts the vault under a new key: the store is sealed under the key of
    /// `new_record`, and the key file and the database file are replaced
    /// together, the key file by the record's text. The files then unlock to
    /// the vault's rows with the passphrases that the record accepts, and
    /// with no others. A locked vault is
    /// refused as `Locked`, a missing directory as `IoFailure`, before
    /// anything is dumped or sealed. Where anything fails, nothing changes,
    /// neither in the files nor in the vault.
    pub fn set_new_passkey(&mut self, new_record: &PasswordEncryption, files: &mut VaultFiles) -> (done: Result<
        (),
        VaultError,
    >)
        ensures
            !old(self).is_unlocked() ==> done == Err::<(), _>(VaultError::Locked),
            old(self).is_unlocked() && !old(files).directory_exists ==> done == Err::<(), _>(VaultError::IoFailure),
            match done {
                Ok(_) => {
                    &&& old(self).is_unlocked() && final(self).is_unlocked()
                    &&& final(self).rows() == old(self).rows()
                    &&& final(self).key() == new_record.key()
                    &&& old(files).directory_exists && final(files).directory_exists
                    &&& final(files)@.password_file == Some(record_text(new_record.salt(), new_record.key()))
                    &&& parsed_record(final(files)@.password_file->0) == Ok::<_, FormatError>(
                        (new_record.salt(), new_record.key()),
                    )
                    &&& holds_sealed(final(files)@, new_record.key(), final(self).rows())
                    &&& ascending_ids(final(self).rows())
                    &&& unlocks_to(final(files)@, *new_record, final(self).rows())
                },
                Err(e) => {
                    &&& final(files)@ == old(files)@
                    &&& *final(self) == *old(self)
                    &&& e == VaultError::Locked <==> !old(self).is_unlocked()
                    &&& e == VaultError::IoFailure <==> old(self).is_unlocked() && !old(files).directory_exists
                    &&& old(self).is_unlocked() && old(files).directory_exists ==> is_save_failure(
                        e,
                        old(self).rows(),
                    )
                },
            },
            old(self).well_formed() ==> final(self).well_formed(),
    {
        let passkey = new_record.get_encrypted_string();
        let encrypted_db = match &self.state {
            DatabaseState::Locked => return Err(VaultError::Locked),
            DatabaseState::Unlocked(context) => {
                if !files.directory_exists {
                    return Err(VaultError::IoFailure);
                }
                match encrypt_database(context, &passkey) {
                    Ok(blob) => blob,
                    Err(e) => return Err(e),
                }
            },
        };
        files.password_file = Some(new_record.create_string());
        files.db_file = Some(encrypted_db);
        self.passkey = passkey;
        proof {
            lemma_stored_vault_unlocks(files@, *new_record, self.rows());
        }
        Ok(())
    }

    /// Makes a new vault on disk under the key of `new_record`, with the
    /// store that the vault holds, or an empty one where it is locked; the
    /// key file holds the record's text. The vault is unlocked afterwards,
    /// and the files unlock to its rows with the passphrases that the record
    /// accepts, and with no others. A
    /// directory that is there without being a whole vault is refused as
    /// `IoFailure`, before anything is dumped or sealed. Where anything
    /// fails, nothing changes, neither in the files nor in the vault.
    pub fn create_new_database(&mut self, new_record: &PasswordEncryption, files: &mut VaultFiles) -> (done:
        Result<(), VaultError>)
        ensures
            old(files).directory_exists && !vault_exists(old(files)@) ==> done == Err::<(), _>(VaultError::IoFailure),
            match done {
                Ok(_) => {
                    &&& final(self).is_unlocked()
                    &&& final(self).rows() == rows_kept(*old(self))
                    &&& final(self).key() == new_record.key()
                    &&& vault_exists(final(files)@)
                    &&& final(files)@.password_file == Some(record_text(new_record.salt(), new_record.key()))
                    &&& parsed_record(final(files)@.password_file->0) == Ok::<_, FormatError>(
                        (new_record.salt(), new_record.key()),
                    )
                    &&& holds_sealed(final(files)@, new_record.key(), final(self).rows())
                    &&& ascending_ids(final(self).rows())
                    &&& unlocks_to(final(files)@, *new_record, final(self).rows())
                },
                Err(e) => {
                    &&& final(files)@ == old(files)@
                    &&& *final(self) == *old(self)
                    &&& e == VaultError::IoFailure <==> old(files).directory_exists && !vault_exists(old(files)@)
                    &&& !(e is IoFailure) ==> is_save_failure(e, rows_kept(*old(self)))
                },
            },
            old(self).well_formed() ==> final(self).well_formed(),
    {
        if files.directory_exists && !crate::file_accesssor::does_directory_and_files_exist(files) {
            return Err(VaultError::IoFailure);
        }
        let passkey = new_record.get_encrypted_string();
        match &self.state {
            DatabaseState::Unlocked(context) => {
                let encrypted_db = match encrypt_database(context, &passkey) {
                    Ok(blob) => blob,
                    Err(e) => return Err(e),
                };
                match create_directory_and_files(files, encrypted_db, new_record.create_string()) {
                    Ok(_) => {},
                    Err(_) => return Err(VaultError::IoFailure),
                }
                self.passkey = passkey;
                proof {
                    lemma_stored_vault_unlocks(files@, *new_record, self.rows());
                }
                Ok(())
            },
            DatabaseState::Locked => {
                let context = match DatabaseContext::new() {
                    Ok(context) => context,
                    Err(e) => return Err(VaultError::Store(e)),
                };
                let encrypted_db = match encrypt_database(&context, &passkey) {
                    Ok(blob) => blob,
                    Err(e) => return Err(e),
                };
                match create_directory_and_files(files, encrypted_db, new_record.create_string()) {
                    Ok(_) => {},
                    Err(_) => return Err(VaultError::IoFailure),
                }
                self.passkey = passkey;
                self.state = DatabaseState::Unlocked(context);
                proof {
                    lemma_stored_vault_unlocks(files@, *new_record, self.rows());
                }
                Ok(())
            },
        }
    }

    /// Adds an account to the store of an unlocked vault.
    pub fn add_account(&mut self, account_name: &str, password: &str, email: Option<String>, now: i64) -> (done:
        Result<(), VaultError>)
        ensures
            final(self).is_unlocked() == old(self).is_unlocked(),
            final(self).key() == old(self).key(),
            old(self).well_formed() ==> final(self).well_formed(),
            match done {
                Ok(_) => old(self).is_unlocked() && is_added(
                    old(self).rows(),
                    final(self).rows(),
                    account_name@,
                    password@,
                    optional_view(email),
                    now,
                    now,
                ),
                Err(e) => {
                    &&& old(self).is_unlocked() ==> final(self).rows() == old(self).rows() && e == VaultError::Store(
                        StoreError::Engine,
                    )
                    &&& !old(self).is_unlocked() ==> e == VaultError::Locked
                },
            },
    {
        match &mut self.state {
            DatabaseState::Unlocked(context) => match context.add_account(account_name, password, email, now) {
                Ok(_) => Ok(()),
                Err(e) => Err(VaultError::Store(e)),
            },
            DatabaseState::Locked => Err(VaultError::Locked),
        }
    }

    /// Writes the values of `account` to the row of its id, in the store of an
    /// unlocked vault.
    pub fn update_account(&mut self, account: &Account, now: i64) -> (done: Result<(), VaultError>)
        ensures
            final(self).is_unlocked() == old(self).is_unlocked(),
            final(self).key() == old(self).key(),
            old(self).well_formed() ==> final(self).well_formed(),
            match done {
                Ok(_) => old(self).is_unlocked() && final(self).rows() == rows_with_update(
                    old(self).rows(),
                    account.id as i64,
                    account.account_name@,
                    account.password@,
                    optional_view(account.email),
                    now,
                ),
                Err(e) => {
                    &&& old(self).is_unlocked() ==> final(self).rows() == old(self).rows() && e == VaultError::Store(
                        StoreError::Engine,
                    )
                    &&& !old(self).is_unlocked() ==> e == VaultError::Locked
                },
            },
    {
        match &mut self.state {
            DatabaseState::Unlocked(context) => match context.update_account(account, now) {
                Ok(_) => Ok(()),
                Err(e) => Err(VaultError::Store(e)),
            },
            DatabaseState::Locked => Err(VaultError::Locked),
        }
    }

    /// Removes the account of this id from the store of an unlocked vault.
    pub fn remove_account(&mut self, id: i32) -> (done: Result<(), VaultError>)
        ensures
            final(self).is_unlocked() == old(self).is_unlocked(),
            final(self).key() == old(self).key(),
            old(self).well_formed() ==> final(self).well_formed(),
            match done {
                Ok(_) => old(self).is_unlocked() && final(self).rows() == rows_without(old(self).rows(), id as i64),
                Err(e) => {
                    &&& old(self).is_unlocked() ==> final(self).rows() == old(self).rows() && e == VaultError::Store(
                        StoreError::Engine,
                    )
                    &&& !old(self).is_unlocked() ==> e == VaultError::Locked
                },
            },
    {
        match &mut self.state {
            DatabaseState::Unlocked(context) => match context.remove_account(id) {
                Ok(_) => Ok(()),
                Err(e) => Err(VaultError::Store(e)),
            },
            DatabaseState::Locked => Err(VaultError::Locked),
        }
    }
}

} // verus!
