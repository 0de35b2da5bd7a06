//! The textual form of the accounts table: one schema statement, then one
//! insert statement per row. The database is written to disk in this form,
//! sealed, and read back from it.
//!
//! `dump_text` says what is written, `parsed_dump` what is read. The two laws
//! at the end relate them: what was written is read back as it was, and
//! nothing is read that could not have been written.

use vstd::prelude::*;
use crate::text::{
    append_chars, chars_of, escaped, integer_text, is_digit, lemma_decimal_digits,
    lemma_parsed_integer_of_text, lemma_parsed_integer_sound, lemma_unquoted_of_escaped,
    lemma_unquoted_sound, matches_at, parse_integer_at, parse_quoted_at, parsed_integer,
    parsed_quoted, push_integer, push_quoted, quoted, string_of, unquoted,
};

verus! {

/// The statement that creates the accounts table. A dump starts with it.
pub const ACCOUNTS_SCHEMA: &'static str =
    "CREATE TABLE accounts (id              INTEGER PRIMARY KEY AUTOINCREMENT,\n\t\t\t\taccount_name    TEXT NOT NULL,\n\t\t\t\tpassword        TEXT NOT NULL,\n\t\t\t\temail           TEXT,\n\t\t\t\tcreated_at      INTEGER DEFAULT CURRENT_TIMESTAMP,\n\t\t\t\tupdated_at      INTEGER DEFAULT CURRENT_TIMESTAMP\n\t\t\t)";

/// The head of an insert statement, up to the first value.
pub const INSERT_HEAD: &'static str = "INSERT INTO accounts VALUES (";

/// What stands between two values.
pub const SEPARATOR: &'static str = ", ";

/// The end of an insert statement, behind the last value.
pub const INSERT_TAIL: &'static str = ");";

/// The value of an absent e-mail address.
pub const NULL_TEXT: &'static str = "NULL";

/// One row of the accounts table, as it is stored.
#[derive(Clone, Debug)]
pub struct StoredRow {
    pub id: i64,
    pub account_name: String,
    pub password: String,
    pub email: Option<String>,
    pub created_at: i64,
    pub updated_at: i64,
}

/// What a stored row holds.
pub struct RowView {
    pub id: i64,
    pub account_name: Seq<char>,
    pub password: Seq<char>,
    pub email: Option<Seq<char>>,
    pub created_at: i64,
    pub updated_at: i64,
}

impl View for StoredRow {
    type V = RowView;

    open spec fn view(&self) -> RowView {
        RowView {
            id: self.id,
            account_name: self.account_name@,
            password: self.password@,
            email: match self.email {
                Some(e) => Some(e@),
                None => None,
            },
            created_at: self.created_at,
            updated_at: self.updated_at,
        }
    }
}

/// What each of the rows holds.
pub open spec fn row_views(rows: Seq<StoredRow>) -> Seq<RowView> {
    rows.map_values(|r: StoredRow| r@)
}

/// The text of an e-mail value: `NULL`, or the address as a literal.
pub open spec fn optional_text(email: Option<Seq<char>>) -> Seq<char> {
    match email {
        Some(e) => quoted(e),
        None => NULL_TEXT@,
    }
}

/// The second half of a row's insert statement: the e-mail address, the two
/// timestamps and the closing bracket.
#[verifier::opaque]
pub open spec fn trailing_text(row: RowView) -> Seq<char> {
    optional_text(row.email) + (SEPARATOR@ + (integer_text(row.created_at as int) + (SEPARATOR@ + (
        integer_text(row.updated_at as int) + INSERT_TAIL@))))
}

/// The insert statement of a row: the head, then the six values with a
/// separator between each two, then the closing bracket and a semicolon.
#[verifier::opaque]
pub open spec fn statement_text(row: RowView) -> Seq<char> {
    INSERT_HEAD@ + (integer_text(row.id as int) + (SEPARATOR@ + (quoted(row.account_name) + (SEPARATOR@ + (
        quoted(row.password) + (SEPARATOR@ + trailing_text(row)))))))
}

/// The insert statements of rows, one behind the other.
pub open spec fn statements_text(rows: Seq<RowView>) -> Seq<char>
    decreases rows.len(),
{
    if rows.len() == 0 {
        Seq::empty()
    } else {
        statements_text(rows.drop_last()) + statement_text(rows.last())
    }
}

/// The head of every dump: the schema statement and its semicolon.
pub open spec fn dump_head() -> Seq<char> {
    ACCOUNTS_SCHEMA@ + seq![';']
}

/// The dump of a table.
pub open spec fn dump_text(rows: Seq<RowView>) -> Seq<char> {
    dump_head() + statements_text(rows)
}

/// Whether the ids of the rows are strictly ascending, as they are in every
/// table: no id comes twice, and the rows stand by id.
pub open spec fn ascending_ids(rows: Seq<RowView>) -> bool {
    forall|i: int, j: int| 0 <= i < j < rows.len() ==> (#[trigger] rows[i]).id < (#[trigger] rows[j]).id
}

/// The index behind `part`, where `s` holds it at `at`.
pub open spec fn after_literal(s: Seq<char>, at: int, part: Seq<char>) -> Option<int> {
    if 0 <= at && at + part.len() <= s.len() && s.subrange(at, at + part.len()) == part {
        Some(at + part.len())
    } else {
        None
    }
}

/// The integer at `at` and the index behind it.
pub open spec fn integer_at(s: Seq<char>, at: int) -> Option<(i64, int)> {
    if 0 <= at <= s.len() {
        match parsed_integer(s.skip(at)) {
            Some((value, len)) => Some((value, at + len)),
            None => None,
        }
    } else {
        None
    }
}

/// The literal at `at` and the index behind it.
pub open spec fn quoted_at(s: Seq<char>, at: int) -> Option<(Seq<char>, int)> {
    if 0 <= at <= s.len() {
        match parsed_quoted(s.skip(at)) {
            Some((t, len)) => Some((t, at + len)),
            None => None,
        }
    } else {
        None
    }
}

/// The e-mail value at `at` and the index behind it.
pub open spec fn optional_at(s: Seq<char>, at: int) -> Option<(Option<Seq<char>>, int)> {
    match after_literal(s, at, NULL_TEXT@) {
        Some(next) => Some((None, next)),
        None => match quoted_at(s, at) {
            Some((t, next)) => Some((Some(t), next)),
            None => None,
        },
    }
}

/// The three leading values of a statement at `at`: the id, the name and the
/// password, and the index behind the separator that follows them.
#[verifier::opaque]
pub open spec fn leading_values_at(s: Seq<char>, at: int) -> Option<(i64, Seq<char>, Seq<char>, int)> {
    match after_literal(s, at, INSERT_HEAD@) {
        None => None,
        Some(p0) => match integer_at(s, p0) {
            None => None,
            Some((id, p1)) => match after_literal(s, p1, SEPARATOR@) {
                None => None,
                Some(p2) => match quoted_at(s, p2) {
                    None => None,
                    Some((name, p3)) => match after_literal(s, p3, SEPARATOR@) {
                        None => None,
                        Some(p4) => match quoted_at(s, p4) {
                            None => None,
                            Some((password, p5)) => match after_literal(s, p5, SEPARATOR@) {
                                None => None,
                                Some(p6) => Some((id, name, password, p6)),
                            },
                        },
                    },
                },
            },
        },
    }
}

/// The three trailing values of a statement at `at`: the e-mail address and
/// the two timestamps, and the index behind the statement.
#[verifier::opaque]
pub open spec fn trailing_values_at(s: Seq<char>, at: int) -> Option<(Option<Seq<char>>, i64, i64, int)> {
    match optional_at(s, at) {
        None => None,
        Some((email, p1)) => match after_literal(s, p1, SEPARATOR@) {
            None => None,
            Some(p2) => match integer_at(s, p2) {
                None => None,
                Some((created_at, p3)) => match after_literal(s, p3, SEPARATOR@) {
                    None => None,
                    Some(p4) => match integer_at(s, p4) {
                        None => None,
                        Some((updated_at, p5)) => match after_literal(s, p5, INSERT_TAIL@) {
                            None => None,
                            Some(p6) => Some((email, created_at, updated_at, p6)),
                        },
                    },
                },
            },
        },
    }
}

/// The row of the insert statement at `at`, and the index behind it.
pub open spec fn parsed_statement(s: Seq<char>, at: int) -> Option<(RowView, int)> {
    match leading_values_at(s, at) {
        None => None,
        Some((id, account_name, password, middle)) => match trailing_values_at(s, middle) {
            None => None,
            Some((email, created_at, updated_at, next)) => Some(
                (RowView { id, account_name, password, email, created_at, updated_at }, next),
            ),
        },
    }
}

/// The rows of the insert statements from `at` to the end of `s`; `None`
/// where something else stands there.
pub open spec fn parsed_statements(s: Seq<char>, at: int) -> Option<Seq<RowView>>
    decreases s.len() - at,
{
    if at >= s.len() {
        Some(Seq::empty())
    } else {
        match parsed_statement(s, at) {
            Some((row, next)) => if at < next <= s.len() {
                match parsed_statements(s, next) {
                    Some(rows) => Some(seq![row] + rows),
                    None => None,
                }
            } else {
                None
            },
            None => None,
        }
    }
}

/// The table that a text is the dump of: the rows of its statements, where it
/// starts with the schema statement, holds insert statements and nothing
/// else, and the ids ascend.
pub open spec fn parsed_dump(s: Seq<char>) -> Option<Seq<RowView>> {
    match after_literal(s, 0, dump_head()) {
        None => None,
        Some(start) => match parsed_statements(s, start) {
            Some(rows) => if ascending_ids(rows) {
                Some(rows)
            } else {
                None
            },
            None => None,
        },
    }
}

fn push_literal(out: &mut Vec<char>, part: &str)
    ensures
        final(out)@ == old(out)@ + part@,
{
    let chars = chars_of(part);
    append_chars(out, &chars);
}

/// Appends the insert statement of `row` to `out`.
pub fn push_statement(out: &mut Vec<char>, row: &StoredRow)
    ensures
        final(out)@ == old(out)@ + statement_text(row@),
{
    let ghost l0 = out@;
    push_literal(out, INSERT_HEAD);
    let ghost l1 = out@;
    push_integer(out, row.id);
    let ghost l2 = out@;
    push_literal(out, SEPARATOR);
    let ghost l3 = out@;
    let name = chars_of(row.account_name.as_str());
    push_quoted(out, &name);
    let ghost l4 = out@;
    push_literal(out, SEPARATOR);
    let ghost l5 = out@;
    let password = chars_of(row.password.as_str());
    push_quoted(out, &password);
    let ghost l6 = out@;
    push_literal(out, SEPARATOR);
    let ghost l7 = out@;
    match &row.email {
        Some(address) => {
            let address = chars_of(address.as_str());
            push_quoted(out, &address);
        },
        None => {
            push_literal(out, NULL_TEXT);
        },
    }
    let ghost l8 = out@;
    push_literal(out, SEPARATOR);
    let ghost l9 = out@;
    push_integer(out, row.created_at);
    let ghost l10 = out@;
    push_literal(out, SEPARATOR);
    let ghost l11 = out@;
    push_integer(out, row.updated_at);
    let ghost l12 = out@;
    push_literal(out, INSERT_TAIL);
    proof {
        reveal(statement_text);
        reveal(trailing_text);
        let r = row@;
        let sep = SEPARATOR@;
        let t12 = INSERT_TAIL@;
        let t11 = integer_text(r.updated_at as int) + t12;
        let t10 = sep + t11;
        let t9 = integer_text(r.created_at as int) + t10;
        let t8 = sep + t9;
        let t7 = optional_text(r.email) + t8;
        let t6 = sep + t7;
        let t5 = quoted(r.password) + t6;
        let t4 = sep + t5;
        let t3 = quoted(r.account_name) + t4;
        let t2 = sep + t3;
        let t1 = integer_text(r.id as int) + t2;
        lemma_assoc(l11, integer_text(r.updated_at as int), t12);
        lemma_assoc(l10, sep, t11);
        lemma_assoc(l9, integer_text(r.created_at as int), t10);
        lemma_assoc(l8, sep, t9);
        lemma_assoc(l7, optional_text(r.email), t8);
        lemma_assoc(l6, sep, t7);
        lemma_assoc(l5, quoted(r.password), t6);
        lemma_assoc(l4, sep, t5);
        lemma_assoc(l3, quoted(r.account_name), t4);
        lemma_assoc(l2, sep, t3);
        lemma_assoc(l1, integer_text(r.id as int), t2);
        lemma_assoc(l0, INSERT_HEAD@, t1);
    }
}

/// The dump of a table.
pub fn dump_rows(rows: &Vec<StoredRow>) -> (text: String)
    ensures
        text@ == dump_text(row_views(rows@)),
{
    let mut out = chars_of(ACCOUNTS_SCHEMA);
    out.push(';');
    assert(out@ =~= dump_head() + statements_text(row_views(rows@.take(0))));
    let mut i: usize = 0;
    while i < rows.len()
        invariant
            i <= rows.len(),
            out@ == dump_head() + statements_text(row_views(rows@.take(i as int))),
        decreases rows.len() - i,
    {
        push_statement(&mut out, &rows[i]);
        proof {
            let before = row_views(rows@.take(i as int));
            let after = row_views(rows@.take(i + 1));
            assert(after.drop_last() =~= before);
            assert(after.last() == rows@[i as int]@);
            lemma_assoc(dump_head(), statements_text(before), statement_text(rows@[i as int]@));
        }
        i += 1;
    }
    assert(rows@.take(rows.len() as int) =~= rows@);
    string_of(&out)
}

fn skip_literal(text: &Vec<char>, pos: usize, part: &str) -> (next: Option<usize>)
    requires
        pos <= text.len(),
    ensures
        match next {
            Some(n) => after_literal(text@, pos as int, part@) == Some(n as int) && pos <= n <= text.len(),
            None => after_literal(text@, pos as int, part@) is None,
        },
{
    let chars = chars_of(part);
    if matches_at(text, pos, &chars) {
        Some(pos + chars.len())
    } else {
        None
    }
}

fn parse_integer_in(text: &Vec<char>, pos: usize) -> (found: Option<(i64, usize)>)
    requires
        pos <= text.len(),
    ensures
        match found {
            Some((value, next)) => integer_at(text@, pos as int) == Some((value, next as int)) && pos < next
                <= text.len(),
            None => integer_at(text@, pos as int) is None,
        },
{
    parse_integer_at(text, pos)
}

fn parse_quoted_in(text: &Vec<char>, pos: usize) -> (found: Option<(Vec<char>, usize)>)
    requires
        pos <= text.len(),
    ensures
        match found {
            Some((t, next)) => quoted_at(text@, pos as int) == Some((t@, next as int)) && pos < next
                <= text.len(),
            None => quoted_at(text@, pos as int) is None,
        },
{
    parse_quoted_at(text, pos)
}

fn parse_optional_in(text: &Vec<char>, pos: usize) -> (found: Option<(Option<String>, usize)>)
    requires
        pos <= text.len(),
    ensures
        match found {
            Some((Some(t), next)) => optional_at(text@, pos as int) == Some((Some(t@), next as int)) && pos
                <= next <= text.len(),
            Some((None, next)) => optional_at(text@, pos as int) == Some((None::<Seq<char>>, next as int))
                && pos <= next <= text.len(),
            None => optional_at(text@, pos as int) is None,
        },
{
    match skip_literal(text, pos, NULL_TEXT) {
        Some(next) => Some((None, next)),
        None => match parse_quoted_in(text, pos) {
            Some((t, next)) => Some((Some(string_of(&t)), next)),
            None => None,
        },
    }
}

fn parse_leading_in(text: &Vec<char>, pos: usize) -> (found: Option<(i64, String, String, usize)>)
    requires
        pos <= text.len(),
    ensures
        match found {
            Some((id, name, password, next)) => leading_values_at(text@, pos as int) == Some(
                (id, name@, password@, next as int),
            ) && pos < next <= text.len(),
            None => leading_values_at(text@, pos as int) is None,
        },
{
    reveal(leading_values_at);
    let p0 = match skip_literal(text, pos, INSERT_HEAD) {
        Some(p) => p,
        None => return None,
    };
    let (id, p1) = match parse_integer_in(text, p0) {
        Some(found) => found,
        None => return None,
    };
    let p2 = match skip_literal(text, p1, SEPARATOR) {
        Some(p) => p,
        None => return None,
    };
    let (name, p3) = match parse_quoted_in(text, p2) {
        Some(found) => found,
        None => return None,
    };
    let p4 = match skip_literal(text, p3, SEPARATOR) {
        Some(p) => p,
        None => return None,
    };
    let (password, p5) = match parse_quoted_in(text, p4) {
        Some(found) => found,
        None => return None,
    };
    let p6 = match skip_literal(text, p5, SEPARATOR) {
        Some(p) => p,
        None => return None,
    };
    Some((id, string_of(&name), string_of(&password), p6))
}

fn parse_trailing_in(text: &Vec<char>, pos: usize) -> (found: Option<(Option<String>, i64, i64, usize)>)
    requires
        pos <= text.len(),
    ensures
        match found {
            Some((email, created_at, updated_at, next)) => trailing_values_at(text@, pos as int) == Some(
                (
                    match email {
                        Some(e) => Some(e@),
                        None => None,
                    },
                    created_at,
                    updated_at,
                    next as int,
                ),
            ) && pos <= next <= text.len(),
            None => trailing_values_at(text@, pos as int) is None,
        },
{
    reveal(trailing_values_at);
    let (email, p1) = match parse_optional_in(text, pos) {
        Some(found) => found,
        None => return None,
    };
    let p2 = match skip_literal(text, p1, SEPARATOR) {
        Some(p) => p,
        None => return None,
    };
    let (created_at, p3) = match parse_integer_in(text, p2) {
        Some(found) => found,
        None => return None,
    };
    let p4 = match skip_literal(text, p3, SEPARATOR) {
        Some(p) => p,
        None => return None,
    };
    let (updated_at, p5) = match parse_integer_in(text, p4) {
        Some(found) => found,
        None => return None,
    };
    let p6 = match skip_literal(text, p5, INSERT_TAIL) {
        Some(p) => p,
        None => return None,
    };
    Some((email, created_at, updated_at, p6))
}

/// Reads the insert statement at `pos`: its row and the index behind it.
pub fn parse_statement_at(text: &Vec<char>, pos: usize) -> (found: Option<(StoredRow, usize)>)
    requires
        pos <= text.len(),
    ensures
        match found {
            Some((row, next)) => parsed_statement(text@, pos as int) == Some((row@, next as int)) && pos < next
                <= text.len(),
            None => parsed_statement(text@, pos as int) is None,
        },
{
    let (id, account_name, password, middle) = match parse_leading_in(text, pos) {
        Some(found) => found,
        None => return None,
    };
    let (email, created_at, updated_at, next) = match parse_trailing_in(text, middle) {
        Some(found) => found,
        None => return None,
    };
    Some((StoredRow { id, account_name, password, email, created_at, updated_at }, next))
}

/// `found` with `head` put before its rows.
pub open spec fn rows_before(head: Seq<RowView>, found: Option<Seq<RowView>>) -> Option<Seq<RowView>> {
    match found {
        Some(rows) => Some(head + rows),
        None => None,
    }
}

/// Reads insert statements from `start` to the end of the text.
pub fn parse_statements_from(text: &Vec<char>, start: usize) -> (found: Option<Vec<StoredRow>>)
    requires
        start <= text.len(),
    ensures
        match found {
            Some(rows) => parsed_statements(text@, start as int) == Some(row_views(rows@)),
            None => parsed_statements(text@, start as int) is None,
        },
{
    let mut rows: Vec<StoredRow> = Vec::new();
    let mut pos = start;
    proof {
        let all = parsed_statements(text@, start as int);
        if all is Some {
            assert(Seq::<RowView>::empty() + all.unwrap() =~= all.unwrap());
        }
    }
    assert(row_views(rows@) =~= Seq::<RowView>::empty());
    while pos < text.len()
        invariant
            start <= pos <= text.len(),
            parsed_statements(text@, start as int) == rows_before(
                row_views(rows@),
                parsed_statements(text@, pos as int),
            ),
        decreases text.len() - pos,
    {
        match parse_statement_at(text, pos) {
            Some((row, next)) => {
                proof {
                    let head = row_views(rows@);
                    let longer = row_views(rows@.push(row));
                    assert(longer =~= head.push(row@));
                    let tail = parsed_statements(text@, next as int);
                    if tail is Some {
                        assert(head + (seq![row@] + tail.unwrap()) =~= longer + tail.unwrap());
                    }
                }
                rows.push(row);
                pos = next;
            },
            None => {
                return None;
            },
        }
    }
    assert(row_views(rows@) + Seq::<RowView>::empty() =~= row_views(rows@));
    Some(rows)
}

/// Whether the ids of the rows are strictly ascending.
pub fn ids_ascend(rows: &Vec<StoredRow>) -> (ok: bool)
    ensures
        ok == ascending_ids(row_views(rows@)),
{
    let ghost all = row_views(rows@);
    let mut i: usize = 1;
    while i < rows.len()
        invariant
            1 <= i,
            all == row_views(rows@),
            forall|j: int, k: int| 0 <= j < k < i && k < rows.len() ==> (#[trigger] all[j]).id < (
            #[trigger] all[k]).id,
        decreases rows.len() - i,
    {
        if rows[i - 1].id >= rows[i].id {
            assert(all[i - 1].id >= all[i as int].id);
            return false;
        }
        proof {
            assert forall|j: int, k: int| 0 <= j < k < i + 1 && k < rows.len() implies (#[trigger] all[j]).id
                < (#[trigger] all[k]).id by {
                if k == i && j < i - 1 {
                    assert(all[j].id < all[i - 1].id);
                }
            }
        }
        i += 1;
    }
    true
}

/// Reads a dump: the rows of the table it is the dump of.
pub fn parse_dump(text: &Vec<char>) -> (found: Option<Vec<StoredRow>>)
    ensures
        match found {
            Some(rows) => parsed_dump(text@) == Some(row_views(rows@)),
            None => parsed_dump(text@) is None,
        },
{
    let mut head = chars_of(ACCOUNTS_SCHEMA);
    head.push(';');
    assert(head@ =~= dump_head());
    if !matches_at(text, 0, &head) {
        return None;
    }
    match parse_statements_from(text, head.len()) {
        Some(rows) => {
            if ids_ascend(&rows) {
                Some(rows)
            } else {
                None
            }
        },
        None => None,
    }
}

/// The first characters of the fixed parts: a comma, a bracket, an `N`.
proof fn lemma_literal_heads()
    ensures
        SEPARATOR@.len() == 2,
        SEPARATOR@[0] == ',',
        INSERT_TAIL@.len() == 2,
        INSERT_TAIL@[0] == ')',
        NULL_TEXT@.len() == 4,
        NULL_TEXT@[0] == 'N',
{
    reveal_strlit(", ");
    reveal_strlit(");");
    reveal_strlit("NULL");
}

proof fn lemma_assoc(a: Seq<char>, b: Seq<char>, c: Seq<char>)
    ensures
        (a + b) + c == a + (b + c),
{
    assert((a + b) + c =~= a + (b + c));
}

proof fn lemma_subrange_join(s: Seq<char>, a: int, b: int, c: int)
    requires
        0 <= a <= b <= c <= s.len(),
    ensures
        s.subrange(a, c) == s.subrange(a, b) + s.subrange(b, c),
{
    assert(s.subrange(a, c) =~= s.subrange(a, b) + s.subrange(b, c));
}

/// A part is found where it stands, and what follows it is left.
proof fn lemma_literal_step(s: Seq<char>, at: int, part: Seq<char>, rest: Seq<char>)
    requires
        0 <= at <= s.len(),
        s.skip(at) == part + rest,
    ensures
        after_literal(s, at, part) == Some(at + part.len()),
        at + part.len() <= s.len(),
        s.skip(at + part.len()) == rest,
{
    assert(s.skip(at).len() == part.len() + rest.len());
    assert(s.subrange(at, at + part.len()) =~= (part + rest).take(part.len() as int));
    assert((part + rest).take(part.len() as int) =~= part);
    assert(s.skip(at + part.len()) =~= (part + rest).skip(part.len() as int));
    assert((part + rest).skip(part.len() as int) =~= rest);
}

/// An integer's text is read as the integer where no digit follows it.
proof fn lemma_integer_step(s: Seq<char>, at: int, n: i64, rest: Seq<char>)
    requires
        0 <= at <= s.len(),
        s.skip(at) == integer_text(n as int) + rest,
        rest.len() == 0 || !is_digit(rest[0]),
    ensures
        integer_at(s, at) == Some((n, at + integer_text(n as int).len())),
        at + integer_text(n as int).len() <= s.len(),
        s.skip(at + integer_text(n as int).len()) == rest,
{
    let t = integer_text(n as int);
    lemma_parsed_integer_of_text(n, rest);
    assert(s.skip(at).len() == t.len() + rest.len());
    assert(s.skip(at + t.len()) =~= (t + rest).skip(t.len() as int));
    assert((t + rest).skip(t.len() as int) =~= rest);
}

/// A text's literal is read as the text where no quote follows it.
proof fn lemma_quoted_step(s: Seq<char>, at: int, t: Seq<char>, rest: Seq<char>)
    requires
        0 <= at <= s.len(),
        s.skip(at) == quoted(t) + rest,
        rest.len() == 0 || rest[0] != '\'',
    ensures
        quoted_at(s, at) == Some((t, at + quoted(t).len())),
        at + quoted(t).len() <= s.len(),
        s.skip(at + quoted(t).len()) == rest,
{
    let q = quoted(t);
    let tail = s.skip(at);
    assert(tail[0] == '\'');
    assert(tail.skip(1) =~= escaped(t) + seq!['\''] + rest);
    lemma_unquoted_of_escaped(t, rest);
    assert(tail.len() == q.len() + rest.len());
    assert(s.skip(at + q.len()) =~= (q + rest).skip(q.len() as int));
    assert((q + rest).skip(q.len() as int) =~= rest);
}

/// An e-mail value is read as it was written where no quote follows it.
proof fn lemma_optional_step(s: Seq<char>, at: int, email: Option<Seq<char>>, rest: Seq<char>)
    requires
        0 <= at <= s.len(),
        s.skip(at) == optional_text(email) + rest,
        rest.len() == 0 || rest[0] != '\'',
    ensures
        optional_at(s, at) == Some((email, at + optional_text(email).len())),
        at + optional_text(email).len() <= s.len(),
        s.skip(at + optional_text(email).len()) == rest,
{
    lemma_literal_heads();
    match email {
        Some(e) => {
            lemma_quoted_step(s, at, e, rest);
            if after_literal(s, at, NULL_TEXT@) is Some {
                assert(s.subrange(at, at + 4)[0] == s[at]);
                assert(s[at] == s.skip(at)[0]);
                assert(s.skip(at)[0] == quoted(e)[0]);
            }
        },
        None => {
            lemma_literal_step(s, at, NULL_TEXT@, rest);
        },
    }
}

/// The leading values of a row's statement are read as they were written.
proof fn lemma_leading_values_roundtrip(s: Seq<char>, at: int, row: RowView, rest: Seq<char>) -> (next: int)
    requires
        0 <= at <= s.len(),
        s.skip(at) == statement_text(row) + rest,
    ensures
        leading_values_at(s, at) == Some((row.id, row.account_name, row.password, next)),
        at < next <= s.len(),
        s.skip(next) == trailing_text(row) + rest,
        next - at + trailing_text(row).len() == statement_text(row).len(),
{
    reveal(statement_text);
    reveal(leading_values_at);
    lemma_literal_heads();
    lemma_decimal_digits(if row.id < 0 { (-(row.id as int)) as nat } else { row.id as nat });
    let sep = SEPARATOR@;
    let id = integer_text(row.id as int);
    let name = quoted(row.account_name);
    let password = quoted(row.password);
    let r6 = trailing_text(row);
    let r5 = sep + r6;
    let r4 = password + r5;
    let r3 = sep + r4;
    let r2 = name + r3;
    let r1 = sep + r2;
    let r0 = id + r1;
    lemma_assoc(INSERT_HEAD@, r0, rest);
    lemma_literal_step(s, at, INSERT_HEAD@, r0 + rest);
    let p0 = at + INSERT_HEAD@.len();
    lemma_assoc(id, r1, rest);
    lemma_assoc(sep, r2, rest);
    assert((r1 + rest)[0] == ',');
    lemma_integer_step(s, p0, row.id, r1 + rest);
    let p1 = p0 + id.len();
    lemma_literal_step(s, p1, sep, r2 + rest);
    let p2 = p1 + sep.len();
    lemma_assoc(name, r3, rest);
    lemma_assoc(sep, r4, rest);
    assert((r3 + rest)[0] == ',');
    lemma_quoted_step(s, p2, row.account_name, r3 + rest);
    let p3 = p2 + name.len();
    lemma_literal_step(s, p3, sep, r4 + rest);
    let p4 = p3 + sep.len();
    lemma_assoc(password, r5, rest);
    lemma_assoc(sep, r6, rest);
    assert((r5 + rest)[0] == ',');
    lemma_quoted_step(s, p4, row.password, r5 + rest);
    let p5 = p4 + password.len();
    lemma_literal_step(s, p5, sep, r6 + rest);
    p5 + sep.len()
}

/// The trailing values of a row's statement are read as they were written.
proof fn lemma_trailing_values_roundtrip(s: Seq<char>, at: int, row: RowView, rest: Seq<char>) -> (next: int)
    requires
        0 <= at <= s.len(),
        s.skip(at) == trailing_text(row) + rest,
    ensures
        trailing_values_at(s, at) == Some((row.email, row.created_at, row.updated_at, next)),
        next == at + trailing_text(row).len(),
        next <= s.len(),
        s.skip(next) == rest,
{
    reveal(trailing_text);
    reveal(trailing_values_at);
    lemma_literal_heads();
    let sep = SEPARATOR@;
    let email = optional_text(row.email);
    let created = integer_text(row.created_at as int);
    let updated = integer_text(row.updated_at as int);
    let r4 = updated + INSERT_TAIL@;
    let r3 = sep + r4;
    let r2 = created + r3;
    let r1 = sep + r2;
    lemma_assoc(email, r1, rest);
    lemma_assoc(sep, r2, rest);
    assert((r1 + rest)[0] == ',');
    lemma_optional_step(s, at, row.email, r1 + rest);
    let p1 = at + email.len();
    lemma_literal_step(s, p1, sep, r2 + rest);
    let p2 = p1 + sep.len();
    lemma_assoc(created, r3, rest);
    lemma_assoc(sep, r4, rest);
    assert((r3 + rest)[0] == ',');
    lemma_integer_step(s, p2, row.created_at, r3 + rest);
    let p3 = p2 + created.len();
    lemma_literal_step(s, p3, sep, r4 + rest);
    let p4 = p3 + sep.len();
    lemma_assoc(updated, INSERT_TAIL@, rest);
    assert((INSERT_TAIL@ + rest)[0] == ')');
    lemma_integer_step(s, p4, row.updated_at, INSERT_TAIL@ + rest);
    let p5 = p4 + updated.len();
    lemma_literal_step(s, p5, INSERT_TAIL@, rest);
    p5 + INSERT_TAIL@.len()
}

/// A row's statement is read as the row, whatever follows it.
pub proof fn lemma_statement_roundtrip(s: Seq<char>, at: int, row: RowView, rest: Seq<char>)
    requires
        0 <= at <= s.len(),
        s.skip(at) == statement_text(row) + rest,
    ensures
        parsed_statement(s, at) == Some((row, at + statement_text(row).len())),
        statement_text(row).len() > 0,
        at + statement_text(row).len() <= s.len(),
        s.skip(at + statement_text(row).len()) == rest,
{
    let middle = lemma_leading_values_roundtrip(s, at, row, rest);
    let next = lemma_trailing_values_roundtrip(s, middle, row, rest);
}

/// The statements of a table start with the statement of its first row.
pub proof fn lemma_statements_text_front(row: RowView, rows: Seq<RowView>)
    ensures
        statements_text(seq![row] + rows) == statement_text(row) + statements_text(rows),
    decreases rows.len(),
{
    let all = seq![row] + rows;
    if rows.len() == 0 {
        assert(all.drop_last() =~= Seq::<RowView>::empty());
        assert(statements_text(all.drop_last()) =~= Seq::<char>::empty());
        assert(statements_text(all) =~= statement_text(row) + statements_text(rows));
    } else {
        lemma_statements_text_front(row, rows.drop_last());
        assert(all.drop_last() =~= seq![row] + rows.drop_last());
        assert(all.last() == rows.last());
        lemma_assoc(statement_text(row), statements_text(rows.drop_last()), statement_text(rows.last()));
    }
}

/// The statements of a table, at the end of a text, are read as the table.
pub proof fn lemma_statements_roundtrip(s: Seq<char>, at: int, rows: Seq<RowView>)
    requires
        0 <= at <= s.len(),
        s.skip(at) == statements_text(rows),
    ensures
        parsed_statements(s, at) == Some(rows),
    decreases rows.len(),
{
    if rows.len() == 0 {
        assert(rows =~= Seq::<RowView>::empty());
        assert(s.skip(at).len() == 0);
    } else {
        let first = rows[0];
        let others = rows.skip(1);
        assert(rows =~= seq![first] + others);
        lemma_statements_text_front(first, others);
        lemma_statement_roundtrip(s, at, first, statements_text(others));
        let next = at + statement_text(first).len();
        lemma_statements_roundtrip(s, next, others);
        assert(s.skip(at).len() > 0);
        assert(parsed_statement(s, at) == Some((first, next)));
        assert(parsed_statements(s, next) == Some(others));
        assert(parsed_statements(s, at) == Some(seq![first] + others));
    }
}

/// **Dump and restore.** The dump of a table is read back as that table:
/// the same rows, with the same ids, names, passwords, addresses and
/// timestamps, in the same order.
pub proof fn lemma_dump_roundtrip(rows: Seq<RowView>)
    requires
        ascending_ids(rows),
    ensures
        parsed_dump(dump_text(rows)) == Some(rows),
{
    let s = dump_text(rows);
    assert(s.skip(0) =~= s);
    lemma_literal_step(s, 0, dump_head(), statements_text(rows));
    lemma_statements_roundtrip(s, dump_head().len() as int, rows);
}

/// What is read as an integer at `at` stands there as its decimal text.
proof fn lemma_integer_at_sound(s: Seq<char>, at: int)
    ensures
        integer_at(s, at) matches Some((value, next)) ==> at < next <= s.len() && s.subrange(at, next)
            == integer_text(value as int),
{
    if integer_at(s, at) is Some {
        lemma_parsed_integer_sound(s.skip(at));
        let (value, len) = parsed_integer(s.skip(at)).unwrap();
        assert(s.skip(at).take(len) =~= s.subrange(at, at + len));
    }
}

/// What is read as a literal at `at` stands there as the text's literal.
proof fn lemma_quoted_at_sound(s: Seq<char>, at: int)
    ensures
        quoted_at(s, at) matches Some((t, next)) ==> at < next <= s.len() && s.subrange(at, next) == quoted(t),
{
    if quoted_at(s, at) is Some {
        let tail = s.skip(at);
        lemma_unquoted_sound(tail.skip(1));
        let (t, k) = unquoted(tail.skip(1)).unwrap();
        assert(tail.skip(1).take(k) =~= s.subrange(at + 1, at + 1 + k));
        assert(s.subrange(at, at + 1 + k) =~= seq!['\''] + s.subrange(at + 1, at + 1 + k));
        assert(s.subrange(at, at + 1 + k) =~= quoted(t));
    }
}

/// What is read as an e-mail value at `at` stands there as its text.
proof fn lemma_optional_at_sound(s: Seq<char>, at: int)
    ensures
        optional_at(s, at) matches Some((email, next)) ==> at < next <= s.len() && s.subrange(at, next)
            == optional_text(email),
{
    lemma_literal_heads();
    lemma_quoted_at_sound(s, at);
}

/// What is read as the trailing values at `at` stands there as their text.
proof fn lemma_trailing_values_sound(s: Seq<char>, at: int, row: RowView)
    requires
        trailing_values_at(s, at) matches Some((email, created_at, updated_at, next)) && email == row.email
            && created_at == row.created_at && updated_at == row.updated_at,
    ensures
        trailing_values_at(s, at) matches Some((email, created_at, updated_at, next)) && at < next <= s.len()
            && s.subrange(at, next) == trailing_text(row),
{
    reveal(trailing_text);
    reveal(trailing_values_at);
    lemma_optional_at_sound(s, at);
    let (email, q1) = optional_at(s, at).unwrap();
    let q2 = after_literal(s, q1, SEPARATOR@).unwrap();
    lemma_integer_at_sound(s, q2);
    let (created_at, q3) = integer_at(s, q2).unwrap();
    let q4 = after_literal(s, q3, SEPARATOR@).unwrap();
    lemma_integer_at_sound(s, q4);
    let (updated_at, q5) = integer_at(s, q4).unwrap();
    let q6 = after_literal(s, q5, INSERT_TAIL@).unwrap();
    lemma_subrange_join(s, q4, q5, q6);
    lemma_subrange_join(s, q3, q4, q6);
    lemma_subrange_join(s, q2, q3, q6);
    lemma_subrange_join(s, q1, q2, q6);
    lemma_subrange_join(s, at, q1, q6);
}

/// What is read as the leading values at `at` stands there as their text.
proof fn lemma_leading_values_sound(s: Seq<char>, at: int, row: RowView, end: int)
    requires
        leading_values_at(s, at) matches Some((id, name, password, middle)) && id == row.id && name
            == row.account_name && password == row.password && middle <= end <= s.len() && s.subrange(
            middle,
            end,
        ) == trailing_text(row),
    ensures
        at < end,
        s.subrange(at, end) == statement_text(row),
{
    reveal(statement_text);
    reveal(leading_values_at);
    let p0 = after_literal(s, at, INSERT_HEAD@).unwrap();
    lemma_integer_at_sound(s, p0);
    let (id, p1) = integer_at(s, p0).unwrap();
    let p2 = after_literal(s, p1, SEPARATOR@).unwrap();
    lemma_quoted_at_sound(s, p2);
    let (name, p3) = quoted_at(s, p2).unwrap();
    let p4 = after_literal(s, p3, SEPARATOR@).unwrap();
    lemma_quoted_at_sound(s, p4);
    let (password, p5) = quoted_at(s, p4).unwrap();
    let p6 = after_literal(s, p5, SEPARATOR@).unwrap();
    lemma_subrange_join(s, p5, p6, end);
    lemma_subrange_join(s, p4, p5, end);
    lemma_subrange_join(s, p3, p4, end);
    lemma_subrange_join(s, p2, p3, end);
    lemma_subrange_join(s, p1, p2, end);
    lemma_subrange_join(s, p0, p1, end);
    lemma_subrange_join(s, at, p0, end);
}

/// What is read as a statement at `at` stands there as the row's statement.
pub proof fn lemma_statement_sound(s: Seq<char>, at: int)
    ensures
        parsed_statement(s, at) matches Some((row, next)) ==> at < next <= s.len() && s.subrange(at, next)
            == statement_text(row),
{
    if parsed_statement(s, at) is Some {
        let (row, next) = parsed_statement(s, at).unwrap();
        let (id, name, password, middle) = leading_values_at(s, at).unwrap();
        lemma_trailing_values_sound(s, middle, row);
        lemma_leading_values_sound(s, at, row, next);
    }
}

/// What is read as the statements from `at` stands there as the statements of
/// those rows.
pub proof fn lemma_statements_sound(s: Seq<char>, at: int)
    requires
        0 <= at <= s.len(),
    ensures
        parsed_statements(s, at) matches Some(rows) ==> s.skip(at) == statements_text(rows),
    decreases s.len() - at,
{
    if at >= s.len() {
        assert(s.skip(at) =~= statements_text(Seq::<RowView>::empty()));
    } else if parsed_statements(s, at) is Some {
        lemma_statement_sound(s, at);
        let (row, next) = parsed_statement(s, at).unwrap();
        lemma_statements_sound(s, next);
        let rows = parsed_statements(s, next).unwrap();
        lemma_statements_text_front(row, rows);
        assert(s.skip(at) =~= s.subrange(at, next) + s.skip(next));
    }
}

/// **Nothing else is read.** A text that is read as a table is the dump of
/// that table, character for character, and the table's ids ascend.
pub proof fn lemma_dump_sound(s: Seq<char>)
    ensures
        parsed_dump(s) matches Some(rows) ==> s == dump_text(rows) && ascending_ids(rows),
{
    if parsed_dump(s) is Some {
        let start = after_literal(s, 0, dump_head()).unwrap();
        lemma_statements_sound(s, start);
        assert(s =~= s.subrange(0, start) + s.skip(start));
    }
}

/// A table has one dump only: two tables with the same dump are the same.
pub proof fn lemma_dump_text_injective(a: Seq<RowView>, b: Seq<RowView>)
    requires
        ascending_ids(a),
        ascending_ids(b),
        dump_text(a) == dump_text(b),
    ensures
        a == b,
{
    lemma_dump_roundtrip(a);
    lemma_dump_roundtrip(b);
}

} // verus!
