//! Character-level helpers on which the parsers and formatters of this crate
//! are built. Everything here is stated over `Seq<char>`, the view of a
//! string.

use vstd::prelude::*;
use vstd::utf8::{decode_utf8, valid_utf8};

verus! {

/// `String::push` appends one character to the end of the string.
pub assume_specification[ String::push ](s: &mut String, ch: char)
    ensures
        final(s)@ == old(s)@.push(ch),
;

/// `String::from_utf8`: the text that the bytes encode, or `None` where they
/// are not UTF-8.
#[verifier::external_body]
pub(crate) fn string_from_utf8(bytes: Vec<u8>) -> (text: Option<String>)
    ensures
        text is Some == valid_utf8(bytes@),
        text matches Some(t) ==> t@ == decode_utf8(bytes@),
{
    String::from_utf8(bytes).ok()
}

/// The characters of `text`, in order.
pub fn chars_of(text: &str) -> (out: Vec<char>)
    ensures
        out@ == text@,
{
    let mut out: Vec<char> = Vec::new();
    for c in it: text.chars()
        invariant
            out@ == it.seq().take(it.index() as int),
            it.seq() == text@,
    {
        out.push(c);
    }
    out
}

/// The string that holds exactly `chars`.
pub fn string_of(chars: &Vec<char>) -> (out: String)
    ensures
        out@ == chars@,
{
    let mut out = String::new();
    let mut i: usize = 0;
    while i < chars.len()
        invariant
            i <= chars.len(),
            out@ == chars@.take(i as int),
        decreases chars.len() - i,
    {
        out.push(chars[i]);
        i += 1;
    }
    out
}

/// The index of the first `c` in `s`, or the length of `s` where it holds
/// none.
pub open spec fn first_index_of(s: Seq<char>, c: char) -> int
    decreases s.len(),
{
    if s.len() == 0 || s[0] == c {
        0
    } else {
        1 + first_index_of(s.skip(1), c)
    }
}

/// What `first_index_of` means: the place it names holds `c`, and no place
/// before it does.
pub proof fn lemma_first_index_of(s: Seq<char>, c: char)
    ensures
        0 <= first_index_of(s, c) <= s.len(),
        first_index_of(s, c) < s.len() ==> s[first_index_of(s, c)] == c,
        forall|j: int| 0 <= j < first_index_of(s, c) ==> s[j] != c,
    decreases s.len(),
{
    if s.len() == 0 || s[0] == c {
    } else {
        lemma_first_index_of(s.skip(1), c);
        let r = first_index_of(s.skip(1), c);
        assert forall|j: int| 0 <= j < 1 + r implies s[j] != c by {
            if j > 0 {
                assert(s.skip(1)[j - 1] == s[j]);
            }
        }
        if r < s.skip(1).len() {
            assert(s.skip(1)[r] == s[r + 1]);
        }
    }
}

/// A place that holds `c`, with no `c` before it, is the first.
pub proof fn lemma_first_index_of_at(s: Seq<char>, c: char, i: int)
    requires
        0 <= i < s.len(),
        s[i] == c,
        forall|j: int| 0 <= j < i ==> s[j] != c,
    ensures
        first_index_of(s, c) == i,
{
    lemma_first_index_of(s, c);
}

/// Where `s` holds no `c`, the first index is the length.
pub proof fn lemma_first_index_of_absent(s: Seq<char>, c: char)
    requires
        forall|j: int| 0 <= j < s.len() ==> s[j] != c,
    ensures
        first_index_of(s, c) == s.len(),
{
    lemma_first_index_of(s, c);
}

/// The index of the first `c` at or after `from`, or the length of `text`.
pub fn find_char(text: &Vec<char>, from: usize, c: char) -> (at: usize)
    requires
        from <= text.len(),
    ensures
        from <= at <= text.len(),
        at == from + first_index_of(text@.skip(from as int), c),
{
    let mut at = from;
    while at < text.len() && text[at] != c
        invariant
            from <= at <= text.len(),
            forall|j: int| from <= j < at ==> text@[j] != c,
        decreases text.len() - at,
    {
        at += 1;
    }
    proof {
        let tail = text@.skip(from as int);
        if at < text.len() {
            lemma_first_index_of_at(tail, c, at - from);
        } else {
            lemma_first_index_of_absent(tail, c);
        }
    }
    at
}

/// The characters of `text` from `from` up to `to`.
pub fn slice_chars(text: &Vec<char>, from: usize, to: usize) -> (out: Vec<char>)
    requires
        from <= to <= text.len(),
    ensures
        out@ == text@.subrange(from as int, to as int),
{
    let mut out: Vec<char> = Vec::new();
    let mut i = from;
    while i < to
        invariant
            from <= i <= to <= text.len(),
            out@ == text@.subrange(from as int, i as int),
        decreases to - i,
    {
        out.push(text[i]);
        i += 1;
    }
    out
}

/// Whether `c` is one of the ten decimal digits.
pub open spec fn is_digit(c: char) -> bool {
    48 <= c as u32 <= 57
}

/// The value of a decimal digit.
pub open spec fn digit_value(c: char) -> nat {
    (c as u32 - 48) as nat
}

/// The character of a value below ten.
pub open spec fn digit_char(d: nat) -> char {
    (d + 48) as char
}

/// The decimal digits of a natural number, most significant first, without
/// leading zeros.
pub open spec fn decimal_digits(n: nat) -> Seq<char>
    decreases n,
{
    if n < 10 {
        seq![digit_char(n)]
    } else {
        decimal_digits(n / 10).push(digit_char(n % 10))
    }
}

/// The number that a run of decimal digits stands for.
pub open spec fn digits_value(s: Seq<char>) -> nat
    decreases s.len(),
{
    if s.len() == 0 {
        0
    } else {
        digits_value(s.drop_last()) * 10 + digit_value(s.last())
    }
}

/// The decimal text of an integer: a minus sign where it is negative, then the
/// digits of its magnitude.
pub open spec fn integer_text(n: int) -> Seq<char> {
    if n < 0 {
        seq!['-'] + decimal_digits((-n) as nat)
    } else {
        decimal_digits(n as nat)
    }
}

/// The integer that a text stands for, read as an optional minus sign and a
/// run of digits.
pub open spec fn integer_value(s: Seq<char>) -> int {
    if s.len() > 0 && s[0] == '-' {
        -(digits_value(s.skip(1)) as int)
    } else {
        digits_value(s) as int
    }
}

/// The number of digits at the head of `s`.
pub open spec fn digit_run(s: Seq<char>) -> int
    decreases s.len(),
{
    if s.len() == 0 || !is_digit(s[0]) {
        0
    } else {
        1 + digit_run(s.skip(1))
    }
}

/// The length of the integer token at the head of `s`: an optional minus
/// sign, then every digit that follows.
pub open spec fn integer_token_len(s: Seq<char>) -> int {
    if s.len() > 0 && s[0] == '-' {
        1 + digit_run(s.skip(1))
    } else {
        digit_run(s)
    }
}

/// What the head of `s` is read as: the 64-bit integer whose decimal text is
/// exactly the integer token there, with the token's length; `None` where
/// the token is no such text (empty, a lone sign, leading zeros, `-0`, out
/// of range).
pub open spec fn parsed_integer(s: Seq<char>) -> Option<(i64, int)> {
    let len = integer_token_len(s);
    let token = s.take(len);
    let value = integer_value(token);
    if i64::MIN <= value <= i64::MAX && integer_text(value) == token {
        Some((value as i64, len))
    } else {
        None
    }
}

/// The digits of a number are digits, at least one, and read back as the
/// number.
pub proof fn lemma_decimal_digits(n: nat)
    ensures
        decimal_digits(n).len() >= 1,
        forall|i: int| 0 <= i < decimal_digits(n).len() ==> is_digit(#[trigger] decimal_digits(n)[i]),
        digits_value(decimal_digits(n)) == n,
    decreases n,
{
    if n < 10 {
        let s = decimal_digits(n);
        assert(s.drop_last() =~= Seq::<char>::empty());
        assert(digits_value(s.drop_last()) == 0);
    } else {
        lemma_decimal_digits(n / 10);
        let s = decimal_digits(n);
        assert(s.drop_last() =~= decimal_digits(n / 10));
    }
}

/// A run of digits is as long as the text it is the whole of, and no longer
/// than the first character that is no digit.
pub proof fn lemma_digit_run(s: Seq<char>)
    ensures
        0 <= digit_run(s) <= s.len(),
        forall|i: int| 0 <= i < digit_run(s) ==> is_digit(#[trigger] s[i]),
        digit_run(s) < s.len() ==> !is_digit(s[digit_run(s)]),
    decreases s.len(),
{
    if s.len() == 0 || !is_digit(s[0]) {
    } else {
        lemma_digit_run(s.skip(1));
        let r = digit_run(s.skip(1));
        assert forall|i: int| 0 <= i < 1 + r implies is_digit(#[trigger] s[i]) by {
            if i > 0 {
                assert(s.skip(1)[i - 1] == s[i]);
            }
        }
        if 1 + r < s.len() {
            assert(s.skip(1)[r] == s[1 + r]);
        }
    }
}

/// Where the first `k` characters are digits and the next is none, the run
/// is `k` long.
pub proof fn lemma_digit_run_is(s: Seq<char>, k: int)
    requires
        0 <= k <= s.len(),
        forall|i: int| 0 <= i < k ==> is_digit(#[trigger] s[i]),
        k < s.len() ==> !is_digit(s[k]),
    ensures
        digit_run(s) == k,
{
    lemma_digit_run(s);
}

/// The integer token at the head of an integer's text, followed by anything
/// that does not start with a digit, is that text, and it is read as that
/// integer.
pub proof fn lemma_parsed_integer_of_text(n: i64, rest: Seq<char>)
    requires
        rest.len() == 0 || !is_digit(rest[0]),
    ensures
        parsed_integer(integer_text(n as int) + rest) == Some((n, integer_text(n as int).len() as int)),
{
    let t = integer_text(n as int);
    let s = t + rest;
    let mag: nat = if n < 0 { (-(n as int)) as nat } else { n as nat };
    let d = decimal_digits(mag);
    lemma_decimal_digits(mag);
    assert(is_digit(d[0]));
    if n < 0 {
        assert(t =~= seq!['-'] + d);
        assert(s.skip(1) =~= d + rest);
        assert forall|i: int| 0 <= i < d.len() implies is_digit(#[trigger] (d + rest)[i]) by {
            assert((d + rest)[i] == d[i]);
        }
        lemma_digit_run_is(d + rest, d.len() as int);
        assert(s.take(t.len() as int) =~= t);
        assert(t.skip(1) =~= d);
    } else {
        assert(t == d);
        assert(s[0] == d[0]);
        assert forall|i: int| 0 <= i < d.len() implies is_digit(#[trigger] s[i]) by {
            assert(s[i] == d[i]);
        }
        lemma_digit_run_is(s, d.len() as int);
        assert(s.take(t.len() as int) =~= t);
    }
}

/// What is read as an integer is the decimal text of that integer.
pub proof fn lemma_parsed_integer_sound(s: Seq<char>)
    ensures
        parsed_integer(s) matches Some((value, len)) ==> 0 < len <= s.len() && s.take(len) == integer_text(
            value as int,
        ),
{
    if s.len() > 0 && s[0] == '-' {
        lemma_digit_run(s.skip(1));
    } else {
        lemma_digit_run(s);
    }
    if parsed_integer(s) is Some {
        let (value, _) = parsed_integer(s).unwrap();
        let mag: nat = if value < 0 { (-(value as int)) as nat } else { value as nat };
        lemma_decimal_digits(mag);
    }
}

/// Appends `more` to `out`.
pub fn append_chars(out: &mut Vec<char>, more: &Vec<char>)
    ensures
        final(out)@ == old(out)@ + more@,
{
    let mut i: usize = 0;
    while i < more.len()
        invariant
            i <= more.len(),
            out@ == old(out)@ + more@.take(i as int),
        decreases more.len() - i,
    {
        out.push(more[i]);
        assert(more@.take(i + 1) =~= more@.take(i as int).push(more@[i as int]));
        i += 1;
    }
    assert(more@.take(more.len() as int) =~= more@);
}

/// Whether `text` holds `part` at `pos`.
pub fn matches_at(text: &Vec<char>, pos: usize, part: &Vec<char>) -> (same: bool)
    requires
        pos <= text.len(),
    ensures
        same == (pos + part.len() <= text.len() && text@.subrange(pos as int, pos + part.len()) == part@),
{
    if part.len() > text.len() - pos {
        return false;
    }
    let mut i: usize = 0;
    while i < part.len()
        invariant
            i <= part.len(),
            pos + part.len() <= text.len(),
            forall|j: int| 0 <= j < i ==> text@[pos + j] == part@[j],
        decreases part.len() - i,
    {
        if text[pos + i] != part[i] {
            assert(text@.subrange(pos as int, pos + part.len())[i as int] != part@[i as int]);
            return false;
        }
        i += 1;
    }
    assert(text@.subrange(pos as int, pos + part.len()) =~= part@);
    true
}

fn digit_to_char(d: u8) -> (c: char)
    requires
        d < 10,
    ensures
        c == digit_char(d as nat),
{
    (d + 48) as char
}

/// Appends the decimal text of `n` to `out`.
pub fn push_integer(out: &mut Vec<char>, n: i64)
    ensures
        final(out)@ == old(out)@ + integer_text(n as int),
{
    let mag: u64 = if n < 0 {
        (-(n + 1)) as u64 + 1
    } else {
        n as u64
    };
    let mut digits: Vec<char> = Vec::new();
    let mut rest = mag;
    while rest >= 10
        invariant
            decimal_digits(mag as nat) == decimal_digits(rest as nat) + digits@,
        decreases rest,
    {
        let c = digit_to_char((rest % 10) as u8);
        let ghost before = digits@;
        digits.insert(0, c);
        assert(decimal_digits((rest / 10) as nat) + digits@ =~= decimal_digits(rest as nat) + before);
        rest = rest / 10;
    }
    let c = digit_to_char(rest as u8);
    let ghost before = digits@;
    digits.insert(0, c);
    assert(digits@ =~= decimal_digits(rest as nat) + before);
    if n < 0 {
        out.push('-');
    }
    append_chars(out, &digits);
    assert(final(out)@ =~= old(out)@ + integer_text(n as int));
}

/// Reads the integer at `pos`: its value and the index behind it.
pub fn parse_integer_at(text: &Vec<char>, pos: usize) -> (found: Option<(i64, usize)>)
    requires
        pos <= text.len(),
    ensures
        match found {
            Some((value, next)) => pos < next <= text.len() && parsed_integer(text@.skip(pos as int)) == Some(
                (value, next - pos),
            ),
            None => parsed_integer(text@.skip(pos as int)) is None,
        },
{
    let ghost s = text@.skip(pos as int);
    let negative = pos < text.len() && text[pos] == '-';
    let start = if negative {
        pos + 1
    } else {
        pos
    };
    let mut end = start;
    let mut mag: u128 = 0;
    let mut overflow = false;
    while end < text.len() && 48 <= text[end] as u32 && text[end] as u32 <= 57
        invariant
            start <= end <= text.len(),
            forall|j: int| start <= j < end ==> is_digit(#[trigger] text@[j]),
            !overflow ==> mag == digits_value(text@.subrange(start as int, end as int)) && mag
                <= 0x8000_0000_0000_0000,
            overflow ==> digits_value(text@.subrange(start as int, end as int)) > 0x8000_0000_0000_0000,
        decreases text.len() - end,
    {
        let d = (text[end] as u32 - 48) as u128;
        proof {
            let run = text@.subrange(start as int, end as int);
            let longer = text@.subrange(start as int, end + 1);
            assert(longer.drop_last() =~= run);
            assert(longer.last() == text@[end as int]);
            assert(digits_value(longer) == digits_value(run) * 10 + digit_value(text@[end as int]));
        }
        if !overflow {
            mag = mag * 10 + d;
            if mag > 0x8000_0000_0000_0000 {
                overflow = true;
            }
        }
        end += 1;
    }
    proof {
        let tail = if negative { s.skip(1) } else { s };
        assert(tail =~= text@.skip(start as int));
        assert forall|i: int| 0 <= i < end - start implies is_digit(#[trigger] tail[i]) by {
            assert(tail[i] == text@[start + i]);
        }
        lemma_digit_run_is(tail, end - start);
        assert(integer_token_len(s) == end - pos);
        let token = s.take(end - pos);
        assert(token =~= text@.subrange(pos as int, end as int));
        if negative {
            assert(token.skip(1) =~= text@.subrange(start as int, end as int));
        }
    }
    if overflow {
        return None;
    }
    if !negative && mag == 0x8000_0000_0000_0000 {
        return None;
    }
    let value: i64 = if negative {
        if mag == 0x8000_0000_0000_0000 {
            i64::MIN
        } else {
            -(mag as i64)
        }
    } else {
        mag as i64
    };
    let mut canonical: Vec<char> = Vec::new();
    push_integer(&mut canonical, value);
    assert(canonical@ =~= integer_text(value as int));
    if canonical.len() == end - pos && matches_at(text, pos, &canonical) {
        Some((value, end))
    } else {
        None
    }
}

/// A text with each single quote doubled.
pub open spec fn escaped(s: Seq<char>) -> Seq<char>
    decreases s.len(),
{
    if s.len() == 0 {
        Seq::empty()
    } else if s[0] == '\'' {
        seq!['\'', '\''] + escaped(s.skip(1))
    } else {
        seq![s[0]] + escaped(s.skip(1))
    }
}

/// A text as a literal: between single quotes, its own quotes doubled.
pub open spec fn quoted(s: Seq<char>) -> Seq<char> {
    seq!['\''] + escaped(s) + seq!['\'']
}

/// What the inside of a literal is read as, from behind its opening quote:
/// the text it stands for and the number of characters up to and with the
/// closing quote. `None` where no closing quote follows.
pub open spec fn unquoted(s: Seq<char>) -> Option<(Seq<char>, int)>
    decreases s.len(),
{
    if s.len() == 0 {
        None
    } else if s[0] != '\'' {
        match unquoted(s.skip(1)) {
            Some((t, k)) => Some((seq![s[0]] + t, k + 1)),
            None => None,
        }
    } else if s.len() >= 2 && s[1] == '\'' {
        match unquoted(s.skip(2)) {
            Some((t, k)) => Some((seq!['\''] + t, k + 2)),
            None => None,
        }
    } else {
        Some((Seq::empty(), 1))
    }
}

/// What the head of `s` is read as where a literal is due: the text it stands
/// for and the literal's length.
pub open spec fn parsed_quoted(s: Seq<char>) -> Option<(Seq<char>, int)> {
    if s.len() > 0 && s[0] == '\'' {
        match unquoted(s.skip(1)) {
            Some((t, k)) => Some((t, k + 1)),
            None => None,
        }
    } else {
        None
    }
}

/// Escaping goes character by character.
pub proof fn lemma_escaped_push(s: Seq<char>, c: char)
    ensures
        escaped(s.push(c)) == escaped(s) + (if c == '\'' {
            seq!['\'', '\'']
        } else {
            seq![c]
        }),
    decreases s.len(),
{
    if s.len() == 0 {
        assert(s.push(c).skip(1) =~= Seq::<char>::empty());
        assert(escaped(s.push(c).skip(1)) =~= Seq::<char>::empty());
        assert(escaped(s.push(c)) =~= escaped(s) + (if c == '\'' {
            seq!['\'', '\'']
        } else {
            seq![c]
        }));
    } else {
        lemma_escaped_push(s.skip(1), c);
        assert(s.push(c).skip(1) =~= s.skip(1).push(c));
        assert(escaped(s.push(c)) =~= escaped(s) + (if c == '\'' {
            seq!['\'', '\'']
        } else {
            seq![c]
        }));
    }
}

/// The inside of a text's literal, followed by anything that does not start
/// with a quote, is read as that text.
pub proof fn lemma_unquoted_of_escaped(t: Seq<char>, rest: Seq<char>)
    requires
        rest.len() == 0 || rest[0] != '\'',
    ensures
        unquoted(escaped(t) + seq!['\''] + rest) == Some((t, escaped(t).len() as int + 1)),
    decreases t.len(),
{
    let s = escaped(t) + seq!['\''] + rest;
    if t.len() == 0 {
        assert(s =~= seq!['\''] + rest);
        if s.len() >= 2 {
            assert(s[1] == rest[0]);
        }
    } else {
        lemma_unquoted_of_escaped(t.skip(1), rest);
        let inner = escaped(t.skip(1)) + seq!['\''] + rest;
        if t[0] == '\'' {
            assert(s.skip(2) =~= inner);
            assert(s[0] == '\'' && s[1] == '\'');
            assert(seq!['\''] + t.skip(1) =~= t);
        } else {
            assert(s.skip(1) =~= inner);
            assert(s[0] == t[0]);
            assert(seq![t[0]] + t.skip(1) =~= t);
        }
    }
}

/// What is read as the inside of a literal is the escaped text with its
/// closing quote, and no quote follows it.
pub proof fn lemma_unquoted_sound(s: Seq<char>)
    ensures
        unquoted(s) matches Some((t, k)) ==> {
            &&& 0 < k <= s.len()
            &&& s.take(k) == escaped(t) + seq!['\'']
            &&& (k < s.len() ==> s[k] != '\'')
        },
    decreases s.len(),
{
    if s.len() == 0 {
    } else if s[0] != '\'' {
        lemma_unquoted_sound(s.skip(1));
        if unquoted(s.skip(1)) is Some {
            let (t, k) = unquoted(s.skip(1)).unwrap();
            let full = seq![s[0]] + t;
            assert(full.skip(1) =~= t);
            assert(s.take(k + 1) =~= seq![s[0]] + s.skip(1).take(k));
            assert(s.take(k + 1) =~= escaped(full) + seq!['\'']);
            if k + 1 < s.len() {
                assert(s.skip(1)[k] == s[k + 1]);
            }
        }
    } else if s.len() >= 2 && s[1] == '\'' {
        lemma_unquoted_sound(s.skip(2));
        if unquoted(s.skip(2)) is Some {
            let (t, k) = unquoted(s.skip(2)).unwrap();
            let full = seq!['\''] + t;
            assert(full.skip(1) =~= t);
            assert(s.take(k + 2) =~= seq!['\'', '\''] + s.skip(2).take(k));
            assert(s.take(k + 2) =~= escaped(full) + seq!['\'']);
            if k + 2 < s.len() {
                assert(s.skip(2)[k] == s[k + 2]);
            }
        }
    } else {
        assert(s.take(1) =~= escaped(Seq::<char>::empty()) + seq!['\'']);
    }
}

/// Appends `s` as a literal to `out`.
pub fn push_quoted(out: &mut Vec<char>, s: &Vec<char>)
    ensures
        final(out)@ == old(out)@ + quoted(s@),
{
    out.push('\'');
    let mut i: usize = 0;
    while i < s.len()
        invariant
            i <= s.len(),
            out@ == old(out)@ + seq!['\''] + escaped(s@.take(i as int)),
        decreases s.len() - i,
    {
        let c = s[i];
        proof {
            lemma_escaped_push(s@.take(i as int), c);
            assert(s@.take(i + 1) =~= s@.take(i as int).push(c));
        }
        if c == '\'' {
            out.push('\'');
        }
        out.push(c);
        i += 1;
        assert(out@ =~= old(out)@ + seq!['\''] + escaped(s@.take(i as int)));
    }
    out.push('\'');
    assert(s@.take(s.len() as int) =~= s@);
    assert(final(out)@ =~= old(out)@ + quoted(s@));
}

/// `found` with `head` put before its text and `skipped` added to its length.
pub open spec fn prepended(head: Seq<char>, skipped: int, found: Option<(Seq<char>, int)>) -> Option<
    (Seq<char>, int),
> {
    match found {
        Some((t, k)) => Some((head + t, skipped + k)),
        None => None,
    }
}

/// Reads the literal at `pos`: the text it stands for and the index behind
/// it.
pub fn parse_quoted_at(text: &Vec<char>, pos: usize) -> (found: Option<(Vec<char>, usize)>)
    requires
        pos <= text.len(),
    ensures
        match found {
            Some((t, next)) => pos < next <= text.len() && parsed_quoted(text@.skip(pos as int)) == Some(
                (t@, next - pos),
            ),
            None => parsed_quoted(text@.skip(pos as int)) is None,
        },
{
    if pos >= text.len() || text[pos] != '\'' {
        return None;
    }
    let ghost body = text@.skip(pos as int).skip(1);
    assert(body =~= text@.skip(pos + 1));
    let mut content: Vec<char> = Vec::new();
    let mut i: usize = pos + 1;
    loop
        invariant
            pos < i <= text.len(),
            text@[pos as int] == '\'',
            body == text@.skip(pos as int).skip(1),
            body == text@.skip(pos + 1),
            unquoted(body) == prepended(content@, i - pos - 1, unquoted(text@.skip(i as int))),
        decreases text.len() - i,
    {
        let ghost here = text@.skip(i as int);
        if i >= text.len() {
            return None;
        }
        let c = text[i];
        if c != '\'' {
            proof {
                assert(here.skip(1) =~= text@.skip(i + 1));
                let inner = unquoted(text@.skip(i + 1));
                if inner is Some {
                    let (t, k) = inner.unwrap();
                    assert(content@.push(c) + t =~= content@ + (seq![c] + t));
                }
            }
            content.push(c);
            i += 1;
        } else if i + 1 < text.len() && text[i + 1] == '\'' {
            proof {
                assert(here.skip(2) =~= text@.skip(i + 2));
                assert(here[1] == text@[i + 1]);
                let inner = unquoted(text@.skip(i + 2));
                if inner is Some {
                    let (t, k) = inner.unwrap();
                    assert(content@.push(c) + t =~= content@ + (seq!['\''] + t));
                }
            }
            content.push(c);
            i += 2;
        } else {
            proof {
                if here.len() >= 2 {
                    assert(here[1] == text@[i + 1]);
                }
                assert(content@ + Seq::<char>::empty() =~= content@);
            }
            return Some((content, i + 1));
        }
    }
}

/// A character with the capital letters `A` to `Z` made small.
pub open spec fn ascii_lower(c: char) -> char {
    if 65 <= c as u32 <= 90 {
        ((c as u32) + 32) as char
    } else {
        c
    }
}

/// A character with the small letters `a` to `z` made capital.
pub open spec fn ascii_upper(c: char) -> char {
    if 97 <= c as u32 <= 122 {
        ((c as u32) - 32) as char
    } else {
        c
    }
}

/// Whether `text` holds `part` at `at`, capital and small ASCII letters taken
/// as the same.
pub open spec fn holds_at_ignoring_case(text: Seq<char>, at: int, part: Seq<char>) -> bool {
    &&& 0 <= at
    &&& at + part.len() <= text.len()
    &&& forall|k: int| 0 <= k < part.len() ==> ascii_lower(#[trigger] text[at + k]) == ascii_lower(part[k])
}

/// Whether `text` holds `part` somewhere, capital and small ASCII letters
/// taken as the same. Every text holds the empty text.
pub open spec fn contains_ignoring_case(text: Seq<char>, part: Seq<char>) -> bool {
    exists|at: int| holds_at_ignoring_case(text, at, part)
}

/// A character with the capital letters `A` to `Z` made small.
pub fn to_ascii_lower(c: char) -> (lower: char)
    ensures
        lower == ascii_lower(c),
{
    if 65 <= c as u32 && c as u32 <= 90 {
        ((c as u8) + 32) as char
    } else {
        c
    }
}

/// A character with the small letters `a` to `z` made capital.
pub fn to_ascii_upper(c: char) -> (upper: char)
    ensures
        upper == ascii_upper(c),
{
    if 97 <= c as u32 && c as u32 <= 122 {
        ((c as u8) - 32) as char
    } else {
        c
    }
}

/// Whether `text` holds `part` somewhere, capital and small ASCII letters
/// taken as the same.
pub fn contains_ignore_case(text: &Vec<char>, part: &Vec<char>) -> (found: bool)
    ensures
        found == contains_ignoring_case(text@, part@),
{
    if part.len() > text.len() {
        assert forall|at: int| !holds_at_ignoring_case(text@, at, part@) by {}
        return false;
    }
    let last = text.len() - part.len();
    let mut at: usize = 0;
    while at <= last
        invariant
            at <= last + 1,
            last == text.len() - part.len(),
            forall|a: int| 0 <= a < at ==> !holds_at_ignoring_case(text@, a, part@),
        decreases last + 1 - at,
    {
        let mut k: usize = 0;
        while k < part.len() && to_ascii_lower(text[at + k]) == to_ascii_lower(part[k])
            invariant
                k <= part.len(),
                at + part.len() <= text.len(),
                forall|j: int| 0 <= j < k ==> ascii_lower(#[trigger] text@[at + j]) == ascii_lower(part@[j]),
            decreases part.len() - k,
        {
            k += 1;
        }
        if k == part.len() {
            assert(holds_at_ignoring_case(text@, at as int, part@));
            return true;
        }
        assert(!holds_at_ignoring_case(text@, at as int, part@)) by {
            assert(ascii_lower(text@[at + k]) != ascii_lower(part@[k as int]));
        }
        at += 1;
    }
    assert forall|a: int| !holds_at_ignoring_case(text@, a, part@) by {}
    false
}

} // verus!
