use rusty_password_manager::input_handler::{
    char_key, evaluate_yes_no_answer, get_enter_press, get_text_input, KeyCode,
};
use rusty_password_manager::text::{
    chars_of, contains_ignore_case, find_char, matches_at, parse_integer_at, parse_quoted_at, push_integer,
    push_quoted, slice_chars, string_of, to_ascii_lower, to_ascii_upper,
};

fn integer_text(n: i64) -> String {
    let mut out = Vec::new();
    push_integer(&mut out, n);
    out.into_iter().collect()
}

fn quoted(text: &str) -> String {
    let mut out = vec!['>'];
    push_quoted(&mut out, &text.chars().collect());
    out.into_iter().collect()
}

#[test]
fn integers_are_written_in_decimal() {
    for n in [0, 1, 9, 10, 11, 99, 100, 12345, -1, -10, -12345, i64::MAX, i64::MIN, i64::MIN + 1] {
        assert_eq!(integer_text(n), n.to_string());
    }
    let mut out = vec!['x'];
    push_integer(&mut out, 42);
    assert_eq!(out, vec!['x', '4', '2']);
}

#[test]
fn integers_are_read_back() {
    let read = |text: &str, pos: usize| parse_integer_at(&text.chars().collect(), pos);
    assert_eq!(read("0", 0), Some((0, 1)));
    assert_eq!(read("12, ", 0), Some((12, 2)));
    assert_eq!(read("ab-7)", 2), Some((-7, 4)));
    assert_eq!(read("9223372036854775807", 0), Some((i64::MAX, 19)));
    assert_eq!(read("-9223372036854775808;", 0), Some((i64::MIN, 20)));
    assert_eq!(read("9223372036854775808", 0), None);
    assert_eq!(read("-9223372036854775809", 0), None);
    assert_eq!(read("99999999999999999999999999999999", 0), None);
    assert_eq!(read("007", 0), None);
    assert_eq!(read("00", 0), None);
    assert_eq!(read("-0", 0), None);
    assert_eq!(read("-", 0), None);
    assert_eq!(read("", 0), None);
    assert_eq!(read("+5", 0), None);
    assert_eq!(read("x", 0), None);
    assert_eq!(read("5", 1), None);
    assert_eq!(read("1-2", 0), Some((1, 1)));
    assert_eq!(read("--2", 0), None);
}

#[test]
fn literals_double_their_quotes() {
    assert_eq!(quoted(""), ">''");
    assert_eq!(quoted("abc"), ">'abc'");
    assert_eq!(quoted("it's"), ">'it''s'");
    assert_eq!(quoted("'"), ">''''");
    assert_eq!(quoted("''"), ">''''''");
}

#[test]
fn literals_are_read_back() {
    let read = |text: &str, pos: usize| {
        parse_quoted_at(&text.chars().collect(), pos).map(|(t, next)| (t.into_iter().collect::<String>(), next))
    };
    assert_eq!(read("''", 0), Some((String::new(), 2)));
    assert_eq!(read("'abc', ", 0), Some(("abc".to_string(), 5)));
    assert_eq!(read("'it''s'", 0), Some(("it's".to_string(), 7)));
    assert_eq!(read("''''", 0), Some(("'".to_string(), 4)));
    assert_eq!(read("x'a'", 1), Some(("a".to_string(), 4)));
    assert_eq!(read("'''", 0), None);
    assert_eq!(read("'abc", 0), None);
    assert_eq!(read("'", 0), None);
    assert_eq!(read("abc'", 0), None);
    assert_eq!(read("", 0), None);
    assert_eq!(read("'a'", 3), None);
}

#[test]
fn characters_and_strings_convert() {
    assert_eq!(chars_of("aé✓"), vec!['a', 'é', '✓']);
    assert_eq!(string_of(&vec!['a', 'é', '✓']), "aé✓");
    assert!(chars_of("").is_empty());
    assert_eq!(slice_chars(&chars_of("hello"), 1, 3), vec!['e', 'l']);
    assert!(slice_chars(&chars_of("hello"), 2, 2).is_empty());
}

#[test]
fn find_and_match() {
    let text = chars_of("a:b:c");
    assert_eq!(find_char(&text, 0, ':'), 1);
    assert_eq!(find_char(&text, 1, ':'), 1);
    assert_eq!(find_char(&text, 2, ':'), 3);
    assert_eq!(find_char(&text, 4, ':'), 5);
    assert_eq!(find_char(&text, 5, ':'), 5);
    assert!(matches_at(&text, 2, &chars_of("b:")));
    assert!(!matches_at(&text, 2, &chars_of("b:x")));
    assert!(!matches_at(&text, 4, &chars_of("cc")));
    assert!(matches_at(&text, 5, &chars_of("")));
}

#[test]
fn lower_case_and_search_ignore_ascii_case_only() {
    for code in 0..0x250u32 {
        let c = char::from_u32(code).unwrap();
        assert_eq!(to_ascii_lower(c), c.to_ascii_lowercase());
        assert_eq!(to_ascii_upper(c), c.to_ascii_uppercase());
    }
    assert_eq!(char_key('a', true), KeyCode::Char('A'));
    assert_eq!(char_key('A', false), KeyCode::Char('a'));
    assert_eq!(char_key('ä', true), KeyCode::Char('ä'));
    assert_eq!(char_key('1', true), KeyCode::Char('1'));
    let holds = |text: &str, part: &str| contains_ignore_case(&chars_of(text), &chars_of(part));
    assert!(holds("GitHub", "thu"));
    assert!(holds("GitHub", "GITHUB"));
    assert!(holds("GitHub", ""));
    assert!(holds("", ""));
    assert!(!holds("", "a"));
    assert!(!holds("GitHub", "GitHubs"));
    assert!(!holds("ÄB", "äb"));
    assert!(holds("ÄB", "Äb"));
}

#[test]
fn text_input_edits_the_buffer() {
    let mut buffer = String::from("ab");
    assert!(!get_text_input(KeyCode::Char('c'), &mut buffer));
    assert_eq!(buffer, "abc");
    assert!(!get_text_input(KeyCode::Backspace, &mut buffer));
    assert_eq!(buffer, "ab");
    assert!(get_text_input(KeyCode::Enter, &mut buffer));
    assert_eq!(buffer, "ab");
    for key in [KeyCode::Esc, KeyCode::Up, KeyCode::Down, KeyCode::Left, KeyCode::Right, KeyCode::Other] {
        assert!(!get_text_input(key, &mut buffer));
        assert_eq!(buffer, "ab");
    }
    let mut empty = String::new();
    assert!(!get_text_input(KeyCode::Backspace, &mut empty));
    assert_eq!(empty, "");
}

#[test]
fn enter_and_yes_no() {
    assert!(get_enter_press(KeyCode::Enter));
    assert!(!get_enter_press(KeyCode::Char('\n')));
    assert!(!get_enter_press(KeyCode::Esc));
    assert_eq!(evaluate_yes_no_answer(KeyCode::Char('y')), Some(true));
    assert_eq!(evaluate_yes_no_answer(KeyCode::Char('Y')), Some(true));
    assert_eq!(evaluate_yes_no_answer(KeyCode::Char('n')), Some(false));
    assert_eq!(evaluate_yes_no_answer(KeyCode::Char('N')), Some(false));
    assert_eq!(evaluate_yes_no_answer(KeyCode::Char('j')), None);
    assert_eq!(evaluate_yes_no_answer(KeyCode::Enter), None);
    assert_eq!(evaluate_yes_no_answer(KeyCode::Esc), None);
}
