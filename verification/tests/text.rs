use std::collections::VecDeque;

use barkeep::text::{
    chars_of, decimal_i64, decimal_u64, is_whitespace, list_entries, parse_i32, same_text,
    split_deque, split_text, strings_of, trim_text,
};

#[test]
fn decimal_notation_of_signed_integers() {
    assert_eq!(decimal_i64(0), "0");
    assert_eq!(decimal_i64(7), "7");
    assert_eq!(decimal_i64(-7), "-7");
    assert_eq!(decimal_i64(10), "10");
    assert_eq!(decimal_i64(1_000_000), "1000000");
    assert_eq!(decimal_i64(i64::MAX), "9223372036854775807");
    assert_eq!(decimal_i64(i64::MIN), "-9223372036854775808");
    for n in -1200..1200i64 {
        assert_eq!(decimal_i64(n), n.to_string());
        assert_eq!(decimal_i64(n * 7_777_777_777), (n * 7_777_777_777).to_string());
    }
}

#[test]
fn decimal_notation_of_unsigned_integers() {
    assert_eq!(decimal_u64(0), "0");
    assert_eq!(decimal_u64(u64::MAX), "18446744073709551615");
    for n in 0..1200u64 {
        assert_eq!(decimal_u64(n), n.to_string());
    }
}

#[test]
fn characters_of_a_text() {
    assert_eq!(chars_of(""), Vec::<char>::new());
    assert_eq!(chars_of("aä€"), vec!['a', 'ä', '€']);
}

#[test]
fn texts_are_compared_by_their_characters() {
    assert!(same_text("", ""));
    assert!(same_text("cl", "cl"));
    assert!(!same_text("cl", "ml"));
    assert!(!same_text("cl", "cl "));
    assert!(!same_text("abv_asc", "abv_asc "));
}

#[test]
fn split_agrees_with_the_standard_library() {
    for text in ["", "a", "|", "a|b", "a||b", "|a|", "||", "name|2|cl|vodka", "ä|€|"] {
        let expected: Vec<String> = text.split('|').map(|s| s.to_string()).collect();
        assert_eq!(split_text(text, '|'), expected);
    }
    assert_eq!(split_text("", '/'), vec![String::new()]);
    assert_eq!(split_text("a#b#c", '#'), vec!["a", "b", "c"]);
}

#[test]
fn split_pieces_join_to_the_text() {
    for text in ["", "/", "a/b//c/", "no separator"] {
        let pieces = split_text(text, '/');
        assert!(pieces.iter().all(|piece| !piece.contains('/')));
        assert_eq!(pieces.join("/"), text);
    }
}

#[test]
fn integers_are_read_as_the_standard_library_reads_them() {
    let texts = [
        "", "+", "-", "0", "-0", "+0", "7", "+7", "-7", "007", "-007", "2147483647",
        "2147483648", "-2147483648", "-2147483649", "+2147483647", "99999999999999999999999",
        "-99999999999999999999999", "00000000000000000000000000001", "1 ", " 1", "1a", "a1",
        "--1", "+-1", "1-", "1.0", "１", "٣",
    ];
    for text in texts {
        assert_eq!(parse_i32(text), text.parse::<i32>().ok(), "{text:?}");
    }
    assert_eq!(parse_i32("-2147483648"), Some(i32::MIN));
    assert_eq!(parse_i32("2147483647"), Some(i32::MAX));
    assert_eq!(parse_i32("2147483648"), None);
    for n in -300..300 {
        assert_eq!(parse_i32(&n.to_string()), Some(n));
    }
}

#[test]
fn white_space_is_what_the_standard_library_takes_for_it() {
    for code in 0..=0x10FFFFu32 {
        if let Some(c) = char::from_u32(code) {
            assert_eq!(is_whitespace(c), c.is_whitespace(), "U+{code:04X}");
        }
    }
}

#[test]
fn trim_agrees_with_the_standard_library() {
    for text in ["", " ", "   ", "a", " a", "a ", "  a b  ", "\t\na\u{a0}\u{3000}", "a\u{200b} "] {
        assert_eq!(trim_text(text), text.trim());
    }
}

#[test]
fn list_entries_are_trimmed_and_not_empty() {
    assert_eq!(list_entries("", '|'), Vec::<String>::new());
    assert_eq!(list_entries(" | |", '|'), Vec::<String>::new());
    assert_eq!(list_entries("IBA| Sour |", '|'), vec!["IBA", "Sour"]);
    assert_eq!(list_entries("a b|c", '|'), vec!["a b", "c"]);
}

#[test]
fn pieces_in_a_queue() {
    for text in ["", "a#b", "#", "a##b#", "no hash"] {
        let expected: VecDeque<String> = text.split('#').map(|s| s.to_string()).collect();
        assert_eq!(split_deque(text, '#'), expected);
        assert_eq!(strings_of(&expected), split_text(text, '#'));
    }
    assert_eq!(strings_of(&VecDeque::new()), Vec::<String>::new());
}
