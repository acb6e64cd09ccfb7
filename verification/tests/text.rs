use nsticky::decimal::{push_decimal, read_unsigned};
use nsticky::text::{chars_of, find_word, space, spells};

fn chars(text: &str) -> Vec<char> {
    text.chars().collect()
}

#[test]
fn the_characters_of_a_text_come_in_order() {
    assert_eq!(chars_of(""), Vec::<char>::new());
    assert_eq!(chars_of("add 5\n"), vec!['a', 'd', 'd', ' ', '5', '\n']);
    assert_eq!(chars_of("a\u{e9}\u{3000}\u{1f600}"), vec!['a', '\u{e9}', '\u{3000}', '\u{1f600}']);
}

#[test]
fn spaces_are_the_white_space_of_unicode() {
    let mut c = '\0';
    loop {
        assert_eq!(space(c), c.is_whitespace(), "{c:?}");
        match char::from_u32(c as u32 + 1) {
            Some(next) => c = next,
            None if (c as u32) < 0xd7ff + 1 => c = '\u{e000}',
            None => break,
        }
    }
    assert!(space('\u{3000}') && space('\n') && space(' '));
    assert!(!space('\u{200b}') && !space('a') && !space('\u{10ffff}'));
}

#[test]
fn words_are_found_one_after_another() {
    let line = chars("  add\t12  x");
    assert_eq!(find_word(&line, 0), (2, 5));
    assert_eq!(find_word(&line, 2), (2, 5));
    assert_eq!(find_word(&line, 3), (3, 5));
    assert_eq!(find_word(&line, 5), (6, 8));
    assert_eq!(find_word(&line, 8), (10, 11));
    assert_eq!(find_word(&line, 11), (11, 11));
    assert_eq!(find_word(&line, 40), (40, 40));
    assert_eq!(find_word(&chars(""), 0), (0, 0));
    assert_eq!(find_word(&chars(" \n "), 0), (3, 3));
}

#[test]
fn a_word_is_compared_with_a_text() {
    assert!(spells(&chars("add"), "add"));
    assert!(spells(&chars("toggle_active"), "toggle_active"));
    assert!(spells(&chars(""), ""));
    assert!(spells(&chars("\u{e9}t\u{e9}"), "\u{e9}t\u{e9}"));
    assert!(!spells(&chars("add"), "ad"));
    assert!(!spells(&chars("add"), "adds"));
    assert!(!spells(&chars("add"), "aDd"));
    assert!(!spells(&chars("add "), "add"));
    assert!(!spells(&chars(""), "add"));
}

#[test]
fn numbers_are_read_as_std_reads_them() {
    for text in [
        "", "0", "7", "+7", "-7", "+", "++7", "+-7", "007", "+007", "7+", "7 ", " 7", "1_000",
        "18446744073709551615", "18446744073709551616", "18446744073709551609",
        "18446744073709551620", "28446744073709551615", "+18446744073709551615",
        "000000000000000000018446744073709551615", "99999999999999999999", "\u{661}\u{662}", "1e3", "0x1",
    ] {
        assert_eq!(read_unsigned(&chars(text)), text.parse::<u64>().ok(), "{text:?}");
    }
    assert_eq!(read_unsigned(&chars("123")), Some(123));
    assert_eq!(read_unsigned(&chars("123c")), None);
}

#[test]
fn numbers_are_written_in_decimal() {
    for n in [0, 1, 9, 10, 11, 99, 100, 101, 12345, 1 << 32, u64::MAX - 1, u64::MAX] {
        let mut out = String::from("id ");
        push_decimal(&mut out, n);
        assert_eq!(out, format!("id {}", n));
    }
    let mut out = String::new();
    push_decimal(&mut out, 1000);
    push_decimal(&mut out, 20);
    assert_eq!(out, "100020");
}
