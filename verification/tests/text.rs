use aws_why::sorting::{precedes, sorted_unique};
use aws_why::text::{
    all_digits, behind_last, contains, decimal_of, equal_ignoring_case, join, lines, lower_ascii,
    remove_char, split_once, split_once_back, split_pieces, starts_with, strip_prefix, trim,
};

fn owned(list: &[&str]) -> Vec<String> {
    list.iter().map(|item| item.to_string()).collect()
}

#[test]
fn exactly_white_space_is_trimmed() {
    let spaces = [
        0x9, 0xa, 0xb, 0xc, 0xd, 0x20, 0x85, 0xa0, 0x1680, 0x2000, 0x2001, 0x2002, 0x2003, 0x2004,
        0x2005, 0x2006, 0x2007, 0x2008, 0x2009, 0x200a, 0x2028, 0x2029, 0x202f, 0x205f, 0x3000,
    ];
    for code in 0..=0x10ffff_u32 {
        if let Some(c) = char::from_u32(code) {
            assert_eq!(trim(&c.to_string()).is_empty(), spaces.contains(&code));
        }
    }
    assert_eq!(trim(" a b\u{a0}"), "a b");
    assert_eq!(trim(""), "");
}

#[test]
fn texts_are_taken_apart() {
    assert_eq!(
        split_once("a:b:c", ':'),
        Some(("a".to_owned(), "b:c".to_owned()))
    );
    assert_eq!(
        split_once_back("a:b:c", ':'),
        Some(("a:b".to_owned(), "c".to_owned()))
    );
    assert_eq!(split_once("abc", ':'), None);
    assert_eq!(split_pieces("a:b:c:d", ':', 3), ["a", "b", "c:d"]);
    assert_eq!(split_pieces("", ':', 3), [""]);
    assert_eq!(behind_last("a#b#c", '#'), "c");
    assert_eq!(behind_last("abc", '#'), "abc");
    assert_eq!(strip_prefix("--x=1", "--x=").as_deref(), Some("1"));
    assert_eq!(strip_prefix("-x", "--x="), None);
    assert_eq!(remove_char("a_b_", '_'), "ab");
    assert_eq!(lines("a\r\nb\n\nc"), "a\r\nb\n\nc".lines().collect::<Vec<_>>());
    assert_eq!(lines("a\n"), ["a"]);
    assert!(lines("").is_empty());
}

#[test]
fn texts_are_searched() {
    assert!(contains("unable to locate", "to l"));
    assert!(contains("abc", ""));
    assert!(!contains("abc", "abcd"));
    assert!(starts_with("abc", "ab"));
    assert!(!starts_with("abc", "b"));
}

#[test]
fn cases_are_ascii_cases() {
    assert_eq!(lower_ascii("AÉz"), "aÉz");
    assert!(equal_ignoring_case("GetObject", "GETobject"));
    assert!(!equal_ignoring_case("É", "é"));
    assert!(all_digits("0123"));
    assert!(all_digits(""));
    assert!(!all_digits("12a"));
}

#[test]
fn numbers_and_lists_are_written() {
    assert_eq!(decimal_of(0), "0");
    assert_eq!(decimal_of(1024), "1024");
    assert_eq!(decimal_of(usize::MAX), usize::MAX.to_string());
    assert_eq!(join(&owned(&["a", "b"]), ", "), "a, b");
    assert_eq!(join(&owned(&[]), ", "), "");
}

#[test]
fn lists_are_sorted_as_texts_are() {
    let list = owned(&["b", "a", "", "ab", "b", "é", "Z", "a"]);
    let mut expected = list.clone();
    expected.sort_unstable();
    expected.dedup();
    assert_eq!(sorted_unique(&list), expected);
    assert!(precedes("a", "ab"));
    assert!(!precedes("ab", "ab"));
    assert!(precedes("Z", "a"));
}
