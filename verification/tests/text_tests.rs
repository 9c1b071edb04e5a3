use awacs::numerals::{decimal_string, speak_digits, three_digits, wrapped_degrees};
use awacs::text::{
    chars_of, contains, is_whitespace, normalize_callsign, same_chars, same_text, split,
    strip_separators, to_lowercase, trim,
};

fn chars(s: &str) -> Vec<char> {
    s.chars().collect()
}

fn text(v: &Vec<char>) -> String {
    v.iter().collect()
}

#[test]
fn chars_of_keeps_every_character() {
    assert_eq!(chars_of("Viper 1-1"), chars("Viper 1-1"));
    assert_eq!(chars_of(""), Vec::<char>::new());
    assert_eq!(chars_of("é水"), vec!['é', '水']);
}

#[test]
fn same_chars_compares_contents() {
    assert!(same_chars(&chars("abc"), &chars("abc")));
    assert!(!same_chars(&chars("abc"), &chars("abd")));
    assert!(!same_chars(&chars("abc"), &chars("ab")));
    assert!(same_chars(&chars(""), &chars("")));
}

#[test]
fn to_lowercase_lowers_case() {
    assert_eq!(text(&to_lowercase("MAGIC")), "magic");
    assert_eq!(text(&to_lowercase("Überlord")), "überlord");
    assert_ne!(text(&to_lowercase("MAGIC")), "MAGIC");
}

#[test]
fn whitespace_is_what_the_standard_library_calls_whitespace() {
    let mut code: u32 = 0;
    while code <= 0x10FFFF {
        if let Some(c) = char::from_u32(code) {
            assert_eq!(is_whitespace(c), c.is_whitespace(), "U+{:04X}", code);
        }
        code += 1;
    }
}

#[test]
fn trim_agrees_with_the_standard_library() {
    for s in ["", " ", "  a  ", "a", "\t\nab c\u{3000}", "\u{a0}x", "no-space", "  - "] {
        assert_eq!(text(&trim(&chars(s))), s.trim());
    }
}

#[test]
fn strip_separators_removes_hyphens_and_spaces() {
    assert_eq!(text(&strip_separators(&chars("viper 1-1"))), "viper11");
    assert_eq!(text(&strip_separators(&chars("- -"))), "");
    assert_eq!(text(&strip_separators(&chars("a\tb"))), "a\tb");
}

#[test]
fn normalize_callsign_trims_lowers_and_strips() {
    assert_eq!(text(&normalize_callsign("  Viper 1-1 ")), "viper11");
    assert_eq!(text(&normalize_callsign("ENFIELD-2 1")), "enfield21");
    assert_eq!(text(&normalize_callsign("")), "");
}

#[test]
fn contains_agrees_with_the_standard_library() {
    let cases = [
        ("viper11", "viper"),
        ("viper11", "11"),
        ("viper11", "per1"),
        ("viper11", ""),
        ("", ""),
        ("", "a"),
        ("abc", "abcd"),
        ("aab", "ab"),
        ("abab", "bab"),
        ("abc", "ac"),
    ];
    for (hay, needle) in cases {
        assert_eq!(contains(&chars(hay), &chars(needle)), hay.contains(needle), "{hay} {needle}");
    }
}

#[test]
fn split_agrees_with_the_standard_library() {
    for s in ["", "a", "a|b", "a|", "|a", "||", "Viper 1 | Viper 2", "no bar"] {
        let got: Vec<String> = split(&chars(s), '|').iter().map(text).collect();
        let want: Vec<String> = s.split('|').map(|p| p.to_string()).collect();
        assert_eq!(got, want);
    }
}

#[test]
fn decimal_string_writes_numbers() {
    assert_eq!(decimal_string(0), "0");
    assert_eq!(decimal_string(7), "7");
    assert_eq!(decimal_string(60), "60");
    assert_eq!(decimal_string(1234567890), "1234567890");
    assert_eq!(decimal_string(u64::MAX), format!("{}", u64::MAX));
}

#[test]
fn three_digits_pads_like_the_standard_formatter() {
    let mut n: i64 = -1200;
    while n <= 1200 {
        assert_eq!(three_digits(n), format!("{:03}", n));
        n += 1;
    }
    assert_eq!(three_digits(i64::MIN), format!("{:03}", i64::MIN));
    assert_eq!(three_digits(i64::MAX), format!("{:03}", i64::MAX));
}

#[test]
fn speak_digits_says_each_digit_by_itself() {
    assert_eq!(speak_digits(45), "0 4 5");
    assert_eq!(speak_digits(0), "0 0 0");
    assert_eq!(speak_digits(359), "3 5 9");
    assert_eq!(speak_digits(1234), "1 2 3 4");
    assert_eq!(speak_digits(-5), "- 0 5");
}

#[test]
fn wrapped_degrees_brings_an_angle_into_one_turn() {
    let mut d: i64 = -2000;
    while d <= 2000 {
        assert_eq!(wrapped_degrees(d), d.rem_euclid(360));
        d += 1;
    }
    assert_eq!(wrapped_degrees(0), 0);
    assert_eq!(wrapped_degrees(360), 0);
    assert_eq!(wrapped_degrees(-1), 359);
    assert_eq!(wrapped_degrees(-180), 180);
    assert_eq!(wrapped_degrees(-390), 330);
    assert_eq!(wrapped_degrees(-539), 181);
    assert_eq!(wrapped_degrees(i64::MAX), i64::MAX.rem_euclid(360));
    assert_eq!(wrapped_degrees(i64::MIN), i64::MIN.rem_euclid(360));
}

#[test]
fn same_text_compares_character_by_character() {
    assert!(same_text("radio_check", "radio_check"));
    assert!(!same_text("radio_check", "radio_chec"));
    assert!(!same_text("Su-27", "su-27"));
    assert!(same_text("", ""));
    assert!(same_text("é水", "é水"));
}
