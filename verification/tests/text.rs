use easy_paper::number::{count_leading_digits, format_i32, read_digits, read_i32};
use easy_paper::text::{
    chars_of, find_first, has_infix, has_prefix, is_whitespace, joined, joined3, matches_at,
    same_text, split_lines, string_of, trimmed, without_prefix,
};

fn cs(s: &str) -> Vec<char> {
    s.chars().collect()
}

fn lines(s: &str) -> Vec<String> {
    split_lines(&cs(s)).iter().map(|l| l.iter().collect()).collect()
}

#[test]
fn chars_and_back() {
    assert_eq!(chars_of("héllo"), vec!['h', 'é', 'l', 'l', 'o']);
    assert_eq!(string_of(&cs("héllo")), "héllo");
    assert_eq!(string_of(&[]), "");
}

#[test]
fn string_of_appends_every_character() {
    let s = string_of(&['a', 'b', 'c']);
    assert_eq!(s.len(), 3);
    assert_eq!(s, "abc");
}

#[test]
fn joined_keeps_the_order() {
    assert_eq!(joined("ab", "cd"), "abcd");
    assert_eq!(joined3("a", "", "c"), "ac");
}

#[test]
fn same_text_compares_characters() {
    assert!(same_text("tectonic", "tectonic"));
    assert!(!same_text("tectonic", "Tectonic"));
    assert!(!same_text("a", "ab"));
    assert!(same_text("", ""));
}

#[test]
fn lines_of_empty_text() {
    assert_eq!(lines(""), Vec::<String>::new());
}

#[test]
fn lines_split_at_line_feeds() {
    assert_eq!(lines("a\nb"), vec!["a", "b"]);
    assert_eq!(lines("a\nb\n"), vec!["a", "b"]);
    assert_eq!(lines("a\n\nb"), vec!["a", "", "b"]);
    assert_eq!(lines("\n"), vec![""]);
}

#[test]
fn lines_drop_carriage_return_before_line_feed() {
    assert_eq!(lines("a\r\nb\r\n"), vec!["a", "b"]);
    assert_eq!(lines("a\r"), vec!["a\r"]);
    assert_eq!(lines("a\r\r\n"), vec!["a\r"]);
    assert_eq!(lines("\r\n"), vec![""]);
}

#[test]
fn lines_agree_with_std() {
    for t in ["", "x", "x\n", "x\r\n\r\ny", "\n\n", "a\rb\nc\r", "one\ntwo\r\nthree"] {
        let want: Vec<String> = t.lines().map(|l| l.to_string()).collect();
        assert_eq!(lines(t), want);
    }
}

#[test]
fn matches_at_checks_bounds() {
    let s = cs("abcabc");
    assert!(matches_at(&s, &cs("abc"), 0));
    assert!(matches_at(&s, &cs("abc"), 3));
    assert!(!matches_at(&s, &cs("abc"), 4));
    assert!(!matches_at(&s, &cs("abc"), 7));
    assert!(matches_at(&s, &[], 6));
    assert!(!matches_at(&s, &[], 7));
}

#[test]
fn find_first_is_leftmost() {
    assert_eq!(find_first(&cs("xxabxxab"), &cs("ab")), Some(2));
    assert_eq!(find_first(&cs("ab"), &cs("ab")), Some(0));
    assert_eq!(find_first(&cs("a"), &cs("ab")), None);
    assert_eq!(find_first(&cs("abc"), &cs("")), Some(0));
    assert_eq!(find_first(&cs(""), &cs("")), Some(0));
    assert_eq!(find_first(&cs("aab"), &cs("ab")), Some(1));
}

#[test]
fn prefix_and_infix() {
    assert!(has_prefix(&cs("! oops"), &cs("! ")));
    assert!(!has_prefix(&cs("!oops"), &cs("! ")));
    assert!(has_infix(&cs("LaTeX Warning: x"), &cs("Warning:")));
    assert!(!has_infix(&cs("LaTeX warning: x"), &cs("Warning:")));
}

#[test]
fn prefix_is_removed_once() {
    assert_eq!(without_prefix(&cs("./a"), &cs("./")), &cs("a")[..]);
    assert_eq!(without_prefix(&cs("././a"), &cs("./")), &cs("./a")[..]);
    assert_eq!(without_prefix(&cs("a./"), &cs("./")), &cs("a./")[..]);
    assert_eq!(without_prefix(&cs("./"), &cs("./")), &cs("")[..]);
    assert_eq!(without_prefix(&cs("."), &cs("./")), &cs(".")[..]);
    assert_eq!(without_prefix(&cs("abc"), &cs("")), &cs("abc")[..]);
}

#[test]
fn whitespace_is_unicode_white_space() {
    for c in [' ', '\t', '\n', '\r', '\u{0B}', '\u{0C}', '\u{85}', '\u{A0}', '\u{1680}', '\u{2000}', '\u{200A}', '\u{2028}', '\u{2029}', '\u{202F}', '\u{205F}', '\u{3000}'] {
        assert!(is_whitespace(c));
    }
    for c in ['a', '0', '\u{200B}', '\u{08}', '\u{0E}', '\u{180E}'] {
        assert!(!is_whitespace(c));
    }
}

#[test]
fn whitespace_agrees_with_std() {
    let mut n: u32 = 0;
    while n < 0x3100 {
        if let Some(c) = char::from_u32(n) {
            assert_eq!(is_whitespace(c), c.is_whitespace());
        }
        n += 1;
    }
}

#[test]
fn trimmed_drops_both_ends() {
    assert_eq!(trimmed(&cs("  a b \t")), &cs("a b")[..]);
    assert_eq!(trimmed(&cs("   ")), &cs("")[..]);
    assert_eq!(trimmed(&cs("")), &cs("")[..]);
    assert_eq!(trimmed(&cs("x")), &cs("x")[..]);
}

#[test]
fn read_digits_respects_limit() {
    assert_eq!(read_digits(&cs("42"), 100), Some(42));
    assert_eq!(read_digits(&cs("100"), 100), Some(100));
    assert_eq!(read_digits(&cs("101"), 100), None);
    assert_eq!(read_digits(&cs("0000000000000000000000042"), 100), Some(42));
    assert_eq!(read_digits(&cs("4294967295"), 0xffff_ffff), Some(4294967295));
    assert_eq!(read_digits(&cs("4294967296"), 0xffff_ffff), None);
    assert_eq!(read_digits(&cs("99999999999999999999999999"), 0xffff_ffff), None);
    assert_eq!(read_digits(&cs("4a"), 100), None);
    assert_eq!(read_digits(&cs(""), 100), Some(0));
}

#[test]
fn leading_digits_are_counted() {
    assert_eq!(count_leading_digits(&cs("42: x")), 2);
    assert_eq!(count_leading_digits(&cs("x42")), 0);
    assert_eq!(count_leading_digits(&cs("")), 0);
    assert_eq!(count_leading_digits(&cs("007")), 3);
}

#[test]
fn read_i32_takes_sign_and_digits() {
    assert_eq!(read_i32(&cs("42")), Some(42));
    assert_eq!(read_i32(&cs("+42")), Some(42));
    assert_eq!(read_i32(&cs("-42")), Some(-42));
    assert_eq!(read_i32(&cs("-0")), Some(0));
    assert_eq!(read_i32(&cs("007")), Some(7));
    assert_eq!(read_i32(&cs("2147483647")), Some(i32::MAX));
    assert_eq!(read_i32(&cs("-2147483648")), Some(i32::MIN));
}

#[test]
fn read_i32_rejects_what_is_no_number() {
    assert_eq!(read_i32(&cs("")), None);
    assert_eq!(read_i32(&cs("+")), None);
    assert_eq!(read_i32(&cs("-")), None);
    assert_eq!(read_i32(&cs(" 42")), None);
    assert_eq!(read_i32(&cs("42 ")), None);
    assert_eq!(read_i32(&cs("4 2")), None);
    assert_eq!(read_i32(&cs("--4")), None);
    assert_eq!(read_i32(&cs("2147483648")), None);
    assert_eq!(read_i32(&cs("-2147483649")), None);
    assert_eq!(read_i32(&cs("12.5")), None);
}

#[test]
fn read_i32_agrees_with_std() {
    for t in ["0", "-1", "+1", "", "+", "-", "12a", "٣", "99999999999", "-99999999999", "000", "+000", "2147483647", "2147483648", "-2147483648", "-2147483649"] {
        assert_eq!(read_i32(&cs(t)), t.parse::<i32>().ok());
    }
}

#[test]
fn format_i32_writes_decimal() {
    assert_eq!(format_i32(0), "0");
    assert_eq!(format_i32(7), "7");
    assert_eq!(format_i32(10), "10");
    assert_eq!(format_i32(-1), "-1");
    assert_eq!(format_i32(12345), "12345");
    assert_eq!(format_i32(i32::MAX), "2147483647");
    assert_eq!(format_i32(i32::MIN), "-2147483648");
}

#[test]
fn format_then_read_gives_the_number_back() {
    for n in [0, 1, -1, 9, 10, 99, 100, -100, 1234567, i32::MAX, i32::MIN] {
        assert_eq!(read_i32(&cs(&format_i32(n))), Some(n));
    }
}
