use torrent_assistant::text::{
    chars_of, lines, parse_i32, parse_i64, push_decimal, push_signed_decimal, split_chars,
    starts_with, string_of,
};

fn chars(s: &str) -> Vec<char> {
    s.chars().collect()
}

fn pieces(s: &str, a: char, b: char) -> Vec<String> {
    split_chars(&chars(s), a, b).iter().map(|p| p.iter().collect()).collect()
}

#[test]
fn strings_and_characters_convert_both_ways() {
    assert_eq!(chars_of("aß→𝄞"), vec!['a', 'ß', '→', '𝄞']);
    assert_eq!(string_of(&vec!['a', 'ß', '→', '𝄞']), "aß→𝄞");
    assert_eq!(chars_of(""), Vec::<char>::new());
}

#[test]
fn split_keeps_empty_pieces() {
    assert_eq!(pieces("urn:btih:abc", ':', ':'), vec!["urn", "btih", "abc"]);
    assert_eq!(pieces("", ':', ':'), vec![""]);
    assert_eq!(pieces(":", ':', ':'), vec!["", ""]);
    assert_eq!(pieces("a::b:", ':', ':'), vec!["a", "", "b", ""]);
    assert_eq!(pieces("a b\nc", '\n', ' '), vec!["a", "b", "c"]);
    assert_eq!(pieces("a b\nc", ':', ':'), vec!["a b\nc"]);
}

#[test]
fn split_agrees_with_line_then_space_splitting() {
    for text in ["", " ", "\n", "a b\nc  d\n", "x\n\ny z", " lead and trail "] {
        let expected: Vec<String> =
            text.split("\n").map(|line| line.split(" ")).flatten().map(|t| t.to_string()).collect();
        assert_eq!(pieces(text, '\n', ' '), expected);
    }
}

#[test]
fn prefix_test_is_exact() {
    assert!(starts_with(&chars("magnet:?x"), &chars("magnet:?")));
    assert!(starts_with(&chars("magnet:?"), &chars("magnet:?")));
    assert!(!starts_with(&chars("magnet:"), &chars("magnet:?")));
    assert!(!starts_with(&chars("xmagnet:?"), &chars("magnet:?")));
    assert!(starts_with(&chars("anything"), &chars("")));
}

#[test]
fn numerals_are_written_without_leading_zeros() {
    for n in [0u64, 7, 10, 42, 100, 9999, 18446744073709551615] {
        let mut out = String::from("n=");
        push_decimal(&mut out, n);
        assert_eq!(out, format!("n={}", n));
    }
    for n in [0i64, -1, 5, -42, 2147483647, -2147483648, 9223372036854775807, -9223372036854775808] {
        let mut out = String::new();
        push_signed_decimal(&mut out, n);
        assert_eq!(out, format!("{}", n));
    }
}

#[test]
fn numbers_are_read_as_the_standard_library_reads_them() {
    let cases = [
        "0", "7", "-7", "+7", "007", "-0", "2147483647", "2147483648", "-2147483648", "-2147483649",
        "9223372036854775807", "9223372036854775808", "-9223372036854775808", "-9223372036854775809",
        "", "-", "+", "--1", "1-", "1 ", " 1", "1a", "a", "١", "00000000000000000000000000000012",
        "99999999999999999999999999",
    ];
    for text in cases {
        assert_eq!(parse_i32(&chars(text)), text.parse::<i32>().ok(), "i32 of {:?}", text);
        assert_eq!(parse_i64(&chars(text)), text.parse::<i64>().ok(), "i64 of {:?}", text);
    }
}

#[test]
fn written_numbers_read_back() {
    for n in [0i64, 1, -1, 57, -2147483648, 2147483647] {
        let mut out = String::new();
        push_signed_decimal(&mut out, n);
        assert_eq!(parse_i64(&chars(&out)), Some(n));
    }
}

#[test]
fn lines_are_those_of_the_standard_library() {
    for text in ["", "a", "a\n", "a\nb", "a\r\nb\r\n", "\n", "\n\n", "a\n\nb", "a\r", "a\r\n\r", "x\ry\nz", "\r\n"] {
        let expected: Vec<String> = text.lines().map(|l| l.to_string()).collect();
        assert_eq!(lines(text), expected, "lines of {:?}", text);
    }
}
