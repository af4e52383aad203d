use sheets_bot::cell::{noise, parse_cell, strip_noise, CURRENCY_SIGN};
use sheets_bot::decimal::{decimal_string, digit_of, digit_str, parse_integer, read_integer};
use sheets_bot::text::{chars_of, same_text};

#[test]
fn cell_with_spaces_and_sign_reads_as_integer() {
    assert_eq!(parse_cell("1 234 \u{20BD}"), Some(1234));
    assert_eq!(parse_cell("500 \u{20BD}"), Some(500));
    assert_eq!(parse_cell("100 \u{20BD}"), Some(100));
    assert_eq!(parse_cell("1 634 \u{20BD}"), Some(1634));
}

#[test]
fn cell_with_no_break_spaces_reads_as_integer() {
    assert_eq!(parse_cell("1\u{A0}234\u{A0}\u{20BD}"), Some(1234));
    assert_eq!(parse_cell("12\u{202F}345\u{A0}678 \u{20BD}"), Some(12_345_678));
}

#[test]
fn spacing_does_not_change_the_number() {
    let spellings = [
        "1234\u{20BD}",
        " 1234 \u{20BD}",
        "1 2 3 4 \u{20BD}",
        "\u{20BD}1234",
        "\u{20BD} 12\t34\n",
        "12\u{20BD}34",
        "1234",
    ];
    for text in spellings {
        assert_eq!(parse_cell(text), Some(1234), "{:?}", text);
    }
}

#[test]
fn signs_are_read() {
    assert_eq!(parse_cell("-5 \u{20BD}"), Some(-5));
    assert_eq!(parse_cell("- 1 000 \u{20BD}"), Some(-1000));
    assert_eq!(parse_cell("+7"), Some(7));
    assert_eq!(parse_cell("0 \u{20BD}"), Some(0));
    assert_eq!(parse_cell("-0"), Some(0));
    assert_eq!(parse_cell("007"), Some(7));
}

#[test]
fn malformed_cells_are_refused() {
    let texts = [
        "", " ", "\u{20BD}", " \u{20BD} ", "abc", "12a", "a12", "1.5", "1,5", "1_000", "--1",
        "+-1", "-", "+", "1-", "12 $", "\u{661}\u{662}", "0x10", "1e3",
    ];
    for text in texts {
        assert_eq!(parse_cell(text), None, "{:?}", text);
    }
}

#[test]
fn limits_of_the_range_are_exact() {
    assert_eq!(parse_cell("9223372036854775807"), Some(i64::MAX));
    assert_eq!(parse_cell("9 223 372 036 854 775 807 \u{20BD}"), Some(i64::MAX));
    assert_eq!(parse_cell("-9223372036854775808"), Some(i64::MIN));
    assert_eq!(parse_cell("9223372036854775808"), None);
    assert_eq!(parse_cell("-9223372036854775809"), None);
    assert_eq!(parse_cell("18446744073709551616"), None);
    assert_eq!(parse_cell("99999999999999999999999999999999999999"), None);
    assert_eq!(parse_cell("00000000000000000000000000000000000042"), Some(42));
    assert_eq!(parse_cell("99999999999999999999x"), None);
}

#[test]
fn integers_parse_as_std_parses_them() {
    let texts = [
        "0", "1", "-1", "+1", "12", "-12", "", "-", "+", "a", "1a", " 1", "1 ", "00", "-00",
        "9223372036854775807", "9223372036854775808", "-9223372036854775808",
        "-9223372036854775809", "++1", "1+", "\u{20BD}",
    ];
    for text in texts {
        assert_eq!(parse_integer(text), text.parse::<i64>().ok(), "{:?}", text);
    }
}

#[test]
fn integer_parsing_does_not_strip() {
    assert_eq!(parse_integer("1 234"), None);
    assert_eq!(parse_integer("1234 \u{20BD}"), None);
    assert_eq!(parse_integer("1234"), Some(1234));
    assert_eq!(read_integer(&vec!['-', '4', '2']), Some(-42));
    assert_eq!(read_integer(&vec![]), None);
}

#[test]
fn noise_is_the_currency_sign_and_white_space() {
    assert_eq!(CURRENCY_SIGN, '\u{20BD}');
    let mut code: u32 = 0;
    while code <= 0x10FFFF {
        if let Some(c) = char::from_u32(code) {
            assert_eq!(noise(c), c == '\u{20BD}' || c.is_whitespace(), "U+{:04X}", code);
        }
        code += 1;
    }
}

#[test]
fn stripping_keeps_the_rest_in_order() {
    assert_eq!(strip_noise("1 234 \u{20BD}"), vec!['1', '2', '3', '4']);
    assert_eq!(strip_noise(" a\u{A0}b\tc\u{20BD}\u{20BD}d "), vec!['a', 'b', 'c', 'd']);
    assert_eq!(strip_noise(""), Vec::<char>::new());
    assert_eq!(strip_noise(" \u{20BD} "), Vec::<char>::new());
    assert_eq!(strip_noise("$-1.5"), vec!['$', '-', '1', '.', '5']);
}

#[test]
fn decimal_text_matches_std() {
    let values = [
        0, 1, -1, 9, 10, -10, 99, 100, 1234, -1234, 1_000_000, i64::MAX, i64::MIN,
        i64::MAX - 1, i64::MIN + 1,
    ];
    for v in values {
        assert_eq!(decimal_string(v), v.to_string());
    }
    assert_eq!(decimal_string(-9223372036854775808), "-9223372036854775808");
    assert_eq!(decimal_string(1634), "1634");
}

#[test]
fn decimal_text_reads_back() {
    let values = [0, 7, -7, 1234, -500, i64::MAX, i64::MIN];
    for v in values {
        let text = decimal_string(v);
        assert_eq!(parse_integer(&text), Some(v));
        assert_eq!(parse_cell(&text), Some(v));
        assert_eq!(parse_cell(&format!("{} \u{20BD}", text)), Some(v));
    }
}

#[test]
fn digits_convert_both_ways() {
    for d in 0u8..10 {
        let text = digit_str(d);
        assert_eq!(text, d.to_string());
        let c = text.chars().next().unwrap();
        assert_eq!(digit_of(c), Some(d));
    }
    assert_eq!(digit_of('a'), None);
    assert_eq!(digit_of('/'), None);
    assert_eq!(digit_of(':'), None);
    assert_eq!(digit_of('\u{661}'), None);
}

#[test]
fn texts_compare_by_their_characters() {
    assert!(same_text("/status", "/status"));
    assert!(!same_text("/status", "/statu"));
    assert!(!same_text("/status", "/Status"));
    assert!(!same_text("", "a"));
    assert!(same_text("", ""));
    assert_eq!(chars_of("a\u{20BD}b"), vec!['a', '\u{20BD}', 'b']);
}
