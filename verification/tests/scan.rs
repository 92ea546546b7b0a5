use term_core::scan::{lines_of, parse_count, split_bytes, CR, LF, TAB};

fn runs(items: &[&str]) -> Vec<Vec<u8>> {
    items.iter().map(|s| s.as_bytes().to_vec()).collect()
}

#[test]
fn separators_are_the_ascii_ones() {
    assert_eq!((LF, CR, TAB), (b'\n', b'\r', b'\t'));
}

#[test]
fn split_keeps_empty_pieces() {
    assert_eq!(split_bytes(b"", b','), runs(&[""]));
    assert_eq!(split_bytes(b"a", b','), runs(&["a"]));
    assert_eq!(split_bytes(b"a,b", b','), runs(&["a", "b"]));
    assert_eq!(split_bytes(b"a,,b", b','), runs(&["a", "", "b"]));
    assert_eq!(split_bytes(b",a,", b','), runs(&["", "a", ""]));
    assert_eq!(split_bytes(b",", b','), runs(&["", ""]));
}

#[test]
fn split_agrees_with_std() {
    for text in ["3\t1\tsrc/a.rs", "-\t-\timg.png", "\t\t", "no tabs", "a\tb\tc\td"] {
        let expected: Vec<Vec<u8>> = text.split('\t').map(|p| p.as_bytes().to_vec()).collect();
        assert_eq!(split_bytes(text.as_bytes(), TAB), expected);
    }
}

#[test]
fn lines_end_with_lf_or_crlf() {
    assert_eq!(lines_of(b""), runs(&[]));
    assert_eq!(lines_of(b"a"), runs(&["a"]));
    assert_eq!(lines_of(b"a\n"), runs(&["a"]));
    assert_eq!(lines_of(b"a\nb"), runs(&["a", "b"]));
    assert_eq!(lines_of(b"a\r\nb\r\n"), runs(&["a", "b"]));
    assert_eq!(lines_of(b"\n"), runs(&[""]));
    assert_eq!(lines_of(b"a\n\nb\n"), runs(&["a", "", "b"]));
    assert_eq!(lines_of(b"a\r"), runs(&["a\r"]));
    assert_eq!(lines_of(b"a\r\r\n"), runs(&["a\r"]));
    assert_eq!(lines_of(b"\r\n"), runs(&[""]));
}

#[test]
fn lines_agree_with_std() {
    for text in ["", "x", "x\n", "x\ny", "x\r\ny\r\n", "\n\n", "a\rb\n", "tail\r", "\r", "é\nü\n"] {
        let expected: Vec<Vec<u8>> = text.lines().map(|l| l.as_bytes().to_vec()).collect();
        assert_eq!(lines_of(text.as_bytes()), expected, "for {:?}", text);
    }
}

#[test]
fn counts_are_decimal_numbers() {
    assert_eq!(parse_count(b"0"), 0);
    assert_eq!(parse_count(b"7"), 7);
    assert_eq!(parse_count(b"10"), 10);
    assert_eq!(parse_count(b"007"), 7);
    assert_eq!(parse_count(b"+12"), 12);
    assert_eq!(parse_count(b"123456789"), 123456789);
}

#[test]
fn what_is_no_number_counts_as_zero() {
    assert_eq!(parse_count(b""), 0);
    assert_eq!(parse_count(b"-"), 0);
    assert_eq!(parse_count(b"+"), 0);
    assert_eq!(parse_count(b"-5"), 0);
    assert_eq!(parse_count(b"++5"), 0);
    assert_eq!(parse_count(b"5+"), 0);
    assert_eq!(parse_count(b" 5"), 0);
    assert_eq!(parse_count(b"5 "), 0);
    assert_eq!(parse_count(b"1a"), 0);
    assert_eq!(parse_count(b"1.5"), 0);
    assert_eq!(parse_count("٣".as_bytes()), 0);
}

#[test]
fn counts_that_do_not_fit_are_zero() {
    let max = usize::MAX.to_string();
    assert_eq!(parse_count(max.as_bytes()), usize::MAX);
    let mut over = max.clone();
    over.push('0');
    assert_eq!(parse_count(over.as_bytes()), 0);
    assert_eq!(parse_count(b"99999999999999999999999999999999999999"), 0);
    assert_eq!(parse_count(b"18446744073709551616x"), 0);
}

#[test]
fn counts_agree_with_std() {
    for text in ["0", "42", "+42", "-42", "", "+", "0042", "4 2", "18446744073709551615", "18446744073709551616"] {
        assert_eq!(parse_count(text.as_bytes()), text.parse::<usize>().unwrap_or(0), "for {:?}", text);
    }
}
