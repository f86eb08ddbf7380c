use nino::numbers::{parse_i32, parse_i64, parse_integer, IntErrorKind};

fn samples() -> Vec<String> {
    let mut all: Vec<String> = vec![
        "", "+", "-", "0", "-0", "+0", "00", "007", "-007", "1", "-1", "+1", "42", "1 ", " 1",
        "1_000", "1e3", "0x10", "++1", "--1", "+-1", "1-", "1+1", "\u{661}", "1\u{e9}", "\u{e9}1",
        "9223372036854775806", "9223372036854775807", "9223372036854775808",
        "-9223372036854775807", "-9223372036854775808", "-9223372036854775809",
        "+9223372036854775807", "+9223372036854775808", "99999999999999999999",
        "-99999999999999999999", "99999999999999999999x", "x99999999999999999999",
        "9223372036854775807x", "92233720368547758070", "000000000000000000000000001",
        "-000000000000000000000000001", "2147483647", "2147483648", "-2147483648",
        "-2147483649", "21474836470", "2147483648x", "1.5", ".", "1.", "abc", "-abc", "+ 1",
    ]
    .into_iter()
    .map(|s| s.to_owned())
    .collect();
    let alphabet = ['0', '1', '9', '+', '-', ' ', 'a'];
    for a in alphabet {
        for b in alphabet {
            for c in alphabet {
                all.push([a, b, c].iter().collect());
            }
        }
    }
    all
}

#[test]
fn sixty_four_bits_are_read_as_the_language_reads_them() {
    for s in samples() {
        let expected = s.parse::<i64>().map_err(|e| e.to_string());
        assert_eq!(parse_i64(&s), expected, "{:?}", s);
    }
}

#[test]
fn thirty_two_bits_are_read_as_the_language_reads_them() {
    for s in samples() {
        assert_eq!(parse_i32(&s), s.parse::<i32>().ok(), "{:?}", s);
    }
}

#[test]
fn what_goes_wrong_first_is_the_error() {
    assert_eq!(parse_integer("", -10, 10), Err(IntErrorKind::Empty));
    assert_eq!(parse_integer("-", -10, 10), Err(IntErrorKind::InvalidDigit));
    assert_eq!(parse_integer("1x", -10, 10), Err(IntErrorKind::InvalidDigit));
    assert_eq!(parse_integer("11", -10, 10), Err(IntErrorKind::PosOverflow));
    assert_eq!(parse_integer("-11", -10, 10), Err(IntErrorKind::NegOverflow));
    assert_eq!(parse_integer("11x", -10, 10), Err(IntErrorKind::PosOverflow));
    assert_eq!(parse_integer("1x1", -10, 10), Err(IntErrorKind::InvalidDigit));
    assert_eq!(parse_integer("10", -10, 10), Ok(10));
    assert_eq!(parse_integer("-10", -10, 10), Ok(-10));
    assert_eq!(parse_integer("+010", -10, 10), Ok(10));
}

#[test]
fn number_error_texts() {
    assert_eq!(IntErrorKind::Empty.message(), "cannot parse integer from empty string");
    assert_eq!(IntErrorKind::InvalidDigit.message(), "invalid digit found in string");
    assert_eq!(IntErrorKind::PosOverflow.message(), "number too large to fit in target type");
    assert_eq!(IntErrorKind::NegOverflow.message(), "number too small to fit in target type");
}
