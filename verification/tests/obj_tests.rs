use ln::numeral::parse_integer;
use ln::parse_index;

#[test]
fn parse_index_counts_from_the_start() {
    assert_eq!(parse_index("1", 10), 1);
    assert_eq!(parse_index("7", 10), 7);
    assert_eq!(parse_index("+7", 10), 7);
    assert_eq!(parse_index("0", 10), 0);
    assert_eq!(parse_index("12", 3), 12);
}

#[test]
fn parse_index_counts_back_from_the_end() {
    assert_eq!(parse_index("-1", 10), 9);
    assert_eq!(parse_index("-10", 10), 0);
    assert_eq!(parse_index("-3", 5), 2);
}

#[test]
fn parse_index_takes_other_text_as_zero() {
    assert_eq!(parse_index("", 10), 0);
    assert_eq!(parse_index("abc", 10), 0);
    assert_eq!(parse_index("1.5", 10), 0);
    assert_eq!(parse_index(" 1", 10), 0);
    assert_eq!(parse_index("-", 10), 0);
    assert_eq!(parse_index("+", 10), 0);
    assert_eq!(parse_index("99999999999999999999", 10), 0);
}

#[test]
fn parse_index_wraps_below_the_start() {
    assert_eq!(parse_index("-11", 10), usize::MAX);
    assert_eq!(parse_index("-12", 10), usize::MAX - 1);
}

#[test]
fn parse_integer_agrees_with_the_standard_parser() {
    let texts = [
        "0",
        "-0",
        "+0",
        "1",
        "-1",
        "0012",
        "9223372036854775807",
        "9223372036854775808",
        "-9223372036854775808",
        "-9223372036854775809",
        "123456789012345678901234567890",
        "",
        "+",
        "-",
        "--1",
        "+-1",
        "1a",
        "a1",
        "1 ",
        "1_000",
        "0x10",
    ];
    for t in texts.iter() {
        assert_eq!(parse_integer(t.as_bytes()), t.parse::<i64>().ok(), "{:?}", t);
    }
}
