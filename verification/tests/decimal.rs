use pitter_os::decimal::{parse_u32, parse_u64, push_decimal, read_decimal};

#[test]
fn parse_u32_reads_plain_digits() {
    assert_eq!(parse_u32("0"), Some(0));
    assert_eq!(parse_u32("7"), Some(7));
    assert_eq!(parse_u32("1234"), Some(1234));
    assert_eq!(parse_u32("007"), Some(7));
    assert_eq!(parse_u32("0000000000000000000000042"), Some(42));
}

#[test]
fn parse_u32_takes_a_plus_sign_and_no_other() {
    assert_eq!(parse_u32("+5"), Some(5));
    assert_eq!(parse_u32("+0"), Some(0));
    assert_eq!(parse_u32("+"), None);
    assert_eq!(parse_u32("++5"), None);
    assert_eq!(parse_u32("-5"), None);
    assert_eq!(parse_u32("-0"), None);
    assert_eq!(parse_u32("-"), None);
    assert_eq!(parse_u32("5+"), None);
}

#[test]
fn parse_u32_refuses_what_is_no_number() {
    assert_eq!(parse_u32(""), None);
    assert_eq!(parse_u32(" 12"), None);
    assert_eq!(parse_u32("12 "), None);
    assert_eq!(parse_u32("12a"), None);
    assert_eq!(parse_u32("a12"), None);
    assert_eq!(parse_u32("1_000"), None);
    assert_eq!(parse_u32("1.5"), None);
    assert_eq!(parse_u32("0x10"), None);
    assert_eq!(parse_u32("\u{ff11}\u{ff12}"), None);
    assert_eq!(parse_u32("\u{661}"), None);
}

#[test]
fn parse_u32_stops_at_the_range_of_the_type() {
    assert_eq!(parse_u32("4294967295"), Some(u32::MAX));
    assert_eq!(parse_u32("+4294967295"), Some(u32::MAX));
    assert_eq!(parse_u32("4294967296"), None);
    assert_eq!(parse_u32("4294967300"), None);
    assert_eq!(parse_u32("42949672950"), None);
    assert_eq!(parse_u32("18446744073709551616"), None);
    assert_eq!(parse_u32("99999999999999999999999999999"), None);
    assert_eq!(parse_u32("99999999999999999999999999999x"), None);
}

#[test]
fn parse_u64_stops_at_the_range_of_the_type() {
    assert_eq!(parse_u64("0"), Some(0));
    assert_eq!(parse_u64("4294967296"), Some(4294967296));
    assert_eq!(parse_u64("18446744073709551615"), Some(u64::MAX));
    assert_eq!(parse_u64("18446744073709551616"), None);
    assert_eq!(parse_u64("18446744073709551620"), None);
    assert_eq!(parse_u64("184467440737095516150"), None);
    assert_eq!(parse_u64("+18446744073709551615"), Some(u64::MAX));
    assert_eq!(parse_u64("-1"), None);
    assert_eq!(parse_u64(""), None);
}

#[test]
fn parsing_agrees_with_std() {
    let samples = [
        "", "+", "-", "0", "00", "+0", "-0", "1", "+1", "-1", "12", "1 2", " 1", "1 ", "\t1",
        "255", "256", "65535", "65536", "4294967294", "4294967295", "4294967296", "4294967297",
        "9999999999", "18446744073709551614", "18446744073709551615", "18446744073709551616",
        "18446744073709551617", "99999999999999999999", "000000000000000000000000000001",
        "12a", "a", "1e3", "1.0", "+-1", "++1", "0x1", "１", "٣", "1\n", "\u{a0}1",
    ];
    for sample in samples {
        assert_eq!(parse_u32(sample), sample.parse::<u32>().ok(), "{:?}", sample);
        assert_eq!(parse_u64(sample), sample.parse::<u64>().ok(), "{:?}", sample);
    }
}

#[test]
fn read_decimal_keeps_to_its_limit() {
    let digits: Vec<char> = "100".chars().collect();
    assert_eq!(read_decimal(&digits, 100), Some(100));
    assert_eq!(read_decimal(&digits, 99), None);
    assert_eq!(read_decimal(&digits, 9), None);
    let nine: Vec<char> = "9".chars().collect();
    assert_eq!(read_decimal(&nine, 9), Some(9));
    assert_eq!(read_decimal(&[], 9), None);
}

#[test]
fn push_decimal_writes_the_digits() {
    for (n, expected) in [
        (0u32, "0"),
        (7, "7"),
        (9, "9"),
        (10, "10"),
        (42, "42"),
        (100, "100"),
        (1234, "1234"),
        (1000000, "1000000"),
        (4294967295, "4294967295"),
    ] {
        let mut text = String::new();
        push_decimal(&mut text, n);
        assert_eq!(text, expected);
    }
}

#[test]
fn push_decimal_appends_to_what_is_there() {
    let mut text = String::from("kill -9 ");
    push_decimal(&mut text, 305);
    assert_eq!(text, "kill -9 305");
    push_decimal(&mut text, 0);
    assert_eq!(text, "kill -9 3050");
}

#[test]
fn what_is_written_is_read_back() {
    let mut n: u32 = 0;
    loop {
        let mut text = String::new();
        push_decimal(&mut text, n);
        assert_eq!(text, n.to_string());
        assert_eq!(parse_u32(&text), Some(n));
        assert_eq!(parse_u64(&text), Some(u64::from(n)));
        if n > u32::MAX / 3 {
            break;
        }
        n = n * 3 + 1;
    }
    let mut text = String::new();
    push_decimal(&mut text, u32::MAX);
    assert_eq!(parse_u32(&text), Some(u32::MAX));
}
