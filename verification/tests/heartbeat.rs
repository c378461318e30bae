use dobby::heartbeat::parse_uptime;

#[test]
fn decimal_digits_are_read() {
    assert_eq!(parse_uptime("0"), Some(0));
    assert_eq!(parse_uptime("1000"), Some(1000));
    assert_eq!(parse_uptime("5000"), Some(5000));
    assert_eq!(parse_uptime("0042"), Some(42));
    assert_eq!(parse_uptime("4294967295"), Some(u32::MAX));
}

#[test]
fn a_plus_sign_may_lead() {
    assert_eq!(parse_uptime("+7"), Some(7));
    assert_eq!(parse_uptime("+"), None);
    assert_eq!(parse_uptime("++7"), None);
    assert_eq!(parse_uptime("7+"), None);
}

#[test]
fn a_number_that_does_not_fit_is_refused() {
    assert_eq!(parse_uptime("4294967296"), None);
    assert_eq!(parse_uptime("99999999999999999999999999"), None);
    assert_eq!(parse_uptime("00000000004294967295"), Some(u32::MAX));
}

#[test]
fn anything_but_digits_is_refused() {
    assert_eq!(parse_uptime(""), None);
    assert_eq!(parse_uptime("abc"), None);
    assert_eq!(parse_uptime("-1"), None);
    assert_eq!(parse_uptime(" 1"), None);
    assert_eq!(parse_uptime("1 "), None);
    assert_eq!(parse_uptime("1\n"), None);
    assert_eq!(parse_uptime("1_000"), None);
    assert_eq!(parse_uptime("1.5"), None);
    assert_eq!(parse_uptime("0x10"), None);
    assert_eq!(parse_uptime("١٢"), None);
    assert_eq!(parse_uptime("4294967296x"), None);
}

#[test]
fn parsing_agrees_with_the_standard_library() {
    let samples = [
        "", "+", "-", "0", "+0", "-0", "12", "+12", "0012", "4294967295", "4294967296",
        "42949672950", "1a", "a1", " 1", "1 ", "٣", "/", ":", "9", "00000000000000000001",
    ];
    for s in samples {
        assert_eq!(parse_uptime(s), s.parse::<u32>().ok(), "{:?}", s);
    }
}
