use map_tests::seed_input::parse_seed;

#[test]
fn plain_seeds() {
    assert_eq!(parse_seed("6"), Some(6));
    assert_eq!(parse_seed("0"), Some(0));
    assert_eq!(parse_seed("000123"), Some(123));
    assert_eq!(parse_seed("+7"), Some(7));
}

#[test]
fn whitespace_around_is_ignored() {
    assert_eq!(parse_seed("  42 "), Some(42));
    assert_eq!(parse_seed("\t11\n"), Some(11));
    assert_eq!(parse_seed("\u{3000}5\u{A0}"), Some(5));
}

#[test]
fn rejected_seeds() {
    assert_eq!(parse_seed(""), None);
    assert_eq!(parse_seed("   "), None);
    assert_eq!(parse_seed("+"), None);
    assert_eq!(parse_seed("-1"), None);
    assert_eq!(parse_seed("1 2"), None);
    assert_eq!(parse_seed("12a"), None);
    assert_eq!(parse_seed("++1"), None);
    assert_eq!(parse_seed("seed"), None);
}

#[test]
fn the_full_u64_range() {
    assert_eq!(parse_seed("18446744073709551615"), Some(u64::MAX));
    assert_eq!(parse_seed("18446744073709551616"), None);
    assert_eq!(parse_seed("99999999999999999999999"), None);
}

#[test]
fn agrees_with_std_parsing() {
    for text in ["6", " 6 ", "+6", "-6", "", "6x", "007", "184467440737095516150", "\u{2003}9\u{2029}"] {
        assert_eq!(parse_seed(text), text.trim().parse::<u64>().ok(), "{text:?}");
    }
}
