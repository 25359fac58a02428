use solana_dev_tools::text::{
    bool_to_text, chars_of, parse_bool, parse_u64, push_decimal, string_of, text_eq, u64_to_text,
};

#[test]
fn parse_u64_reads_decimal_numbers() {
    assert_eq!(parse_u64("0"), Some(0));
    assert_eq!(parse_u64("30"), Some(30));
    assert_eq!(parse_u64("+5"), Some(5));
    assert_eq!(parse_u64("007"), Some(7));
    assert_eq!(parse_u64("18446744073709551615"), Some(u64::MAX));
}

#[test]
fn parse_u64_refuses_everything_else() {
    for s in [
        "", "+", "-", "-5", "++5", "+-5", " 5", "5 ", "5.0", "1_000", "0x10", "abc", "12a",
        "18446744073709551616", "99999999999999999999999", "٣",
    ] {
        assert_eq!(parse_u64(s), None, "{:?}", s);
    }
}

#[test]
fn parse_u64_agrees_with_std() {
    for s in [
        "", "+", "0", "+0", "00", "9", "10", "+10", "-1", "18446744073709551615",
        "18446744073709551616", "184467440737095516150", "1 ", " 1", "1e3", "１２", "+ 1", "4294967296",
    ] {
        assert_eq!(parse_u64(s), s.parse::<u64>().ok(), "{:?}", s);
    }
}

#[test]
fn u64_to_text_writes_decimal_numbers() {
    assert_eq!(u64_to_text(0), "0");
    assert_eq!(u64_to_text(7), "7");
    assert_eq!(u64_to_text(10), "10");
    assert_eq!(u64_to_text(30), "30");
    assert_eq!(u64_to_text(12345), "12345");
    assert_eq!(u64_to_text(u64::MAX), "18446744073709551615");
}

#[test]
fn decimal_text_reads_back() {
    for n in [0u64, 1, 9, 10, 99, 100, 1 << 32, u64::MAX - 1, u64::MAX] {
        assert_eq!(u64_to_text(n), n.to_string());
        assert_eq!(parse_u64(&u64_to_text(n)), Some(n));
    }
}

#[test]
fn push_decimal_appends() {
    let mut out = vec!['n', '='];
    push_decimal(405, &mut out);
    assert_eq!(out, vec!['n', '=', '4', '0', '5']);
}

#[test]
fn bools_are_spelled_exactly() {
    assert_eq!(parse_bool("true"), Some(true));
    assert_eq!(parse_bool("false"), Some(false));
    for s in ["", "True", "FALSE", "1", "0", "yes", " true", "true "] {
        assert_eq!(parse_bool(s), None, "{:?}", s);
        assert_eq!(parse_bool(s), s.parse::<bool>().ok());
    }
    assert_eq!(bool_to_text(true), "true");
    assert_eq!(bool_to_text(false), "false");
    assert_eq!(parse_bool(&bool_to_text(true)), Some(true));
    assert_eq!(parse_bool(&bool_to_text(false)), Some(false));
}

#[test]
fn chars_and_strings_convert_both_ways() {
    assert_eq!(chars_of("aé😀"), vec!['a', 'é', '😀']);
    assert_eq!(chars_of(""), Vec::<char>::new());
    assert_eq!(string_of(&vec!['a', 'é', '😀']), "aé😀");
    assert_eq!(string_of(&chars_of("round trip")), "round trip");
}

#[test]
fn text_eq_compares_characters() {
    assert!(text_eq("abc", "abc"));
    assert!(text_eq("", ""));
    assert!(!text_eq("abc", "abd"));
    assert!(!text_eq("abc", "ab"));
    assert!(!text_eq("abc", "ABC"));
}
