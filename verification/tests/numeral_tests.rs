use mechanic::branch::branch_candidate;
use mechanic::numeral::parse_u64;
use mechanic::numeral::u64_to_dec;

#[test]
fn numbers_render_in_decimal() {
    assert_eq!(u64_to_dec(0), "0");
    assert_eq!(u64_to_dec(7), "7");
    assert_eq!(u64_to_dec(42), "42");
    assert_eq!(u64_to_dec(1146309), "1146309");
    assert_eq!(u64_to_dec(u64::MAX), "18446744073709551615");
}

#[test]
fn numerals_parse_back() {
    assert_eq!(parse_u64("0"), Some(0));
    assert_eq!(parse_u64("42"), Some(42));
    assert_eq!(parse_u64("007"), Some(7));
    assert_eq!(parse_u64("18446744073709551615"), Some(u64::MAX));
}

#[test]
fn non_numerals_do_not_parse() {
    assert_eq!(parse_u64(""), None);
    assert_eq!(parse_u64("N/A"), None);
    assert_eq!(parse_u64("4 2"), None);
    assert_eq!(parse_u64("-1"), None);
    assert_eq!(parse_u64("18446744073709551616"), None);
}

#[test]
fn rendering_then_parsing_roundtrips() {
    for n in [0u64, 1, 9, 10, 99, 100, 12345, u64::MAX] {
        assert_eq!(parse_u64(u64_to_dec(n).as_str()), Some(n));
    }
}

#[test]
fn branch_candidates_follow_the_pull_request() {
    assert_eq!(branch_candidate(17, 0), "mechanic-17");
    assert_eq!(branch_candidate(17, 1), "mechanic-17-1");
    assert_eq!(branch_candidate(17, 12), "mechanic-17-12");
}
