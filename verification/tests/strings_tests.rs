use football_sim::strings::StringUtils;

#[test]
fn random_string_is_empty_for_non_positive_lengths() {
    assert_eq!(StringUtils::random_string(0), "");
    assert_eq!(StringUtils::random_string(-1), "");
    assert_eq!(StringUtils::random_string(-100), "");
}

#[test]
fn random_string_has_the_requested_length() {
    assert_eq!(StringUtils::random_string(1).len(), 1);
    assert_eq!(StringUtils::random_string(12).len(), 12);
    assert_eq!(StringUtils::random_string(64).len(), 64);
}

#[test]
fn random_string_starts_upper_then_lower() {
    for _ in 0..50 {
        let s = StringUtils::random_string(10);
        let mut chars = s.chars();
        let first = chars.next().unwrap();
        assert!(first.is_ascii_uppercase(), "first char was {first:?}");
        for c in chars {
            assert!(c.is_ascii_lowercase(), "later char was {c:?}");
        }
    }
}
