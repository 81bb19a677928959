use sidecar_supervisor::port::parse_port;
use sidecar_supervisor::port::probe_outcome;

#[test]
fn parses_simple_port() {
    assert_eq!(parse_port("5000"), Some(5000));
    assert_eq!(parse_port("80"), Some(80));
    assert_eq!(parse_port("0"), Some(0));
}

#[test]
fn parses_largest_port() {
    assert_eq!(parse_port("65535"), Some(65535));
}

#[test]
fn rejects_values_too_large_for_a_port() {
    assert_eq!(parse_port("65536"), None);
    assert_eq!(parse_port("99999"), None);
    assert_eq!(parse_port("99999999999999999999"), None);
}

#[test]
fn rejects_empty_and_non_numeric_strings() {
    assert_eq!(parse_port(""), None);
    assert_eq!(parse_port("abc"), None);
    assert_eq!(parse_port("80a"), None);
    assert_eq!(parse_port("a80"), None);
    assert_eq!(parse_port("-1"), None);
    assert_eq!(parse_port(" 80"), None);
    assert_eq!(parse_port("80 "), None);
    assert_eq!(parse_port("8 0"), None);
}

#[test]
fn sign_handling_matches_standard_integer_parsing() {
    assert_eq!(parse_port("+80"), Some(80));
    assert_eq!(parse_port("+"), None);
    assert_eq!(parse_port("++80"), None);
    assert_eq!(parse_port("8+0"), None);
}

#[test]
fn leading_zeros_are_plain_digits() {
    assert_eq!(parse_port("0080"), Some(80));
    assert_eq!(parse_port("00000"), Some(0));
}

#[test]
fn probe_is_false_without_a_valid_port() {
    assert!(!probe_outcome(None, true));
    assert!(!probe_outcome(None, false));
}

#[test]
fn probe_reports_the_connection_outcome() {
    assert!(probe_outcome(Some(5000), true));
    assert!(!probe_outcome(Some(5000), false));
}

#[test]
fn probe_outcome_is_stable_across_repeated_calls() {
    for _ in 0..5 {
        assert!(probe_outcome(Some(5000), true));
    }
}

#[test]
fn loopback_address_is_exact() {
    assert_eq!(sidecar_supervisor::port::loopback_address(5000), "127.0.0.1:5000");
    assert_eq!(sidecar_supervisor::port::loopback_address(0), "127.0.0.1:0");
    assert_eq!(sidecar_supervisor::port::loopback_address(65535), "127.0.0.1:65535");
}
