use hackerai_desktop::hosts::{default_allowed_hosts, parse_allowed_hosts};
use hackerai_desktop::is_valid_token_format;
use hackerai_desktop::origin::validate_origin;

fn hex_token() -> String {
    "0123456789abcdef".repeat(4)
}

#[test]
fn token_64_lower_hex_is_valid() {
    assert!(is_valid_token_format(&hex_token()));
}

#[test]
fn token_64_upper_and_mixed_hex_is_valid() {
    assert!(is_valid_token_format(&"0123456789ABCDEF".repeat(4)));
    assert!(is_valid_token_format(&"0123456789aBcDeF".repeat(4)));
}

#[test]
fn token_wrong_length_is_invalid() {
    assert!(!is_valid_token_format(""));
    assert!(!is_valid_token_format("abc123"));
    assert!(!is_valid_token_format(&"a".repeat(63)));
    assert!(!is_valid_token_format(&"a".repeat(65)));
}

#[test]
fn token_with_non_hex_character_is_invalid() {
    let mut t = hex_token();
    t.replace_range(10..11, "g");
    assert!(!is_valid_token_format(&t));
    let mut u = hex_token();
    u.replace_range(0..1, " ");
    assert!(!is_valid_token_format(&u));
}

#[test]
fn token_with_non_ascii_character_is_invalid() {
    let mut t = hex_token();
    t.replace_range(0..1, "é");
    assert!(!is_valid_token_format(&t));
}

#[test]
fn origin_default_allow_list_cases() {
    let hosts = default_allowed_hosts();
    assert!(validate_origin("https://hackerai.co", &hosts));
    assert!(!validate_origin("http://hackerai.co", &hosts));
    assert!(validate_origin("http://localhost", &hosts));
    assert!(!validate_origin("https://evil.com", &hosts));
}

#[test]
fn origin_not_in_allow_list_is_rejected_regardless_of_scheme() {
    let hosts = default_allowed_hosts();
    assert!(!validate_origin("https://example.com", &hosts));
    assert!(!validate_origin("http://example.com", &hosts));
    assert!(!validate_origin("ftp://example.com", &hosts));
}

#[test]
fn origin_that_does_not_parse_is_rejected() {
    let hosts = default_allowed_hosts();
    assert!(!validate_origin("not a url", &hosts));
    assert!(!validate_origin("", &hosts));
}

#[test]
fn origin_host_is_normalized_by_the_parser() {
    let hosts = default_allowed_hosts();
    assert!(validate_origin("https://HACKERAI.co", &hosts));
    assert!(validate_origin("HTTPS://hackerai.co", &hosts));
}

#[test]
fn origin_port_does_not_change_the_host_match() {
    let hosts = default_allowed_hosts();
    assert!(validate_origin("https://hackerai.co:8443", &hosts));
    assert!(validate_origin("http://localhost:3000", &hosts));
}

#[test]
fn origin_custom_allow_list() {
    let hosts = parse_allowed_hosts("example.com, localhost");
    assert!(validate_origin("https://example.com", &hosts));
    assert!(!validate_origin("https://hackerai.co", &hosts));
    assert!(validate_origin("http://localhost", &hosts));
    assert!(!validate_origin("http://example.com", &hosts));
}

#[test]
fn parse_allowed_hosts_trims_entries() {
    let hosts = parse_allowed_hosts(" a , b ");
    assert_eq!(hosts, vec!["a".to_string(), "b".to_string()]);
}

#[test]
fn parse_allowed_hosts_plain_list() {
    let hosts = parse_allowed_hosts("hackerai.co,localhost");
    assert_eq!(hosts, vec!["hackerai.co".to_string(), "localhost".to_string()]);
}

#[test]
fn parse_allowed_hosts_empty_value_gives_one_empty_entry() {
    let hosts = parse_allowed_hosts("");
    assert_eq!(hosts, vec![String::new()]);
}

#[test]
fn parse_allowed_hosts_trailing_comma_gives_empty_entry() {
    let hosts = parse_allowed_hosts("a,");
    assert_eq!(hosts, vec!["a".to_string(), String::new()]);
}

#[test]
fn default_allow_list_contents() {
    let hosts = default_allowed_hosts();
    assert_eq!(hosts, vec!["hackerai.co".to_string(), "localhost".to_string()]);
}
