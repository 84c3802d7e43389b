use patine::command::handlers::address::is_valid_address;
use patine::command::handlers::auth_handler::credentials_from_plain;
use patine::command::handlers::data_end_handler::local_recipients;
use patine::command::handlers::rcpt_handler::address_domain;
use patine::text::{parse_u16_str, split_once_char, str_get_from, trim_str};

#[test]
fn trimming_removes_unicode_white_space() {
    assert_eq!(trim_str("\u{2003} a b\t\r\n"), "a b");
    assert_eq!(trim_str("   "), "");
    assert_eq!(trim_str(""), "");
}

#[test]
fn port_numbers() {
    assert_eq!(parse_u16_str("25"), Some(25));
    assert_eq!(parse_u16_str("+12"), Some(12));
    assert_eq!(parse_u16_str("0065535"), Some(65535));
    assert_eq!(parse_u16_str("65536"), None);
    assert_eq!(parse_u16_str("-1"), None);
    assert_eq!(parse_u16_str("+"), None);
    assert_eq!(parse_u16_str(""), None);
    assert_eq!(parse_u16_str(" 25"), None);
}

#[test]
fn suffix_from_a_byte_offset() {
    assert_eq!(str_get_from("héllo", 3), Some("llo"));
    assert_eq!(str_get_from("héllo", 2), None);
    assert_eq!(str_get_from("abc", 3), Some(""));
    assert_eq!(str_get_from("abc", 4), None);
}

#[test]
fn splitting_at_the_first_separator() {
    assert_eq!(split_once_char("bob@example.com", '@'), Some(("bob", "example.com")));
    assert_eq!(split_once_char("a@b@c", '@'), Some(("a", "b@c")));
    assert_eq!(split_once_char("nobody", '@'), None);
}

#[test]
fn address_syntax() {
    assert!(is_valid_address("bob@example.com"));
    assert!(is_valid_address("a.b-c@mail.example.org"));
    assert!(!is_valid_address("bob@example"));
    assert!(!is_valid_address("bob"));
    assert!(!is_valid_address("bob@example.c"));
    assert!(!is_valid_address(""));
}

#[test]
fn domain_of_an_address() {
    assert_eq!(address_domain("bob@example.com"), Some("example.com"));
    assert_eq!(address_domain("bob"), None);
}

#[test]
fn local_part_of_local_mailboxes() {
    let boxes = vec!["bob@example.com".to_string(), "nodomain".to_string(), "al@example.com".to_string()];
    assert_eq!(local_recipients(&boxes, "example.com"), Some(vec!["bob".to_string(), "al".to_string()]));
    let foreign = vec!["bob@example.com".to_string(), "eve@other.org".to_string()];
    assert_eq!(local_recipients(&foreign, "example.com"), None);
}

#[test]
fn plain_credentials() {
    assert_eq!(
        credentials_from_plain(b"\0bob\0hujgnuj"),
        Some(("bob".to_string(), "hujgnuj".to_string()))
    );
    assert_eq!(credentials_from_plain(b"zid\0bob\0pw\0extra"), Some(("bob".to_string(), "pw".to_string())));
    assert_eq!(credentials_from_plain(b"\0bob"), None);
    assert_eq!(credentials_from_plain(b"\0\xff\0pw"), None);
}
