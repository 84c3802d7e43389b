use patine::storage::maildir::{generate_mail_filename, mail_filename};

#[test]
fn mail_file_name_layout() {
    assert_eq!(mail_filename(1700000000, 42, 1234, 99, "local"), "1700000000.M42.P1234.Q99.local");
    assert_eq!(mail_filename(0, 0, 0, 0, "h"), "0.M0.P0.Q0.h");
    assert_eq!(
        mail_filename(u64::MAX, 999999, u32::MAX, 10, "mx.example"),
        "18446744073709551615.M999999.P4294967295.Q10.mx.example"
    );
}

#[test]
fn generated_name_has_a_random_part() {
    let name = generate_mail_filename(5, 6, 7, "host");
    assert!(name.starts_with("5.M6.P7.Q"));
    assert!(name.ends_with(".host"));
    let unique = &name["5.M6.P7.Q".len()..name.len() - ".host".len()];
    assert!(unique.parse::<u64>().is_ok());
    assert_eq!(unique.parse::<u64>().unwrap().to_string(), unique);
}
