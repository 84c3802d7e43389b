use patine::config::{load_config, ConfigKey};

fn var(k: &str, v: &str) -> (String, String) {
    (k.to_string(), v.to_string())
}

#[test]
fn all_settings_present() {
    let vars = vec![
        var("HOME", "/root"),
        var("MAILDIR_ROOT", "/var/mail"),
        var("DOMAIN", "example.com"),
        var("SUBMISSION_PORT", "587"),
        var("RELAY_PORT", "25"),
        var("PAM_HELPER_PATH", "/usr/local/bin/pam_helper"),
    ];
    let c = load_config(&vars).unwrap();
    assert_eq!(c.maildir_root, "/var/mail");
    assert_eq!(c.domain, "example.com");
    assert_eq!(c.submission_port, 587);
    assert_eq!(c.relay_port, 25);
    assert_eq!(c.pam_helper_path, "/usr/local/bin/pam_helper");
}

#[test]
fn missing_settings_are_listed_in_order() {
    let vars = vec![var("RELAY_PORT", "25"), var("MAILDIR_ROOT", "/var/mail")];
    match load_config(&vars) {
        Err(missing) => assert_eq!(
            missing,
            vec![ConfigKey::Domain, ConfigKey::SubmissionPort, ConfigKey::PamHelperPath]
        ),
        Ok(_) => panic!("settings are missing"),
    }
}

#[test]
fn nothing_set() {
    match load_config(&vec![]) {
        Err(missing) => assert_eq!(missing.len(), 5),
        Ok(_) => panic!("settings are missing"),
    }
}

#[test]
fn ports_accept_a_plus_sign() {
    let vars = vec![
        var("MAILDIR_ROOT", "m"),
        var("DOMAIN", "d"),
        var("SUBMISSION_PORT", "+587"),
        var("RELAY_PORT", "65535"),
        var("PAM_HELPER_PATH", "p"),
    ];
    let c = load_config(&vars).unwrap();
    assert_eq!((c.submission_port, c.relay_port), (587, 65535));
}

#[test]
fn setting_names() {
    assert_eq!(ConfigKey::MaildirRoot.name(), "MAILDIR_ROOT");
    assert_eq!(ConfigKey::Domain.name(), "DOMAIN");
    assert_eq!(ConfigKey::SubmissionPort.name(), "SUBMISSION_PORT");
    assert_eq!(ConfigKey::RelayPort.name(), "RELAY_PORT");
    assert_eq!(ConfigKey::PamHelperPath.name(), "PAM_HELPER_PATH");
}
