use patine::command::smtp_command::SmtpCommand;
use patine::commands::smtp_command::SmtpCommand as KeywordCommand;

#[test]
fn ehlo_line_keeps_its_domain() {
    let c = SmtpCommand::from("EHLO example.com".to_string());
    assert_eq!(c, SmtpCommand::Ehlo("example.com".to_string()));
}

#[test]
fn keywords_are_matched_without_case() {
    let c = SmtpCommand::from("mAiL FROM:<a@b.cd>".to_string());
    assert_eq!(c, SmtpCommand::Mail("FROM:<a@b.cd>".to_string()));
    assert_eq!(SmtpCommand::from("quit".to_string()), SmtpCommand::Quit);
    assert_eq!(SmtpCommand::from("Rset".to_string()), SmtpCommand::Rset);
}

#[test]
fn parameters_are_trimmed() {
    let c = SmtpCommand::from("HELO   relay.example  ".to_string());
    assert_eq!(c, SmtpCommand::Helo("relay.example".to_string()));
}

#[test]
fn commands_without_parameters() {
    assert_eq!(SmtpCommand::from("DATA".to_string()), SmtpCommand::Data);
    assert_eq!(SmtpCommand::from("NOOP".to_string()), SmtpCommand::Noop);
    assert_eq!(SmtpCommand::from("STARTTLS".to_string()), SmtpCommand::Starttls);
}

#[test]
fn short_line_has_empty_parameters() {
    assert_eq!(SmtpCommand::from("EHLO".to_string()), SmtpCommand::Ehlo(String::new()));
    assert_eq!(SmtpCommand::from("vrfy".to_string()), SmtpCommand::Vrfy(String::new()));
}

#[test]
fn auth_keeps_its_mechanism_and_response() {
    let c = SmtpCommand::from("AUTH PLAIN AGJvYgBodWpnbnVq".to_string());
    assert_eq!(c, SmtpCommand::Auth("PLAIN AGJvYgBodWpnbnVq".to_string()));
}

#[test]
fn unknown_line_is_unknown() {
    assert_eq!(SmtpCommand::from("HELP me".to_string()), SmtpCommand::Unknown);
    assert_eq!(SmtpCommand::from(String::new()), SmtpCommand::Unknown);
    assert_eq!(SmtpCommand::Unknown.name(), None);
}

#[test]
fn the_first_keyword_that_matches_decides() {
    // "datax" still begins with "data".
    assert_eq!(SmtpCommand::from("DATAX".to_string()), SmtpCommand::Data);
}

#[test]
fn names_of_commands() {
    assert_eq!(SmtpCommand::Helo(String::new()).name(), Some("helo"));
    assert_eq!(SmtpCommand::Ehlo(String::new()).name(), Some("ehlo"));
    assert_eq!(SmtpCommand::Mail(String::new()).name(), Some("mail"));
    assert_eq!(SmtpCommand::Rcpt(String::new()).name(), Some("rcpt"));
    assert_eq!(SmtpCommand::Data.name(), Some("data"));
    assert_eq!(SmtpCommand::Rset.name(), Some("rset"));
    assert_eq!(SmtpCommand::Noop.name(), Some("noop"));
    assert_eq!(SmtpCommand::Quit.name(), Some("quit"));
    assert_eq!(SmtpCommand::Vrfy(String::new()).name(), Some("vrfy"));
    assert_eq!(SmtpCommand::Auth(String::new()).name(), Some("auth"));
    assert_eq!(SmtpCommand::Starttls.name(), Some("starttls"));
    assert_eq!(SmtpCommand::DataEnd(vec![1, 2]).name(), Some("data_end"));
}

#[test]
fn keyword_commands_carry_placeholders() {
    assert!(matches!(KeywordCommand::from("EHLO x".to_string()), KeywordCommand::Ehlo(s) if s == "Hellow!"));
    assert!(matches!(KeywordCommand::from("helo".to_string()), KeywordCommand::Helo(s) if s == "Hellow!"));
    assert!(matches!(KeywordCommand::from("Mail from:<a@b>".to_string()), KeywordCommand::MailFrom(s) if s == "Mail from"));
    assert!(matches!(KeywordCommand::from("RCPT TO:<a@b>".to_string()), KeywordCommand::RcptTo(s) if s.is_empty()));
    assert!(matches!(KeywordCommand::from("DATA".to_string()), KeywordCommand::Data(s) if s.is_empty()));
    assert!(matches!(KeywordCommand::from("vrfy bob".to_string()), KeywordCommand::Vrfy(s) if s.is_empty()));
    assert!(matches!(KeywordCommand::from("RSET".to_string()), KeywordCommand::Rset));
    assert!(matches!(KeywordCommand::from("noop".to_string()), KeywordCommand::Noop));
    assert!(matches!(KeywordCommand::from("QUIT".to_string()), KeywordCommand::Quit));
    assert!(matches!(KeywordCommand::from("STARTTLS".to_string()), KeywordCommand::Unknown));
}
