use patine::command::smtp_command::SmtpCommand;
use patine::io::client_session::{join_lines, ClientError, ClientStage};
use patine::io::smtp_response::SmtpResponse;
use patine::io::smtp_state::SmtpState;
use patine::io::transaction::SmtpTransaction;
use patine::io::transaction_type::TransactionType;

fn line(code: u16, text: &str) -> SmtpResponse {
    SmtpResponse::SingleLine(code, text.to_string())
}

fn multi(code: u16, lines: &[&str]) -> SmtpResponse {
    SmtpResponse::Multiline(code, lines.iter().map(|l| l.to_string()).collect())
}

#[test]
fn client_for_a_submission() {
    let c = SmtpTransaction::new_client_from_submission("bob@example.com".to_string(), "eve@other.org".to_string());
    assert_eq!(c.from, Some("bob@example.com".to_string()));
    assert_eq!(c.to, Some(vec!["eve@other.org".to_string()]));
    assert_eq!(c.state, SmtpState::Connected);
    assert_eq!(c.transaction_type, TransactionType::CLIENT { exchange: None });
    assert!(!c.tls && !c.esmtp && !c.authenticated);
}

#[test]
fn starttls_is_seen_only_in_a_multiline_reply() {
    let c = SmtpTransaction::new_client();
    assert!(c.is_tls(multi(250, &["mx.other.org", "STARTTLS"])));
    assert!(!c.is_tls(multi(250, &["mx.other.org", "STARTTLS "])));
    assert!(!c.is_tls(multi(250, &["mx.other.org", "starttls"])));
    assert!(!c.is_tls(line(250, "STARTTLS")));
}

#[test]
fn expected_reply_passes_through() {
    let r = SmtpTransaction::expect_response(250, multi(250, &["a", "b"]));
    assert_eq!(r, Ok(multi(250, &["a", "b"])));
    assert_eq!(SmtpTransaction::expect_response(220, line(220, "hi")), Ok(line(220, "hi")));
}

#[test]
fn unexpected_reply_gives_its_text() {
    assert_eq!(SmtpTransaction::expect_response(250, line(550, "No such user")), Err("No such user".to_string()));
    assert_eq!(
        SmtpTransaction::expect_response(250, multi(451, &["try", "again", "later"])),
        Err("try; again; later".to_string())
    );
}

#[test]
fn joining_lines() {
    assert_eq!(join_lines(&vec![], "; "), "");
    assert_eq!(join_lines(&vec!["a".to_string()], "; "), "a");
    assert_eq!(join_lines(&vec!["a".to_string(), "b".to_string(), "c".to_string()], ", "), "a, b, c");
}

#[test]
fn a_whole_delivery() {
    let c = SmtpTransaction::new_client_from_submission("bob@example.com".to_string(), "eve@other.org".to_string());
    let data = b"Subject: hi\r\n\r\nhello";
    let step = |stage, reply| c.client_step(stage, reply, "example.com", data).unwrap();
    let (s1, c1) = step(ClientStage::Greeting, line(220, "mx ready"));
    assert_eq!((s1, c1), (ClientStage::Ehlo, Some(SmtpCommand::Ehlo("example.com".to_string()))));
    let (s2, c2) = step(s1, multi(250, &["mx", "STARTTLS"]));
    assert_eq!((s2, c2), (ClientStage::Starttls, Some(SmtpCommand::Starttls)));
    let (s3, c3) = step(s2, line(220, "go ahead"));
    assert_eq!((s3, c3), (ClientStage::Mail, Some(SmtpCommand::Mail("bob@example.com".to_string()))));
    let (s4, c4) = step(s3, line(250, "ok"));
    assert_eq!((s4, c4), (ClientStage::Rcpt(0), Some(SmtpCommand::Rcpt("eve@other.org".to_string()))));
    let (s5, c5) = step(s4, line(250, "ok"));
    assert_eq!((s5, c5), (ClientStage::Data, Some(SmtpCommand::Data)));
    let (s6, c6) = step(s5, line(354, "go on"));
    assert_eq!((s6, c6), (ClientStage::DataEnd, Some(SmtpCommand::DataEnd(data.to_vec()))));
    let (s7, c7) = step(s6, line(250, "queued"));
    assert_eq!((s7, c7), (ClientStage::Quit, Some(SmtpCommand::Quit)));
    let (s8, c8) = step(s7, line(250, "bye"));
    assert_eq!((s8, c8), (ClientStage::Done, None));
}

#[test]
fn without_starttls_mail_follows_ehlo() {
    let c = SmtpTransaction::new_client_from_submission("a@example.com".to_string(), "b@other.org".to_string());
    let r = c.client_step(ClientStage::Ehlo, line(250, "mx.other.org"), "example.com", b"").unwrap();
    assert_eq!(r, (ClientStage::Mail, Some(SmtpCommand::Mail("a@example.com".to_string()))));
}

#[test]
fn every_recipient_gets_its_rcpt() {
    let mut c = SmtpTransaction::new_client_from_submission("a@example.com".to_string(), "b@other.org".to_string());
    c.to = Some(vec!["b@other.org".to_string(), "c@other.org".to_string()]);
    let r0 = c.client_step(ClientStage::Mail, line(250, "ok"), "example.com", b"").unwrap();
    assert_eq!(r0, (ClientStage::Rcpt(0), Some(SmtpCommand::Rcpt("b@other.org".to_string()))));
    let r1 = c.client_step(ClientStage::Rcpt(0), line(250, "ok"), "example.com", b"").unwrap();
    assert_eq!(r1, (ClientStage::Rcpt(1), Some(SmtpCommand::Rcpt("c@other.org".to_string()))));
    let r2 = c.client_step(ClientStage::Rcpt(1), line(250, "ok"), "example.com", b"").unwrap();
    assert_eq!(r2, (ClientStage::Data, Some(SmtpCommand::Data)));
}

#[test]
fn empty_recipient_list_goes_to_data() {
    let mut c = SmtpTransaction::new_client_from_submission("a@example.com".to_string(), "b@other.org".to_string());
    c.to = Some(vec![]);
    let r = c.client_step(ClientStage::Mail, line(250, "ok"), "example.com", b"").unwrap();
    assert_eq!(r, (ClientStage::Data, Some(SmtpCommand::Data)));
}

#[test]
fn rejected_reply_stops_the_delivery() {
    let c = SmtpTransaction::new_client_from_submission("a@example.com".to_string(), "b@other.org".to_string());
    match c.client_step(ClientStage::Greeting, line(554, "go away"), "example.com", b"") {
        Err(ClientError::Rejected(text)) => assert_eq!(text, "go away"),
        other => panic!("unexpected {:?}", other),
    }
    match c.client_step(ClientStage::Data, multi(550, &["no", "data"]), "example.com", b"") {
        Err(ClientError::Rejected(text)) => assert_eq!(text, "no; data"),
        other => panic!("unexpected {:?}", other),
    }
}

#[test]
fn missing_recipient_list_stops_the_delivery() {
    let mut c = SmtpTransaction::new_client();
    c.from = Some("a@example.com".to_string());
    assert!(matches!(
        c.client_step(ClientStage::Mail, line(250, "ok"), "example.com", b""),
        Err(ClientError::NoRecipients)
    ));
}

#[test]
fn copied_reply_is_equal() {
    let r = multi(250, &["x", "y"]);
    assert_eq!(r.clone_reply(), r);
    assert_eq!(line(221, "bye").clone_reply(), line(221, "bye"));
}
