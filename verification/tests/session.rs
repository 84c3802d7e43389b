use patine::command::command_handler::HandlerOutcome;
use patine::command::smtp_command::SmtpCommand;
use patine::io::smtp_response::SmtpResponse;
use patine::io::smtp_state::SmtpState;
use patine::io::transaction::SmtpTransaction;
use patine::io::transaction_type::TransactionType;

const LOCAL: &str = "example.com";

fn line(code: u16, text: &str) -> SmtpResponse {
    SmtpResponse::SingleLine(code, text.to_string())
}

fn replies(outcome: Option<HandlerOutcome>) -> Vec<SmtpResponse> {
    match outcome {
        Some(HandlerOutcome::Respond(v)) => v,
        _ => panic!("expected replies"),
    }
}

fn send(t: &mut SmtpTransaction, line_text: &str) -> Vec<SmtpResponse> {
    replies(t.handle_command(SmtpCommand::from(line_text.to_string()), LOCAL))
}

#[test]
fn sessions_start_unnegotiated() {
    let s = SmtpTransaction::new_server();
    assert!(!s.tls && !s.esmtp && s.authenticated);
    assert_eq!(s.state, SmtpState::Connected);
    assert!(s.from.is_none() && s.to.is_none());
    assert_eq!(s.transaction_type, TransactionType::SERVER);
    let m = SmtpTransaction::new_submission();
    assert!(!m.authenticated);
    assert_eq!(m.transaction_type, TransactionType::SUBMISSION);
    let c = SmtpTransaction::new_client();
    assert_eq!(c.transaction_type, TransactionType::CLIENT { exchange: None });
}

#[test]
fn welcome_greeting() {
    assert_eq!(SmtpTransaction::welcome(), line(220, "Welcome! Patine build 0.1-dev"));
}

#[test]
fn ehlo_lists_extensions_and_offers_starttls() {
    let mut s = SmtpTransaction::new_server();
    let r = send(&mut s, "EHLO client.example");
    let expected: Vec<String> = ["Welcome!", "SIZE 35882577", "8BITMIME", "SMTPUTF8", "STARTTLS"]
        .iter()
        .map(|x| x.to_string())
        .collect();
    assert_eq!(r, vec![SmtpResponse::Multiline(250, expected)]);
    assert_eq!(s.state, SmtpState::Greeted);
    assert!(s.esmtp);
}

#[test]
fn ehlo_without_domain_is_refused() {
    let mut s = SmtpTransaction::new_server();
    assert_eq!(send(&mut s, "EHLO   "), vec![line(501, "Invalid argument")]);
    assert_eq!(s.state, SmtpState::Connected);
}

#[test]
fn second_greeting_is_out_of_sequence() {
    let mut s = SmtpTransaction::new_server();
    send(&mut s, "EHLO client.example");
    assert_eq!(send(&mut s, "EHLO client.example"), vec![line(503, "Bad sequence of commands")]);
    assert_eq!(send(&mut s, "HELO client.example"), vec![line(503, "Bad sequence of commands")]);
}

#[test]
fn helo_greets_even_without_domain() {
    let mut s = SmtpTransaction::new_server();
    assert_eq!(send(&mut s, "HELO"), vec![line(501, "Invalid argument"), line(250, "Hello!")]);
    assert_eq!(s.state, SmtpState::Greeted);
    assert!(!s.esmtp);
}

#[test]
fn mail_before_greeting_is_out_of_sequence() {
    let mut s = SmtpTransaction::new_server();
    assert_eq!(send(&mut s, "MAIL FROM:<a@sender.org>"), vec![line(503, "Bad sequence of commands")]);
}

#[test]
fn mail_argument_errors() {
    let mut s = SmtpTransaction::new_server();
    send(&mut s, "HELO c");
    assert_eq!(send(&mut s, "MAIL a@sender.org"), vec![line(501, "Syntax error in parameters or arguments")]);
    assert_eq!(send(&mut s, "MAIL FROM: a@sender.org"), vec![line(501, "Parameter syntax error")]);
    assert_eq!(send(&mut s, "MAIL FROM:<not-an-address>"), vec![line(501, "Invalid email format")]);
    assert_eq!(s.state, SmtpState::Greeted);
}

#[test]
fn submission_needs_authentication_for_mail() {
    let mut s = SmtpTransaction::new_submission();
    send(&mut s, "EHLO c.example");
    assert_eq!(send(&mut s, "MAIL FROM:<bob@example.com>"), vec![line(530, "Authentication Required.")]);
    assert!(s.from.is_none());
}

#[test]
fn relay_accepts_mail_for_the_local_domain_only() {
    let mut s = SmtpTransaction::new_server();
    send(&mut s, "EHLO c.example");
    assert_eq!(send(&mut s, "mail from:<a@sender.org>"), vec![line(250, "Sender OK")]);
    assert_eq!(s.state, SmtpState::Mailing);
    assert_eq!(s.from, Some("a@sender.org".to_string()));
    assert_eq!(s.to, Some(vec![]));
    assert_eq!(send(&mut s, "RCPT TO:<eve@elsewhere.org>"), vec![line(550, "Cannot relay")]);
    assert_eq!(s.state, SmtpState::Addressing);
    assert_eq!(s.to, Some(vec![]));
    assert_eq!(send(&mut s, "RCPT TO:<bob@example.com>"), vec![line(250, "Sender OK")]);
    assert_eq!(s.to, Some(vec!["bob@example.com".to_string()]));
}

#[test]
fn rcpt_before_mail_is_out_of_sequence() {
    let mut s = SmtpTransaction::new_server();
    send(&mut s, "EHLO c.example");
    assert_eq!(send(&mut s, "RCPT TO:<bob@example.com>"), vec![line(503, "Bad sequence of commands")]);
    assert_eq!(send(&mut s, "RCPT <bob@example.com>"), vec![line(501, "Syntax error in parameters or arguments")]);
}

#[test]
fn data_needs_a_recipient() {
    let mut s = SmtpTransaction::new_server();
    send(&mut s, "EHLO c.example");
    assert_eq!(send(&mut s, "DATA"), vec![line(503, "Bad sequence of commands")]);
    send(&mut s, "MAIL FROM:<a@sender.org>");
    send(&mut s, "RCPT TO:<bob@example.com>");
    assert_eq!(send(&mut s, "DATA"), vec![line(354, "Alright, go on")]);
    assert_eq!(s.state, SmtpState::Sending);
}

#[test]
fn mail_data_is_delivered_to_local_users() {
    let mut s = SmtpTransaction::new_server();
    send(&mut s, "EHLO c.example");
    send(&mut s, "MAIL FROM:<a@sender.org>");
    send(&mut s, "RCPT TO:<bob@example.com>");
    send(&mut s, "RCPT TO:<alice@example.com>");
    send(&mut s, "DATA");
    let outcome = s.handle_command(SmtpCommand::DataEnd(b"Hello".to_vec()), LOCAL);
    match outcome {
        Some(HandlerOutcome::Deliver { users, body, response }) => {
            assert_eq!(users, vec!["bob".to_string(), "alice".to_string()]);
            assert_eq!(body, b"Hello".to_vec());
            assert_eq!(response, line(250, "OK: queued"));
        }
        _ => panic!("expected a delivery"),
    }
    assert_eq!(s.state, SmtpState::Greeted);
    assert!(s.from.is_none() && s.to.is_none());
}

#[test]
fn rset_starts_the_dialogue_over() {
    let mut s = SmtpTransaction::new_server();
    send(&mut s, "EHLO c.example");
    send(&mut s, "MAIL FROM:<a@sender.org>");
    assert_eq!(send(&mut s, "RSET"), vec![line(250, "Okie")]);
    assert_eq!(s.state, SmtpState::Connected);
    assert!(!s.esmtp && !s.tls);
    assert!(s.from.is_none() && s.to.is_none());
}

#[test]
fn noop_vrfy_and_quit() {
    let mut s = SmtpTransaction::new_server();
    assert_eq!(send(&mut s, "NOOP"), vec![line(250, "No operation performed")]);
    assert_eq!(send(&mut s, "VRFY bob"), vec![line(252, "Won't verify for security reasons")]);
    assert!(!s.is_finished());
    assert_eq!(send(&mut s, "QUIT"), vec![line(250, "Goodbye")]);
    assert_eq!(s.state, SmtpState::Finished);
    assert!(s.is_finished());
}

#[test]
fn unknown_command_is_answered_500() {
    let mut s = SmtpTransaction::new_server();
    assert_eq!(send(&mut s, "HELP"), vec![line(500, "Invalid command")]);
}

#[test]
fn starttls_then_successful_handshake() {
    let mut s = SmtpTransaction::new_submission();
    send(&mut s, "EHLO c.example");
    match s.handle_command(SmtpCommand::Starttls, LOCAL) {
        Some(HandlerOutcome::StartTls(r)) => assert_eq!(r, line(220, "TLS started")),
        _ => panic!("expected STARTTLS"),
    }
    s.starttls(true);
    assert!(s.tls);
    assert_eq!(s.state, SmtpState::Connected);
    let r = send(&mut s, "EHLO c.example");
    match &r[0] {
        SmtpResponse::Multiline(250, lines) => assert_eq!(lines[4], "AUTH PLAIN"),
        _ => panic!("expected the EHLO list"),
    }
}

#[test]
fn failed_handshake_changes_nothing() {
    let mut s = SmtpTransaction::new_submission();
    send(&mut s, "EHLO c.example");
    s.starttls(false);
    assert!(!s.tls);
    assert_eq!(s.state, SmtpState::Greeted);
}

fn tls_greeted_submission() -> SmtpTransaction {
    let mut s = SmtpTransaction::new_submission();
    s.starttls(true);
    send(&mut s, "EHLO c.example");
    s
}

#[test]
fn auth_needs_tls() {
    let mut s = SmtpTransaction::new_submission();
    send(&mut s, "EHLO c.example");
    assert_eq!(send(&mut s, "AUTH PLAIN AGJvYgBodWpnbnVq"), vec![line(530, "Must issue a STARTTLS command first")]);
}

fn credentials_asked(outcome: Option<HandlerOutcome>) -> (String, String) {
    match outcome {
        Some(HandlerOutcome::Authenticate { username, password }) => (username, password),
        _ => panic!("expected a credentials check"),
    }
}

#[test]
fn auth_plain_asks_for_the_credentials_to_be_checked() {
    let mut s = tls_greeted_submission();
    // base64 of "\0bob\0hujgnuj"
    let asked = credentials_asked(s.handle_command(SmtpCommand::from("AUTH PLAIN AGJvYgBodWpnbnVq".to_string()), LOCAL));
    assert_eq!(asked, ("bob".to_string(), "hujgnuj".to_string()));
    assert!(!s.authenticated);
    assert_eq!(s.state, SmtpState::Greeted);
}

#[test]
fn accepted_credentials_authenticate_the_session() {
    let mut s = tls_greeted_submission();
    // base64 of "\0alice\0secret"
    let asked = credentials_asked(s.handle_command(SmtpCommand::from("AUTH PLAIN AGFsaWNlAHNlY3JldA==".to_string()), LOCAL));
    assert_eq!(asked, ("alice".to_string(), "secret".to_string()));
    assert_eq!(s.finish_auth(true), line(235, "Authentication succeeded"));
    assert!(s.authenticated);
    assert_eq!(s.state, SmtpState::Greeted);
    assert_eq!(send(&mut s, "MAIL FROM:<alice@example.com>"), vec![line(250, "Sender OK")]);
}

#[test]
fn refused_credentials_change_nothing() {
    let mut s = tls_greeted_submission();
    // base64 of "\0bob\0wrong"
    let asked = credentials_asked(s.handle_command(SmtpCommand::from("AUTH PLAIN AGJvYgB3cm9uZw==".to_string()), LOCAL));
    assert_eq!(asked, ("bob".to_string(), "wrong".to_string()));
    assert_eq!(s.finish_auth(false), line(535, "Authentication credentials invalid"));
    assert!(!s.authenticated);
    assert!(s.tls);
    assert_eq!(s.state, SmtpState::Greeted);
}

#[test]
fn auth_argument_errors() {
    let mut s = tls_greeted_submission();
    assert_eq!(send(&mut s, "AUTH LOGIN"), vec![line(501, "Invalid argument")]);
    assert_eq!(send(&mut s, "AUTH PLAIN !!!"), vec![line(501, "Invalid argument")]);
}

#[test]
fn auth_with_too_few_credentials_ends_the_session() {
    let mut s = tls_greeted_submission();
    // base64 of "\0bob"
    assert!(s.handle_command(SmtpCommand::from("AUTH PLAIN AGJvYg==".to_string()), LOCAL).is_none());
}

#[test]
fn auth_before_greeting_is_ignored() {
    let mut s = SmtpTransaction::new_submission();
    s.starttls(true);
    assert_eq!(send(&mut s, "AUTH PLAIN AGJvYgBodWpnbnVq"), vec![]);
    assert!(!s.authenticated);
}
