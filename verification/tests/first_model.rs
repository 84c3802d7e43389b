use patine::commands::command::Command;
use patine::commands::ehlo::Ehlo;
use patine::commands::smtp_command::SmtpCommand;
use patine::io::smtp_response::SmtpResponse;
use patine::io::smtp_state::SmtpState;
use patine::request::{greeting, handle_request};
use patine::server::transaction::{SessionStep, SmtpTransaction};

fn line(code: u16, text: &str) -> SmtpResponse {
    SmtpResponse::SingleLine(code, text.to_string())
}

#[test]
fn ehlo_text_without_extensions() {
    let mut e = Ehlo { greeting: "mx.example".to_string(), lines: vec![] };
    assert_eq!(e.execute(), Ok("250 mx.example".to_string()));
}

#[test]
fn ehlo_text_with_extensions() {
    let mut e = Ehlo {
        greeting: "mx.example".to_string(),
        lines: vec!["8BITMIME".to_string(), "SIZE 100".to_string(), "SMTPUTF8".to_string()],
    };
    assert_eq!(
        e.execute(),
        Ok("250-mx.example\r\n250-8BITMIME\r\n250-SIZE 100\r\n250 SMTPUTF8".to_string())
    );
    assert_eq!(e.greeting, "mx.example");
    assert_eq!(e.lines.len(), 3);
}

#[test]
fn ehlo_text_with_one_extension() {
    let mut e = Ehlo { greeting: "g".to_string(), lines: vec!["X".to_string()] };
    assert_eq!(e.execute(), Ok("250-g\r\n250 X".to_string()));
}

#[test]
fn request_loop_greeting() {
    assert_eq!(greeting(), line(220, "Prototype Patine build"));
}

#[test]
fn request_loop_answers() {
    assert_eq!(
        handle_request(&SmtpCommand::Ehlo("x".to_string())),
        (SmtpResponse::Multiline(250, vec!["Welcome!".to_string(), "SMTPUTF8".to_string()]), true)
    );
    assert_eq!(handle_request(&SmtpCommand::Quit), (line(221, "OK"), false));
    assert_eq!(handle_request(&SmtpCommand::Unknown), (line(500, "Unknown command"), true));
    assert_eq!(handle_request(&SmtpCommand::Rset), (line(502, "Command not implemented"), true));
    assert_eq!(handle_request(&SmtpCommand::Helo("x".to_string())), (line(502, "Command not implemented"), true));
}

fn reply_of(step: SessionStep) -> SmtpResponse {
    match step {
        SessionStep::Reply(r) => r,
        _ => panic!("expected a reply"),
    }
}

#[test]
fn first_session_greets() {
    assert_eq!(SmtpTransaction::welcome(), line(220, "Welcome! Patine build 0.1-dev"));
    let mut t = SmtpTransaction::new();
    assert_eq!(t.state, SmtpState::Connected);
    assert_eq!(reply_of(t.handle_connection(SmtpCommand::Ehlo("Hellow!".to_string()))), line(250, "Welcome!"));
    assert_eq!(t.state, SmtpState::Greeted);
    assert!(t.esmtp);
    assert!(matches!(t.handle_connection(SmtpCommand::Noop), SessionStep::Ignore));
}

#[test]
fn first_session_commands_before_greeting() {
    let mut t = SmtpTransaction::new();
    assert_eq!(reply_of(t.handle_connection(SmtpCommand::Noop)), line(250, "NOOP"));
    assert_eq!(reply_of(t.handle_connection(SmtpCommand::Vrfy(String::new()))), line(250, "NOOP"));
    assert_eq!(reply_of(t.handle_connection(SmtpCommand::Unknown)), line(500, "Unknown command"));
    assert_eq!(reply_of(t.handle_connection(SmtpCommand::MailFrom("x".to_string()))), line(503, "Bad sequence"));
    assert_eq!(reply_of(t.handle_connection(SmtpCommand::Quit)), line(250, "Goodbye!"));
    assert_eq!(t.state, SmtpState::Connected);
}

#[test]
fn first_session_rset_clears() {
    let mut t = SmtpTransaction::new();
    t.esmtp = true;
    t.from = Some("a".to_string());
    t.to = Some(vec!["b".to_string()]);
    assert_eq!(t.handle_connected_state(SmtpCommand::Rset), line(250, "OK"));
    assert!(!t.esmtp && t.from.is_none() && t.to.is_none());
    assert_eq!(reply_of(t.handle_connection(SmtpCommand::Helo("h".to_string()))), line(250, "Welcome!"));
    assert!(!t.esmtp);
}

#[test]
fn finished_session_closes() {
    let mut t = SmtpTransaction::new();
    t.state = SmtpState::Finished;
    assert!(matches!(t.handle_connection(SmtpCommand::Noop), SessionStep::Close));
}
