//! EHLO.
use vstd::prelude::*;
use vstd::string::*;
use crate::command::command_handler::{follows_step, respond_line, respond_with, responses_view, CommandHandler, HandlerOutcome, OutcomeView};
use crate::command::smtp_command::{CommandView, SmtpCommand};
use crate::io::smtp_response::{ResponseView, SmtpResponse};
use crate::io::smtp_state::SmtpState;
use crate::io::transaction::{strings_view, SmtpTransaction, TransactionView};
use crate::text::{trim, trim_str};

verus! {

/// Answers EHLO.
pub struct EhloHandler;

/// The extensions that the EHLO reply lists: AUTH PLAIN once the stream is encrypted,
/// STARTTLS before.
pub open spec fn ehlo_lines(tls: bool) -> Seq<Seq<char>> {
    seq![
        "Welcome!"@,
        "SIZE 35882577"@,
        "8BITMIME"@,
        "SMTPUTF8"@,
        if tls {
            "AUTH PLAIN"@
        } else {
            "STARTTLS"@
        },
    ]
}

/// EHLO with a domain greets a session that is not yet greeted, switching on extended
/// SMTP, and is answered with the extensions; without a domain it is answered 501;
/// in a greeted session 503; any other command is answered 554.
pub open spec fn ehlo_step(t: TransactionView, c: CommandView) -> Option<(TransactionView, OutcomeView)> {
    match c {
        CommandView::Ehlo(domain) => if trim(domain).len() == 0 {
            Some((t, respond_line(501, "Invalid argument"@)))
        } else if t.state == SmtpState::Connected {
            Some((
                TransactionView { state: SmtpState::Greeted, esmtp: true, ..t },
                OutcomeView::Respond(seq![ResponseView::Multiline(250, ehlo_lines(t.tls))]),
            ))
        } else {
            Some((t, respond_line(503, "Bad sequence of commands"@)))
        },
        _ => Some((t, respond_line(554, "Unknown error"@))),
    }
}

impl CommandHandler for EhloHandler {
    fn handle(&self, txn: &mut SmtpTransaction, command: SmtpCommand, local_domain: &str) -> (r: Option<HandlerOutcome>)
        ensures
            follows_step(old(txn)@, final(txn)@, r, ehlo_step(old(txn)@, command@)),
    {
        if let SmtpCommand::Ehlo(domain) = command {
            if trim_str(domain.as_str()).is_empty() {
                return Some(respond_with(501, "Invalid argument"));
            }
            match txn.state {
                SmtpState::Connected => {
                    txn.state = SmtpState::Greeted;
                    txn.esmtp = true;
                    let mut response: Vec<String> = Vec::with_capacity(7);
                    response.push(String::from_str("Welcome!"));
                    response.push(String::from_str("SIZE 35882577"));
                    response.push(String::from_str("8BITMIME"));
                    response.push(String::from_str("SMTPUTF8"));
                    if txn.tls {
                        response.push(String::from_str("AUTH PLAIN"));
                    } else {
                        response.push(String::from_str("STARTTLS"));
                    }
                    assert(strings_view(response@) =~= ehlo_lines(txn.tls));
                    let mut replies: Vec<SmtpResponse> = Vec::new();
                    replies.push(SmtpResponse::Multiline(250, response));
                    assert(responses_view(replies@) =~= seq![ResponseView::Multiline(250, ehlo_lines(old(txn).tls))]);
                    Some(HandlerOutcome::Respond(replies))
                },
                _ => Some(respond_with(503, "Bad sequence of commands")),
            }
        } else {
            Some(respond_with(554, "Unknown error"))
        }
    }
}

} // verus!
