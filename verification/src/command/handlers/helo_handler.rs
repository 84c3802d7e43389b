//! HELO.
use vstd::prelude::*;
use crate::command::command_handler::{follows_step, line, reply, respond_line, responses_view, CommandHandler, HandlerOutcome, OutcomeView};
use crate::command::smtp_command::{CommandView, SmtpCommand};
use crate::io::smtp_response::{ResponseView, SmtpResponse};
use crate::io::smtp_state::SmtpState;
use crate::io::transaction::{SmtpTransaction, TransactionView};
use crate::text::{trim, trim_str};

verus! {

/// Answers HELO.
pub struct HeloHandler;

/// HELO greets a session that is not yet greeted (plain SMTP) and is answered 250, or is
/// out of sequence (503). A missing domain is answered 501 first, and the command still
/// goes on. Any other command is answered 554.
pub open spec fn helo_step(t: TransactionView, c: CommandView) -> Option<(TransactionView, OutcomeView)> {
    match c {
        CommandView::Helo(domain) => {
            let first: Seq<ResponseView> = if trim(domain).len() == 0 {
                seq![line(501, "Invalid argument"@)]
            } else {
                Seq::empty()
            };
            if t.state == SmtpState::Connected {
                Some((
                    TransactionView { state: SmtpState::Greeted, esmtp: false, ..t },
                    OutcomeView::Respond(first.push(line(250, "Hello!"@))),
                ))
            } else {
                Some((t, OutcomeView::Respond(first.push(line(503, "Bad sequence of commands"@)))))
            }
        },
        _ => Some((t, respond_line(554, "Unknown error"@))),
    }
}

impl CommandHandler for HeloHandler {
    fn handle(&self, txn: &mut SmtpTransaction, command: SmtpCommand, local_domain: &str) -> (r: Option<HandlerOutcome>)
        ensures
            follows_step(old(txn)@, final(txn)@, r, helo_step(old(txn)@, command@)),
    {
        if let SmtpCommand::Helo(domain) = command {
            let mut replies: Vec<SmtpResponse> = Vec::new();
            if trim_str(domain.as_str()).is_empty() {
                replies.push(reply(501, "Invalid argument"));
            }
            let ghost first = responses_view(replies@);
            assert(first =~= if trim(domain@).len() == 0 {
                seq![line(501, "Invalid argument"@)]
            } else {
                Seq::<ResponseView>::empty()
            });
            match txn.state {
                SmtpState::Connected => {
                    txn.state = SmtpState::Greeted;
                    txn.esmtp = false;
                    replies.push(reply(250, "Hello!"));
                },
                _ => {
                    replies.push(reply(503, "Bad sequence of commands"));
                },
            }
            assert(responses_view(replies@) =~= first.push(replies@.last()@));
            Some(HandlerOutcome::Respond(replies))
        } else {
            Some(crate::command::command_handler::respond_with(554, "Unknown error"))
        }
    }
}

} // verus!
