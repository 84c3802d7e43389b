//! STARTTLS.
use vstd::prelude::*;
use crate::command::command_handler::{follows_step, line, reply, respond_line, respond_with, CommandHandler, HandlerOutcome, OutcomeView};
use crate::command::smtp_command::{CommandView, SmtpCommand};
use crate::io::transaction::{SmtpTransaction, TransactionView};

verus! {

/// Answers STARTTLS.
pub struct StarttlsHandler;

/// STARTTLS is answered 220, after which the stream is upgraded to TLS; any other command
/// is answered 551.
pub open spec fn starttls_step(t: TransactionView, c: CommandView) -> Option<(TransactionView, OutcomeView)> {
    if c is Starttls {
        Some((t, OutcomeView::StartTls(line(220, "TLS started"@))))
    } else {
        Some((t, respond_line(551, "Unknown error"@)))
    }
}

impl CommandHandler for StarttlsHandler {
    fn handle(&self, txn: &mut SmtpTransaction, command: SmtpCommand, local_domain: &str) -> (r: Option<HandlerOutcome>)
        ensures
            follows_step(old(txn)@, final(txn)@, r, starttls_step(old(txn)@, command@)),
    {
        if let SmtpCommand::Starttls = command {
            Some(HandlerOutcome::StartTls(reply(220, "TLS started")))
        } else {
            Some(respond_with(551, "Unknown error"))
        }
    }
}

} // verus!
