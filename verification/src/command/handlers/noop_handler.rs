//! NOOP.
use vstd::prelude::*;
use crate::command::command_handler::{follows_step, respond_line, respond_with, CommandHandler, HandlerOutcome, OutcomeView};
use crate::command::smtp_command::{CommandView, SmtpCommand};
use crate::io::transaction::{SmtpTransaction, TransactionView};

verus! {

/// Answers NOOP.
pub struct NoopHandler;

/// NOOP changes nothing and is answered 250; any other command is answered 551.
pub open spec fn noop_step(t: TransactionView, c: CommandView) -> Option<(TransactionView, OutcomeView)> {
    if c is Noop {
        Some((t, respond_line(250, "No operation performed"@)))
    } else {
        Some((t, respond_line(551, "Unknown error"@)))
    }
}

impl CommandHandler for NoopHandler {
    fn handle(&self, txn: &mut SmtpTransaction, command: SmtpCommand, local_domain: &str) -> (r: Option<HandlerOutcome>)
        ensures
            follows_step(old(txn)@, final(txn)@, r, noop_step(old(txn)@, command@)),
    {
        if let SmtpCommand::Noop = command {
            Some(respond_with(250, "No operation performed"))
        } else {
            Some(respond_with(551, "Unknown error"))
        }
    }
}

} // verus!
