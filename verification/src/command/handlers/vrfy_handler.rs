//! VRFY.
use vstd::prelude::*;
use crate::command::command_handler::{follows_step, respond_line, respond_nothing, respond_silently, respond_with, CommandHandler, HandlerOutcome, OutcomeView};
use crate::command::smtp_command::{CommandView, SmtpCommand};
use crate::io::transaction::{SmtpTransaction, TransactionView};

verus! {

/// Answers VRFY.
pub struct VrfyHandler;

/// VRFY is answered 252 without verifying anything; any other command gets no answer.
pub open spec fn vrfy_step(t: TransactionView, c: CommandView) -> Option<(TransactionView, OutcomeView)> {
    if c is Vrfy {
        Some((t, respond_line(252, "Won't verify for security reasons"@)))
    } else {
        Some((t, respond_nothing()))
    }
}

impl CommandHandler for VrfyHandler {
    fn handle(&self, txn: &mut SmtpTransaction, command: SmtpCommand, local_domain: &str) -> (r: Option<HandlerOutcome>)
        ensures
            follows_step(old(txn)@, final(txn)@, r, vrfy_step(old(txn)@, command@)),
    {
        if let SmtpCommand::Vrfy(_) = command {
            Some(respond_with(252, "Won't verify for security reasons"))
        } else {
            Some(respond_silently())
        }
    }
}

} // verus!
