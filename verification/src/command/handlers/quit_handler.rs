//! QUIT.
use vstd::prelude::*;
use crate::command::command_handler::{follows_step, respond_line, respond_with, CommandHandler, HandlerOutcome, OutcomeView};
use crate::command::smtp_command::{CommandView, SmtpCommand};
use crate::io::smtp_state::SmtpState;
use crate::io::transaction::{SmtpTransaction, TransactionView};

verus! {

/// Answers QUIT.
pub struct QuitHandler;

/// QUIT finishes the session and is answered 250; any other command is answered 554.
pub open spec fn quit_step(t: TransactionView, c: CommandView) -> Option<(TransactionView, OutcomeView)> {
    if c is Quit {
        Some((TransactionView { state: SmtpState::Finished, ..t }, respond_line(250, "Goodbye"@)))
    } else {
        Some((t, respond_line(554, "Unknown error"@)))
    }
}

impl CommandHandler for QuitHandler {
    fn handle(&self, txn: &mut SmtpTransaction, command: SmtpCommand, local_domain: &str) -> (r: Option<HandlerOutcome>)
        ensures
            follows_step(old(txn)@, final(txn)@, r, quit_step(old(txn)@, command@)),
    {
        if let SmtpCommand::Quit = command {
            txn.state = SmtpState::Finished;
            Some(respond_with(250, "Goodbye"))
        } else {
            Some(respond_with(554, "Unknown error"))
        }
    }
}

} // verus!
