//! DATA.
use vstd::prelude::*;
use crate::command::command_handler::{follows_step, respond_line, respond_with, CommandHandler, HandlerOutcome, OutcomeView};
use crate::command::smtp_command::{CommandView, SmtpCommand};
use crate::io::smtp_state::SmtpState;
use crate::io::transaction::{SmtpTransaction, TransactionView};

verus! {

/// Answers DATA.
pub struct DataHandler;

/// DATA after at least one recipient starts the mail data (354); anywhere else it is
/// out of sequence (503); any other command is answered 551.
pub open spec fn data_step(t: TransactionView, c: CommandView) -> Option<(TransactionView, OutcomeView)> {
    if c is Data {
        if t.state == SmtpState::Addressing {
            Some((TransactionView { state: SmtpState::Sending, ..t }, respond_line(354, "Alright, go on"@)))
        } else {
            Some((t, respond_line(503, "Bad sequence of commands"@)))
        }
    } else {
        Some((t, respond_line(551, "Unknown error"@)))
    }
}

impl CommandHandler for DataHandler {
    fn handle(&self, txn: &mut SmtpTransaction, command: SmtpCommand, local_domain: &str) -> (r: Option<HandlerOutcome>)
        ensures
            follows_step(old(txn)@, final(txn)@, r, data_step(old(txn)@, command@)),
    {
        if let SmtpCommand::Data = command {
            match txn.state {
                SmtpState::Addressing => {
                    txn.state = SmtpState::Sending;
                    Some(respond_with(354, "Alright, go on"))
                },
                _ => Some(respond_with(503, "Bad sequence of commands")),
            }
        } else {
            Some(respond_with(551, "Unknown error"))
        }
    }
}

} // verus!
