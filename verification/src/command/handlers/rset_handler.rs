//! RSET.
use vstd::prelude::*;
use crate::command::command_handler::{follows_step, respond_line, respond_with, CommandHandler, HandlerOutcome, OutcomeView};
use crate::command::smtp_command::{CommandView, SmtpCommand};
use crate::io::smtp_state::SmtpState;
use crate::io::transaction::{SmtpTransaction, TransactionView};

verus! {

/// Answers RSET.
pub struct RsetHandler;

/// RSET returns the session to its start (not greeted, no EHLO, no TLS flag, no sender
/// or recipients) and is answered 250; any other command is answered 554.
pub open spec fn rset_step(t: TransactionView, c: CommandView) -> Option<(TransactionView, OutcomeView)> {
    if c is Rset {
        Some((
            TransactionView {
                state: SmtpState::Connected,
                esmtp: false,
                tls: false,
                from: None,
                to: None,
                ..t
            },
            respond_line(250, "Okie"@),
        ))
    } else {
        Some((t, respond_line(554, "Unknown error"@)))
    }
}

impl CommandHandler for RsetHandler {
    fn handle(&self, txn: &mut SmtpTransaction, command: SmtpCommand, local_domain: &str) -> (r: Option<HandlerOutcome>)
        ensures
            follows_step(old(txn)@, final(txn)@, r, rset_step(old(txn)@, command@)),
    {
        if let SmtpCommand::Rset = command {
            txn.state = SmtpState::Connected;
            txn.esmtp = false;
            txn.tls = false;
            txn.from = None;
            txn.to = None;
            Some(respond_with(250, "Okie"))
        } else {
            Some(respond_with(554, "Unknown error"))
        }
    }
}

} // verus!
