//! The handlers, found by the name of the command they answer.
use vstd::prelude::*;
use crate::command::command_handler::{follows_step, CommandHandler, HandlerOutcome, OutcomeView};
use crate::command::handlers::auth_handler::{auth_step, AuthHandler};
use crate::command::handlers::data_end_handler::{data_end_step, DataEndHandler};
use crate::command::handlers::data_handler::{data_step, DataHandler};
use crate::command::handlers::ehlo_handler::{ehlo_step, EhloHandler};
use crate::command::handlers::helo_handler::{helo_step, HeloHandler};
use crate::command::handlers::mail_handler::{mail_step, MailHandler};
use crate::command::handlers::noop_handler::{noop_step, NoopHandler};
use crate::command::handlers::quit_handler::{quit_step, QuitHandler};
use crate::command::handlers::rcpt_handler::{rcpt_step, RcptHandler};
use crate::command::handlers::rset_handler::{rset_step, RsetHandler};
use crate::command::handlers::starttls_handler::{starttls_step, StarttlsHandler};
use crate::command::handlers::vrfy_handler::{vrfy_step, VrfyHandler};
use crate::command::smtp_command::{CommandView, SmtpCommand};
use crate::io::transaction::{SmtpTransaction, TransactionView};
use crate::text::str_equal;

verus! {

/// The registered handlers.
#[derive(Debug, Clone, Copy, PartialEq, Eq, Structural)]
pub enum HandlerKind {
    Ehlo,
    Helo,
    Data,
    Mail,
    Noop,
    Quit,
    Rcpt,
    Rset,
    Vrfy,
    Auth,
    DataEnd,
    Starttls,
}

/// The handler registered under `name`.
pub open spec fn registered(name: Seq<char>) -> Option<HandlerKind> {
    if name == "ehlo"@ {
        Some(HandlerKind::Ehlo)
    } else if name == "helo"@ {
        Some(HandlerKind::Helo)
    } else if name == "data"@ {
        Some(HandlerKind::Data)
    } else if name == "mail"@ {
        Some(HandlerKind::Mail)
    } else if name == "noop"@ {
        Some(HandlerKind::Noop)
    } else if name == "quit"@ {
        Some(HandlerKind::Quit)
    } else if name == "rcpt"@ {
        Some(HandlerKind::Rcpt)
    } else if name == "rset"@ {
        Some(HandlerKind::Rset)
    } else if name == "vrfy"@ {
        Some(HandlerKind::Vrfy)
    } else if name == "auth"@ {
        Some(HandlerKind::Auth)
    } else if name == "data_end"@ {
        Some(HandlerKind::DataEnd)
    } else if name == "starttls"@ {
        Some(HandlerKind::Starttls)
    } else {
        None
    }
}

/// The step that handler `k` takes.
pub open spec fn handler_step(
    k: HandlerKind,
    t: TransactionView,
    c: CommandView,
    local: Seq<char>,
) -> Option<(TransactionView, OutcomeView)> {
    match k {
        HandlerKind::Ehlo => ehlo_step(t, c),
        HandlerKind::Helo => helo_step(t, c),
        HandlerKind::Data => data_step(t, c),
        HandlerKind::Mail => mail_step(t, c),
        HandlerKind::Noop => noop_step(t, c),
        HandlerKind::Quit => quit_step(t, c),
        HandlerKind::Rcpt => rcpt_step(t, c, local),
        HandlerKind::Rset => rset_step(t, c),
        HandlerKind::Vrfy => vrfy_step(t, c),
        HandlerKind::Auth => auth_step(t, c),
        HandlerKind::DataEnd => data_end_step(t, c, local),
        HandlerKind::Starttls => starttls_step(t, c),
    }
}

/// The handler registered under `name`, if any.
pub fn handler_for(name: &str) -> (r: Option<HandlerKind>)
    ensures
        r == registered(name@),
{
    if str_equal(name, "ehlo") {
        Some(HandlerKind::Ehlo)
    } else if str_equal(name, "helo") {
        Some(HandlerKind::Helo)
    } else if str_equal(name, "data") {
        Some(HandlerKind::Data)
    } else if str_equal(name, "mail") {
        Some(HandlerKind::Mail)
    } else if str_equal(name, "noop") {
        Some(HandlerKind::Noop)
    } else if str_equal(name, "quit") {
        Some(HandlerKind::Quit)
    } else if str_equal(name, "rcpt") {
        Some(HandlerKind::Rcpt)
    } else if str_equal(name, "rset") {
        Some(HandlerKind::Rset)
    } else if str_equal(name, "vrfy") {
        Some(HandlerKind::Vrfy)
    } else if str_equal(name, "auth") {
        Some(HandlerKind::Auth)
    } else if str_equal(name, "data_end") {
        Some(HandlerKind::DataEnd)
    } else if str_equal(name, "starttls") {
        Some(HandlerKind::Starttls)
    } else {
        None
    }
}

impl HandlerKind {
    /// Runs this handler.
    pub fn handle(&self, txn: &mut SmtpTransaction, command: SmtpCommand, local_domain: &str) -> (r: Option<HandlerOutcome>)
        ensures
            follows_step(old(txn)@, final(txn)@, r, handler_step(*self, old(txn)@, command@, local_domain@)),
    {
        match self {
            HandlerKind::Ehlo => EhloHandler.handle(txn, command, local_domain),
            HandlerKind::Helo => HeloHandler.handle(txn, command, local_domain),
            HandlerKind::Data => DataHandler.handle(txn, command, local_domain),
            HandlerKind::Mail => MailHandler.handle(txn, command, local_domain),
            HandlerKind::Noop => NoopHandler.handle(txn, command, local_domain),
            HandlerKind::Quit => QuitHandler.handle(txn, command, local_domain),
            HandlerKind::Rcpt => RcptHandler.handle(txn, command, local_domain),
            HandlerKind::Rset => RsetHandler.handle(txn, command, local_domain),
            HandlerKind::Vrfy => VrfyHandler.handle(txn, command, local_domain),
            HandlerKind::Auth => AuthHandler.handle(txn, command, local_domain),
            HandlerKind::DataEnd => DataEndHandler.handle(txn, command, local_domain),
            HandlerKind::Starttls => StarttlsHandler.handle(txn, command, local_domain),
        }
    }
}

} // verus!
