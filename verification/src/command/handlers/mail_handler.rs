//! MAIL FROM.
use vstd::prelude::*;
use crate::command::command_handler::{follows_step, respond_line, respond_with, CommandHandler, HandlerOutcome, OutcomeView};
use crate::command::handlers::address::{is_valid_address, parse_path_argument, path_argument, valid_address, PathArgument, PathView};
use crate::command::smtp_command::{CommandView, SmtpCommand};
use crate::io::smtp_state::SmtpState;
use crate::io::transaction::{strings_view, SmtpTransaction, TransactionView};

verus! {

/// Answers MAIL.
pub struct MailHandler;

/// MAIL FROM:<address> opens a mail transaction in a greeted session: the sender is
/// recorded, the recipient list emptied, and 250 sent. It is refused with 501 when the
/// argument lacks `FROM:`, brackets, or a well-formed address; with 530 when the session
/// is not authenticated; with 503 outside the greeted state. Any other command is
/// answered 500. `None` where byte five of the argument falls inside a character.
pub open spec fn mail_step(t: TransactionView, c: CommandView) -> Option<(TransactionView, OutcomeView)> {
    match c {
        CommandView::Mail(arg) => match path_argument(arg, "FROM:"@, 5) {
            PathView::MissingKeyword => Some(
                (t, respond_line(501, "Syntax error in parameters or arguments"@)),
            ),
            PathView::Unsliceable => None,
            PathView::Unbracketed => Some((t, respond_line(501, "Parameter syntax error"@))),
            PathView::Address(address) => if !valid_address(address) {
                Some((t, respond_line(501, "Invalid email format"@)))
            } else if t.state == SmtpState::Greeted {
                if !t.authenticated {
                    Some((t, respond_line(530, "Authentication Required."@)))
                } else {
                    Some((
                        TransactionView {
                            state: SmtpState::Mailing,
                            to: Some(Seq::empty()),
                            from: Some(address),
                            ..t
                        },
                        respond_line(250, "Sender OK"@),
                    ))
                }
            } else {
                Some((t, respond_line(503, "Bad sequence of commands"@)))
            },
        },
        _ => Some((t, respond_line(500, "Unknown error"@))),
    }
}

impl CommandHandler for MailHandler {
    fn handle(&self, txn: &mut SmtpTransaction, command: SmtpCommand, local_domain: &str) -> (r: Option<HandlerOutcome>)
        ensures
            follows_step(old(txn)@, final(txn)@, r, mail_step(old(txn)@, command@)),
    {
        if let SmtpCommand::Mail(arg) = command {
            match parse_path_argument(arg.as_str(), "FROM:", 5) {
                PathArgument::MissingKeyword => Some(respond_with(501, "Syntax error in parameters or arguments")),
                PathArgument::Unsliceable => None,
                PathArgument::Unbracketed => Some(respond_with(501, "Parameter syntax error")),
                PathArgument::Address(address) => {
                    if !is_valid_address(address.as_str()) {
                        return Some(respond_with(501, "Invalid email format"));
                    }
                    match txn.state {
                        SmtpState::Greeted => {
                            if !txn.authenticated {
                                return Some(respond_with(530, "Authentication Required."));
                            }
                            txn.state = SmtpState::Mailing;
                            let recipients: Vec<String> = Vec::with_capacity(1);
                            assert(strings_view(recipients@) =~= Seq::<Seq<char>>::empty());
                            txn.to = Some(recipients);
                            txn.from = Some(address);
                            Some(respond_with(250, "Sender OK"))
                        },
                        _ => Some(respond_with(503, "Bad sequence of commands")),
                    }
                },
            }
        } else {
            Some(respond_with(500, "Unknown error"))
        }
    }
}

} // verus!
