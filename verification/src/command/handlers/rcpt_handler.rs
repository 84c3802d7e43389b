//! RCPT TO.
use vstd::prelude::*;
use crate::command::command_handler::{follows_step, respond_line, respond_with, CommandHandler, HandlerOutcome, OutcomeView};
use crate::command::handlers::address::{is_valid_address, parse_path_argument, path_argument, valid_address, PathArgument, PathView};
use crate::command::smtp_command::{CommandView, SmtpCommand};
use crate::io::smtp_state::SmtpState;
use crate::io::transaction::{strings_view, SmtpTransaction, TransactionView};
use vstd::string::*;
use crate::text::{byte_suffix, char_position, index_of, lemma_index_of_from_bounds, str_equal, str_get_from, trim, trim_str};

verus! {

/// Answers RCPT.
pub struct RcptHandler;

/// The domain of a recipient address: what follows its first `@`, trimmed. The offset
/// of the `@` is counted in characters and then used as a byte offset; `None` where that
/// byte offset falls inside a character, or where there is no `@`.
pub open spec fn recipient_domain(address: Seq<char>) -> Option<Seq<char>> {
    match index_of(address, '@') {
        None => None,
        Some(i) => match byte_suffix(address, i + 1) {
            None => None,
            Some(d) => Some(trim(d)),
        },
    }
}

/// RCPT TO:<address> adds a recipient to an open mail transaction and is answered 250.
/// On a relay (SERVER) session a recipient whose domain is not `local` is refused with
/// 550 (the session still moves to the addressing state). The argument is refused with
/// 501 as for MAIL; outside a mail transaction the command is answered 503. Any other
/// command is answered 500. `None` where the argument or the address cannot be sliced at
/// the offsets used, or no recipient list is open.
pub open spec fn rcpt_step(t: TransactionView, c: CommandView, local: Seq<char>) -> Option<(TransactionView, OutcomeView)> {
    match c {
        CommandView::Rcpt(arg) => match path_argument(arg, "TO:"@, 3) {
            PathView::MissingKeyword => Some(
                (t, respond_line(501, "Syntax error in parameters or arguments"@)),
            ),
            PathView::Unsliceable => None,
            PathView::Unbracketed => Some((t, respond_line(501, "Parameter syntax error"@))),
            PathView::Address(address) => if !valid_address(address) {
                Some((t, respond_line(501, "Invalid email format"@)))
            } else if t.state == SmtpState::Mailing || t.state == SmtpState::Addressing {
                match recipient_domain(address) {
                    None => None,
                    Some(domain) => if t.kind is Server && domain != local {
                        Some((
                            TransactionView { state: SmtpState::Addressing, ..t },
                            respond_line(550, "Cannot relay"@),
                        ))
                    } else {
                        match t.to {
                            None => None,
                            Some(list) => Some((
                                TransactionView {
                                    state: SmtpState::Addressing,
                                    to: Some(list.push(address)),
                                    ..t
                                },
                                respond_line(250, "Sender OK"@),
                            )),
                        }
                    },
                }
            } else {
                Some((t, respond_line(503, "Bad sequence of commands"@)))
            },
        },
        _ => Some((t, respond_line(500, "Unknown error"@))),
    }
}

/// The domain of a recipient address (see `recipient_domain`).
pub fn address_domain(address: &str) -> (r: Option<&str>)
    ensures
        r matches Some(d) ==> recipient_domain(address@) == Some(d@),
        r is None ==> recipient_domain(address@) is None,
{
    let at = match char_position(address, '@') {
        Some(at) => at,
        None => {
            return None;
        },
    };
    proof {
        lemma_index_of_from_bounds(address@, '@', 0);
    }
    let _chars = address.unicode_len();
    match str_get_from(address, at + 1) {
        Some(d) => Some(trim_str(d)),
        None => None,
    }
}

impl CommandHandler for RcptHandler {
    fn handle(&self, txn: &mut SmtpTransaction, command: SmtpCommand, local_domain: &str) -> (r: Option<HandlerOutcome>)
        ensures
            follows_step(old(txn)@, final(txn)@, r, rcpt_step(old(txn)@, command@, local_domain@)),
    {
        if let SmtpCommand::Rcpt(arg) = command {
            match parse_path_argument(arg.as_str(), "TO:", 3) {
                PathArgument::MissingKeyword => Some(respond_with(501, "Syntax error in parameters or arguments")),
                PathArgument::Unsliceable => None,
                PathArgument::Unbracketed => Some(respond_with(501, "Parameter syntax error")),
                PathArgument::Address(address) => {
                    if !is_valid_address(address.as_str()) {
                        return Some(respond_with(501, "Invalid email format"));
                    }
                    match txn.state {
                        SmtpState::Mailing | SmtpState::Addressing => {
                            let domain = match address_domain(address.as_str()) {
                                Some(d) => d,
                                None => {
                                    return None;
                                },
                            };
                            let is_server = match txn.transaction_type {
                                crate::io::transaction_type::TransactionType::SERVER => true,
                                _ => false,
                            };
                            if is_server && !str_equal(domain, local_domain) {
                                txn.state = SmtpState::Addressing;
                                return Some(respond_with(550, "Cannot relay"));
                            }
                            let mut current: Option<Vec<String>> = None;
                            std::mem::swap(&mut current, &mut txn.to);
                            match current {
                                Some(mut list) => {
                                    let ghost before = strings_view(list@);
                                    list.push(address);
                                    assert(strings_view(list@) =~= before.push(list@.last()@));
                                    txn.to = Some(list);
                                    txn.state = SmtpState::Addressing;
                                    Some(respond_with(250, "Sender OK"))
                                },
                                None => None,
                            }
                        },
                        _ => Some(respond_with(503, "Bad sequence of commands")),
                    }
                },
            }
        } else {
            Some(respond_with(500, "Unknown error"))
        }
    }
}

} // verus!
