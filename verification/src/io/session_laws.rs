//! Properties that every step of a session keeps.
use vstd::prelude::*;
use crate::command::command_handler::{respond_line, OutcomeView};
use crate::command::handlers::auth_handler::auth_step;
use crate::command::handlers::data_end_handler::data_end_step;
use crate::command::handlers::data_handler::data_step;
use crate::command::handlers::ehlo_handler::ehlo_step;
use crate::command::handlers::helo_handler::helo_step;
use crate::command::handlers::mail_handler::mail_step;
use crate::command::handlers::noop_handler::noop_step;
use crate::command::handlers::quit_handler::quit_step;
use crate::command::handlers::rcpt_handler::{rcpt_step, recipient_domain};
use crate::command::handlers::registry::{registered, HandlerKind};
use crate::command::handlers::rset_handler::rset_step;
use crate::command::handlers::starttls_handler::starttls_step;
use crate::command::handlers::vrfy_handler::vrfy_step;
use crate::command::smtp_command::CommandView;
use crate::io::smtp_state::SmtpState;
use crate::io::transaction::{after_tls, dispatch_step, TransactionView};

verus! {

/// The step that each kind of command takes.
pub open spec fn route_step(t: TransactionView, c: CommandView, local: Seq<char>) -> Option<(TransactionView, OutcomeView)> {
    match c {
        CommandView::Helo(_) => helo_step(t, c),
        CommandView::Ehlo(_) => ehlo_step(t, c),
        CommandView::Mail(_) => mail_step(t, c),
        CommandView::Rcpt(_) => rcpt_step(t, c, local),
        CommandView::Data => data_step(t, c),
        CommandView::Rset => rset_step(t, c),
        CommandView::Noop => noop_step(t, c),
        CommandView::Quit => quit_step(t, c),
        CommandView::Vrfy(_) => vrfy_step(t, c),
        CommandView::Starttls => starttls_step(t, c),
        CommandView::Auth(_) => auth_step(t, c),
        CommandView::DataEnd(_) => data_end_step(t, c, local),
        CommandView::Unknown => Some((t, respond_line(500, "Invalid command"@))),
    }
}

/// Routing: every command reaches the handler of its own kind, and an unknown command
/// is answered 500.
pub proof fn law_dispatch_routes(t: TransactionView, c: CommandView, local: Seq<char>)
    ensures
        dispatch_step(t, c, local) == route_step(t, c, local),
{
    reveal_strlit("ehlo");
    reveal_strlit("helo");
    reveal_strlit("data");
    reveal_strlit("mail");
    reveal_strlit("noop");
    reveal_strlit("quit");
    reveal_strlit("rcpt");
    reveal_strlit("rset");
    reveal_strlit("vrfy");
    reveal_strlit("auth");
    reveal_strlit("data_end");
    reveal_strlit("starttls");
    assert("ehlo"@[0] == 'e' && "helo"@[0] == 'h' && "data"@[0] == 'd' && "mail"@[0] == 'm');
    assert("noop"@[0] == 'n' && "quit"@[0] == 'q' && "rcpt"@[0] == 'r' && "rset"@[0] == 'r');
    assert("vrfy"@[0] == 'v' && "auth"@[0] == 'a' && "data_end"@[0] == 'd' && "starttls"@[0] == 's');
    assert("rcpt"@[1] == 'c' && "rset"@[1] == 's');
    assert("data"@.len() == 4 && "data_end"@.len() == 8);
    match c {
        CommandView::Helo(_) => {
            assert(registered("helo"@) == Some(HandlerKind::Helo));
        },
        CommandView::Ehlo(_) => {
            assert(registered("ehlo"@) == Some(HandlerKind::Ehlo));
        },
        CommandView::Mail(_) => {
            assert(registered("mail"@) == Some(HandlerKind::Mail));
        },
        CommandView::Rcpt(_) => {
            assert(registered("rcpt"@) == Some(HandlerKind::Rcpt));
        },
        CommandView::Data => {
            assert(registered("data"@) == Some(HandlerKind::Data));
        },
        CommandView::Rset => {
            assert(registered("rset"@) == Some(HandlerKind::Rset));
        },
        CommandView::Noop => {
            assert(registered("noop"@) == Some(HandlerKind::Noop));
        },
        CommandView::Quit => {
            assert(registered("quit"@) == Some(HandlerKind::Quit));
        },
        CommandView::Vrfy(_) => {
            assert(registered("vrfy"@) == Some(HandlerKind::Vrfy));
        },
        CommandView::Starttls => {
            assert(registered("starttls"@) == Some(HandlerKind::Starttls));
        },
        CommandView::Auth(_) => {
            assert(registered("auth"@) == Some(HandlerKind::Auth));
        },
        CommandView::DataEnd(_) => {
            assert(registered("data_end"@) == Some(HandlerKind::DataEnd));
        },
        CommandView::Unknown => {},
    }
}

/// A mail transaction in progress always has its sender and its recipient list.
pub open spec fn session_wf(t: TransactionView) -> bool {
    (t.state == SmtpState::Mailing || t.state == SmtpState::Addressing || t.state
        == SmtpState::Sending) ==> (t.from is Some && t.to is Some)
}

/// On a relay session, every recipient accepted belongs to the local domain.
pub open spec fn relay_recipients_local(t: TransactionView, local: Seq<char>) -> bool {
    t.kind is Server ==> (t.to matches Some(list) ==> forall|i: int|
        0 <= i < list.len() ==> recipient_domain(#[trigger] list[i]) == Some(local))
}

/// Every command keeps a session well formed: while a mail transaction is open it has a
/// sender and a recipient list.
pub proof fn law_dispatch_keeps_wf(t: TransactionView, c: CommandView, local: Seq<char>)
    requires
        session_wf(t),
    ensures
        dispatch_step(t, c, local) matches Some((t2, _)) ==> session_wf(t2),
{
    law_dispatch_routes(t, c, local);
}

/// A completed TLS handshake keeps a session well formed and its recipients local.
pub proof fn law_tls_keeps_invariants(t: TransactionView, local: Seq<char>)
    ensures
        session_wf(after_tls(t)),
        relay_recipients_local(after_tls(t), local),
        after_tls(t).kind == t.kind,
        after_tls(t).authenticated == t.authenticated,
{
}

/// No relaying: on a relay session, the recipient list only ever holds addresses of the
/// local domain.
pub proof fn law_relay_only_local(t: TransactionView, c: CommandView, local: Seq<char>)
    requires
        relay_recipients_local(t, local),
    ensures
        dispatch_step(t, c, local) matches Some((t2, _)) ==> relay_recipients_local(t2, local),
{
    law_dispatch_routes(t, c, local);
    if let CommandView::Rcpt(_) = c {
        if let Some((t2, _)) = rcpt_step(t, c, local) {
            if t.kind is Server {
                if let Some(list2) = t2.to {
                    assert forall|i: int| 0 <= i < list2.len() implies recipient_domain(
                        #[trigger] list2[i],
                    ) == Some(local) by {
                        if let Some(list) = t.to {
                            if i < list.len() && list2.len() == list.len() + 1 {
                                assert(list2[i] == list[i]);
                            }
                        }
                    }
                }
            }
        }
    }
}

/// Authentication: no command changes whether a session is authenticated (only
/// `SmtpTransaction::finish_auth` does, with the result of a credentials check), and a
/// command asks for credentials to be checked only on an encrypted, greeted session,
/// which it leaves unchanged.
pub proof fn law_authentication_needs_tls(t: TransactionView, c: CommandView, local: Seq<char>)
    ensures
        dispatch_step(t, c, local) matches Some((t2, _)) ==> t2.authenticated == t.authenticated,
        dispatch_step(t, c, local) matches Some((t2, OutcomeView::Authenticate { .. })) ==> (t.tls
            && t.state == SmtpState::Greeted && t2 == t),
{
    law_dispatch_routes(t, c, local);
}

/// A mail transaction opens only on an authenticated session.
pub proof fn law_mail_needs_authentication(t: TransactionView, c: CommandView, local: Seq<char>)
    ensures
        dispatch_step(t, c, local) matches Some((t2, _)) ==> (t2.state == SmtpState::Mailing
            && t.state != SmtpState::Mailing ==> t.authenticated),
{
    law_dispatch_routes(t, c, local);
}

/// A session keeps its role: no command changes whether it relays, takes submissions or
/// delivers.
pub proof fn law_dispatch_keeps_role(t: TransactionView, c: CommandView, local: Seq<char>)
    ensures
        dispatch_step(t, c, local) matches Some((t2, _)) ==> t2.kind == t.kind,
{
    law_dispatch_routes(t, c, local);
}

} // verus!
