//! What each command does to a session, stated by its observable result.
use vstd::prelude::*;
use crate::command::command_handler::{line, OutcomeView};
use crate::command::handlers::address::{path_argument, valid_address, PathView};
use crate::command::handlers::data_end_handler::local_users;
use crate::command::handlers::rcpt_handler::recipient_domain;
use crate::command::smtp_command::CommandView;
use crate::io::session_laws::law_dispatch_routes;
use crate::io::smtp_response::ResponseView;
use crate::io::smtp_state::SmtpState;
use crate::io::transaction::{dispatch_step, TransactionView};
use crate::text::{split_once, trim};

verus! {

/// EHLO: a non-empty domain greets a session that is not yet greeted, turns on ESMTP,
/// and lists the extensions, the last being `AUTH PLAIN` on an encrypted stream and
/// `STARTTLS` on a plain one, whatever the session's role. An empty domain is refused
/// with 501, and a second greeting with 503; neither changes the session.
pub proof fn law_ehlo_lists_extensions(t: TransactionView, d: Seq<char>, local: Seq<char>)
    ensures
        trim(d).len() > 0 && t.state == SmtpState::Connected ==> dispatch_step(
            t,
            CommandView::Ehlo(d),
            local,
        ) == Some((
            TransactionView { state: SmtpState::Greeted, esmtp: true, ..t },
            OutcomeView::Respond(seq![ResponseView::Multiline(
                250,
                seq![
                    "Welcome!"@,
                    "SIZE 35882577"@,
                    "8BITMIME"@,
                    "SMTPUTF8"@,
                    if t.tls { "AUTH PLAIN"@ } else { "STARTTLS"@ },
                ],
            )]),
        )),
        trim(d).len() == 0 ==> dispatch_step(t, CommandView::Ehlo(d), local) == Some(
            (t, OutcomeView::Respond(seq![line(501, "Invalid argument"@)])),
        ),
        trim(d).len() > 0 && t.state != SmtpState::Connected ==> dispatch_step(
            t,
            CommandView::Ehlo(d),
            local,
        ) == Some((t, OutcomeView::Respond(seq![line(503, "Bad sequence of commands"@)]))),
{
    law_dispatch_routes(t, CommandView::Ehlo(d), local);
}

/// HELO: a non-empty domain is never refused; a session not yet greeted is greeted in
/// plain SMTP with the single reply 250, and a greeted one gets only 503. An empty domain
/// is answered 501 first, followed by the same reply.
pub proof fn law_helo_greets(t: TransactionView, d: Seq<char>, local: Seq<char>)
    ensures
        trim(d).len() > 0 && t.state == SmtpState::Connected ==> dispatch_step(
            t,
            CommandView::Helo(d),
            local,
        ) == Some((
            TransactionView { state: SmtpState::Greeted, esmtp: false, ..t },
            OutcomeView::Respond(seq![line(250, "Hello!"@)]),
        )),
        trim(d).len() > 0 && t.state != SmtpState::Connected ==> dispatch_step(
            t,
            CommandView::Helo(d),
            local,
        ) == Some((t, OutcomeView::Respond(seq![line(503, "Bad sequence of commands"@)]))),
        trim(d).len() == 0 && t.state == SmtpState::Connected ==> dispatch_step(
            t,
            CommandView::Helo(d),
            local,
        ) == Some((
            TransactionView { state: SmtpState::Greeted, esmtp: false, ..t },
            OutcomeView::Respond(seq![line(501, "Invalid argument"@), line(250, "Hello!"@)]),
        )),
        trim(d).len() == 0 && t.state != SmtpState::Connected ==> dispatch_step(
            t,
            CommandView::Helo(d),
            local,
        ) == Some((
            t,
            OutcomeView::Respond(
                seq![line(501, "Invalid argument"@), line(503, "Bad sequence of commands"@)],
            ),
        )),
{
    law_dispatch_routes(t, CommandView::Helo(d), local);
    let first: Seq<ResponseView> = if trim(d).len() == 0 {
        seq![line(501, "Invalid argument"@)]
    } else {
        Seq::empty()
    };
    assert(first.push(line(250, "Hello!"@)) =~= if trim(d).len() == 0 {
        seq![line(501, "Invalid argument"@), line(250, "Hello!"@)]
    } else {
        seq![line(250, "Hello!"@)]
    });
    assert(first.push(line(503, "Bad sequence of commands"@)) =~= if trim(d).len() == 0 {
        seq![line(501, "Invalid argument"@), line(503, "Bad sequence of commands"@)]
    } else {
        seq![line(503, "Bad sequence of commands"@)]
    });
}

/// MAIL FROM with a well-formed address: on a greeted, authenticated session it opens a
/// mail transaction from that sender with an empty recipient list (250); unauthenticated
/// it is refused with 530, and out of the greeted state with 503, without change.
pub proof fn law_mail_opens_transaction(t: TransactionView, arg: Seq<char>, a: Seq<char>, local: Seq<char>)
    requires
        path_argument(arg, "FROM:"@, 5) == PathView::Address(a),
        valid_address(a),
    ensures
        t.state == SmtpState::Greeted && t.authenticated ==> dispatch_step(
            t,
            CommandView::Mail(arg),
            local,
        ) == Some((
            TransactionView {
                state: SmtpState::Mailing,
                from: Some(a),
                to: Some(Seq::empty()),
                ..t
            },
            OutcomeView::Respond(seq![line(250, "Sender OK"@)]),
        )),
        t.state == SmtpState::Greeted && !t.authenticated ==> dispatch_step(
            t,
            CommandView::Mail(arg),
            local,
        ) == Some((t, OutcomeView::Respond(seq![line(530, "Authentication Required."@)]))),
        t.state != SmtpState::Greeted ==> dispatch_step(t, CommandView::Mail(arg), local) == Some(
            (t, OutcomeView::Respond(seq![line(503, "Bad sequence of commands"@)])),
        ),
{
    law_dispatch_routes(t, CommandView::Mail(arg), local);
}

/// RCPT TO with a well-formed address in an open mail transaction: the address is
/// appended to the recipient list with 250, except on a relay session for an address of
/// another domain, which is refused with 550 and leaves the list as it is. Submission and
/// client sessions accept every domain.
pub proof fn law_rcpt_adds_recipient(t: TransactionView, arg: Seq<char>, a: Seq<char>, local: Seq<char>)
    requires
        path_argument(arg, "TO:"@, 3) == PathView::Address(a),
        valid_address(a),
        t.state == SmtpState::Mailing || t.state == SmtpState::Addressing,
        t.to is Some,
        recipient_domain(a) is Some,
    ensures
        !(t.kind is Server) || recipient_domain(a) == Some(local) ==> dispatch_step(
            t,
            CommandView::Rcpt(arg),
            local,
        ) == Some((
            TransactionView { state: SmtpState::Addressing, to: Some(t.to->0.push(a)), ..t },
            OutcomeView::Respond(seq![line(250, "Sender OK"@)]),
        )),
        t.kind is Server && recipient_domain(a) != Some(local) ==> dispatch_step(
            t,
            CommandView::Rcpt(arg),
            local,
        ) == Some((
            TransactionView { state: SmtpState::Addressing, ..t },
            OutcomeView::Respond(seq![line(550, "Cannot relay"@)]),
        )),
{
    law_dispatch_routes(t, CommandView::Rcpt(arg), local);
}

/// DATA: after at least one RCPT it starts the mail data (354); anywhere else it is
/// answered 503 without change.
pub proof fn law_data_starts_mail_data(t: TransactionView, local: Seq<char>)
    ensures
        t.state == SmtpState::Addressing ==> dispatch_step(t, CommandView::Data, local) == Some(
            (
                TransactionView { state: SmtpState::Sending, ..t },
                OutcomeView::Respond(seq![line(354, "Alright, go on"@)]),
            ),
        ),
        t.state != SmtpState::Addressing ==> dispatch_step(t, CommandView::Data, local) == Some(
            (t, OutcomeView::Respond(seq![line(503, "Bad sequence of commands"@)])),
        ),
{
    law_dispatch_routes(t, CommandView::Data, local);
}

/// The user part of a mailbox: what comes before its first `@`, if it has one.
pub open spec fn mailbox_user(m: Seq<char>) -> Option<Seq<char>> {
    match split_once(m, '@') {
        Some((user, _)) => Some(user),
        None => None,
    }
}

/// Whether every mailbox with an `@` is of the domain `local`.
pub open spec fn all_mailboxes_local(boxes: Seq<Seq<char>>, local: Seq<char>) -> bool {
    forall|i: int|
        0 <= i < boxes.len() ==> (split_once(#[trigger] boxes[i], '@') matches Some((_, domain))
            ==> domain == local)
}

proof fn lemma_local_users_filter(boxes: Seq<Seq<char>>, local: Seq<char>)
    ensures
        all_mailboxes_local(boxes, local) ==> local_users(boxes, local) == Some(
            boxes.filter_map(|m: Seq<char>| mailbox_user(m)),
        ),
        !all_mailboxes_local(boxes, local) ==> local_users(boxes, local) is None,
    decreases boxes.len(),
{
    if boxes.len() > 0 {
        let init = boxes.drop_last();
        lemma_local_users_filter(init, local);
        if all_mailboxes_local(boxes, local) {
            assert(all_mailboxes_local(init, local)) by {
                assert forall|i: int| 0 <= i < init.len() implies (split_once(
                    #[trigger] init[i],
                    '@',
                ) matches Some((_, domain)) ==> domain == local) by {
                    assert(init[i] == boxes[i]);
                }
            }
            assert(split_once(boxes[boxes.len() - 1], '@') matches Some((_, domain)) ==> domain
                == local);
        } else {
            let i = choose|i: int|
                0 <= i < boxes.len() && !(split_once(#[trigger] boxes[i], '@') matches Some(
                    (_, domain),
                ) ==> domain == local);
            if i < init.len() {
                assert(init[i] == boxes[i]);
                assert(!all_mailboxes_local(init, local));
            } else if all_mailboxes_local(init, local) {
                assert(boxes.last() == boxes[i]);
            }
        }
    }
}

/// The end of the mail data, when every recipient with a domain is local: the mail goes
/// to the user part of each recipient that has an `@`, all of them in list order, the
/// reply is 250, and the transaction closes. When a recipient belongs to another domain,
/// the session cannot go on.
pub proof fn law_data_end_delivers_to_every_local_user(t: TransactionView, body: Seq<u8>, local: Seq<char>)
    requires
        t.to is Some,
    ensures
        all_mailboxes_local(t.to->0, local) ==> dispatch_step(
            t,
            CommandView::DataEnd(body),
            local,
        ) == Some((
            TransactionView { state: SmtpState::Greeted, from: None, to: None, ..t },
            OutcomeView::Deliver {
                users: t.to->0.filter_map(|m: Seq<char>| mailbox_user(m)),
                body,
                response: line(250, "OK: queued"@),
            },
        )),
        !all_mailboxes_local(t.to->0, local) ==> dispatch_step(t, CommandView::DataEnd(body), local)
            is None,
{
    law_dispatch_routes(t, CommandView::DataEnd(body), local);
    lemma_local_users_filter(t.to->0, local);
}

/// RSET: in every state the session starts over, unencrypted and without a transaction,
/// with 250.
pub proof fn law_rset_starts_over(t: TransactionView, local: Seq<char>)
    ensures
        dispatch_step(t, CommandView::Rset, local) == Some((
            TransactionView {
                state: SmtpState::Connected,
                esmtp: false,
                tls: false,
                from: None,
                to: None,
                ..t
            },
            OutcomeView::Respond(seq![line(250, "Okie"@)]),
        )),
{
    law_dispatch_routes(t, CommandView::Rset, local);
}

/// NOOP, VRFY and STARTTLS change nothing in any state: NOOP is answered 250, VRFY 252,
/// and STARTTLS 220 before the handshake.
pub proof fn law_noop_vrfy_starttls_change_nothing(t: TransactionView, d: Seq<char>, local: Seq<char>)
    ensures
        dispatch_step(t, CommandView::Noop, local) == Some(
            (t, OutcomeView::Respond(seq![line(250, "No operation performed"@)])),
        ),
        dispatch_step(t, CommandView::Vrfy(d), local) == Some(
            (t, OutcomeView::Respond(seq![line(252, "Won't verify for security reasons"@)])),
        ),
        dispatch_step(t, CommandView::Starttls, local) == Some(
            (t, OutcomeView::StartTls(line(220, "TLS started"@))),
        ),
{
    law_dispatch_routes(t, CommandView::Noop, local);
    law_dispatch_routes(t, CommandView::Vrfy(d), local);
    law_dispatch_routes(t, CommandView::Starttls, local);
}

/// QUIT: in every state the session finishes with 250, keeping everything else.
pub proof fn law_quit_finishes(t: TransactionView, local: Seq<char>)
    ensures
        dispatch_step(t, CommandView::Quit, local) == Some((
            TransactionView { state: SmtpState::Finished, ..t },
            OutcomeView::Respond(seq![line(250, "Goodbye"@)]),
        )),
{
    law_dispatch_routes(t, CommandView::Quit, local);
}

/// AUTH: on a plain stream it is refused with 530, and on an encrypted session that is
/// not greeted it gets no answer; neither changes the session.
pub proof fn law_auth_needs_greeted_tls(t: TransactionView, d: Seq<char>, local: Seq<char>)
    ensures
        !t.tls ==> dispatch_step(t, CommandView::Auth(d), local) == Some(
            (t, OutcomeView::Respond(seq![line(530, "Must issue a STARTTLS command first"@)])),
        ),
        t.tls && t.state != SmtpState::Greeted ==> dispatch_step(t, CommandView::Auth(d), local)
            == Some((t, OutcomeView::Respond(Seq::empty()))),
{
    law_dispatch_routes(t, CommandView::Auth(d), local);
}

} // verus!
