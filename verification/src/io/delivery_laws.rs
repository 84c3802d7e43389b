//! What a whole delivery sends, reply after reply.
use vstd::prelude::*;
use crate::command::smtp_command::CommandView;
use crate::io::client_session::{client_next, reply_text, offers_starttls, reply_code, ClientErrorView, ClientStage};
use crate::io::smtp_response::ResponseView;
use crate::io::transaction::TransactionView;

verus! {

/// Runs the client from `stage` on `replies`, one reply per step, until the replies run
/// out, the dialogue is over, or a step stops the delivery: the stage reached, the
/// commands sent in order, and the error that stopped it, if any.
pub open spec fn client_run(
    t: TransactionView,
    stage: ClientStage,
    replies: Seq<ResponseView>,
    domain: Seq<char>,
    data: Seq<u8>,
) -> (ClientStage, Seq<CommandView>, Option<ClientErrorView>)
    decreases replies.len(),
{
    if replies.len() == 0 || stage == ClientStage::Done {
        (stage, Seq::empty(), None)
    } else {
        match client_next(t, stage, replies[0], domain, data) {
            Err(e) => (stage, Seq::empty(), Some(e)),
            Ok((next, sent)) => {
                let rest = client_run(t, next, replies.drop_first(), domain, data);
                (
                    rest.0,
                    match sent {
                        Some(c) => seq![c] + rest.1,
                        None => rest.1,
                    },
                    rest.2,
                )
            },
        }
    }
}

/// The reply codes of a delivery to `n` recipients that goes through: the greeting,
/// EHLO, STARTTLS where `tls`, MAIL, one RCPT per recipient, DATA, the data, and QUIT.
pub open spec fn accepted_codes(n: nat, tls: bool) -> Seq<u16> {
    seq![220u16, 250u16] + (if tls {
        seq![220u16]
    } else {
        Seq::empty()
    }) + seq![250u16] + Seq::new(n, |i: int| 250u16) + seq![354u16, 250u16, 250u16]
}

/// The commands of a delivery of `data` from `from` to the recipients `to`, as
/// `domain`, asking for STARTTLS where `tls`.
pub open spec fn delivery_commands(
    domain: Seq<char>,
    from: Seq<char>,
    to: Seq<Seq<char>>,
    data: Seq<u8>,
    tls: bool,
) -> Seq<CommandView> {
    seq![CommandView::Ehlo(domain)] + (if tls {
        seq![CommandView::Starttls]
    } else {
        Seq::empty()
    }) + seq![CommandView::Mail(from)] + to.map_values(|r: Seq<char>| CommandView::Rcpt(r)) + seq![
        CommandView::Data,
        CommandView::DataEnd(data),
        CommandView::Quit,
    ]
}

/// The stage awaiting the reply to the RCPT at index `i`, or to MAIL for `i == -1`.
pub open spec fn recipient_stage(i: int) -> ClientStage {
    if i < 0 {
        ClientStage::Mail
    } else {
        ClientStage::Rcpt(i as usize)
    }
}

/// The last part of a delivery: from the reply to the RCPT at index `i` (to MAIL for
/// `i == -1`) on, accepted replies send the remaining RCPTs in order, then DATA, the
/// data, and QUIT.
proof fn lemma_recipients_then_data(
    t: TransactionView,
    i: int,
    replies: Seq<ResponseView>,
    domain: Seq<char>,
    data: Seq<u8>,
)
    requires
        t.to is Some,
        t.to->0.len() <= usize::MAX,
        -1 <= i < t.to->0.len(),
        replies.len() == t.to->0.len() - i + 3,
        forall|k: int| 0 <= k < t.to->0.len() - i ==> reply_code(#[trigger] replies[k]) == 250,
        reply_code(replies[t.to->0.len() - i]) == 354,
        reply_code(replies[t.to->0.len() - i + 1]) == 250,
        reply_code(replies[t.to->0.len() - i + 2]) == 250,
    ensures
        client_run(t, recipient_stage(i), replies, domain, data) == (
            ClientStage::Done,
            t.to->0.subrange(i + 1, t.to->0.len() as int).map_values(|r: Seq<char>| CommandView::Rcpt(r))
                + seq![CommandView::Data, CommandView::DataEnd(data), CommandView::Quit],
            None::<ClientErrorView>,
        ),
    decreases t.to->0.len() - i,
{
    let to = t.to->0;
    let n = to.len() as int;
    let rest = replies.drop_first();
    let tail = seq![CommandView::Data, CommandView::DataEnd(data), CommandView::Quit];
    assert(reply_code(replies[0]) == 250);
    if i + 1 < n {
        assert forall|k: int| 0 <= k < n - (i + 1) implies reply_code(#[trigger] rest[k]) == 250 by {
            assert(rest[k] == replies[k + 1]);
        }
        assert(rest[n - (i + 1)] == replies[n - i]);
        assert(rest[n - (i + 1) + 1] == replies[n - i + 1]);
        assert(rest[n - (i + 1) + 2] == replies[n - i + 2]);
        lemma_recipients_then_data(t, i + 1, rest, domain, data);
        assert(recipient_stage(i + 1) == ClientStage::Rcpt((i + 1) as usize));
        assert(client_next(t, recipient_stage(i), replies[0], domain, data) == Ok::<(ClientStage, Option<CommandView>), ClientErrorView>((ClientStage::Rcpt((i + 1) as usize), Some(CommandView::Rcpt(to[i + 1])))));
        let later = client_run(t, recipient_stage(i + 1), rest, domain, data);
        let c0 = client_run(t, recipient_stage(i), replies, domain, data);
        assert(c0.0 == ClientStage::Done && c0.2 == None::<ClientErrorView>);
        assert(c0.1 =~= seq![CommandView::Rcpt(to[i + 1])] + later.1);
        assert(to.subrange(i + 1, n).map_values(|r: Seq<char>| CommandView::Rcpt(r)) =~= seq![
            CommandView::Rcpt(to[i + 1]),
        ] + to.subrange(i + 2, n).map_values(|r: Seq<char>| CommandView::Rcpt(r)));
        assert(seq![CommandView::Rcpt(to[i + 1])] + (to.subrange(i + 2, n).map_values(
            |r: Seq<char>| CommandView::Rcpt(r),
        ) + tail) =~= to.subrange(i + 1, n).map_values(|r: Seq<char>| CommandView::Rcpt(r)) + tail);
    } else {
        let r2 = rest.drop_first();
        let r3 = r2.drop_first();
        let r4 = r3.drop_first();
        assert(rest[0] == replies[1]);
        assert(r2[0] == replies[2]);
        assert(r3[0] == replies[3]);
        assert(r4.len() == 0);
        let none = None::<ClientErrorView>;
        assert(client_run(t, ClientStage::Done, r4, domain, data) == (ClientStage::Done, Seq::<CommandView>::empty(), none));
        assert(client_next(t, ClientStage::Quit, r3[0], domain, data) == Ok::<(ClientStage, Option<CommandView>), ClientErrorView>((ClientStage::Done, None)));
        assert(client_run(t, ClientStage::Quit, r3, domain, data) == (ClientStage::Done, Seq::<CommandView>::empty(), none));
        assert(client_next(t, ClientStage::DataEnd, r2[0], domain, data) == Ok::<(ClientStage, Option<CommandView>), ClientErrorView>((ClientStage::Quit, Some(CommandView::Quit))));
        assert(client_run(t, ClientStage::DataEnd, r2, domain, data) == (ClientStage::Done, seq![CommandView::Quit] + Seq::<CommandView>::empty(), none));
        assert(client_next(t, ClientStage::Data, rest[0], domain, data) == Ok::<(ClientStage, Option<CommandView>), ClientErrorView>((ClientStage::DataEnd, Some(CommandView::DataEnd(data)))));
        assert(client_next(t, recipient_stage(i), replies[0], domain, data) == Ok::<(ClientStage, Option<CommandView>), ClientErrorView>((ClientStage::Data, Some(CommandView::Data))));
        let c1 = client_run(t, ClientStage::Data, rest, domain, data);
        assert(c1.0 == ClientStage::Done && c1.2 == none);
        assert(c1.1 =~= seq![CommandView::DataEnd(data), CommandView::Quit]);
        let c0 = client_run(t, recipient_stage(i), replies, domain, data);
        assert(c0.0 == ClientStage::Done && c0.2 == none);
        assert(c0.1 =~= tail);
        assert(seq![CommandView::Quit] + Seq::<CommandView>::empty() =~= seq![CommandView::Quit]);
        assert(seq![CommandView::DataEnd(data)] + seq![CommandView::Quit] =~= seq![
            CommandView::DataEnd(data),
            CommandView::Quit,
        ]);
        assert(seq![CommandView::Data] + seq![CommandView::DataEnd(data), CommandView::Quit] =~= tail);
        assert(to.subrange(i + 1, n).map_values(|r: Seq<char>| CommandView::Rcpt(r)) =~= Seq::<
            CommandView,
        >::empty());
        assert(Seq::<CommandView>::empty() + tail =~= tail);
    }
}

/// A delivery that goes through: when every reply carries the code the client waits
/// for, the client sends EHLO, STARTTLS exactly when the EHLO reply offers it, MAIL FROM
/// its sender, one RCPT TO for each recipient in list order, DATA, the mail data and
/// QUIT, and ends the dialogue without error.
pub proof fn law_delivery_sends_each_recipient_once(
    t: TransactionView,
    replies: Seq<ResponseView>,
    domain: Seq<char>,
    data: Seq<u8>,
)
    requires
        t.from is Some,
        t.to is Some,
        t.to->0.len() <= usize::MAX,
        replies.len() >= 2,
        replies.len() == accepted_codes(t.to->0.len(), offers_starttls(replies[1])).len(),
        forall|k: int|
            0 <= k < replies.len() ==> reply_code(#[trigger] replies[k]) == accepted_codes(
                t.to->0.len(),
                offers_starttls(replies[1]),
            )[k],
    ensures
        client_run(t, ClientStage::Greeting, replies, domain, data) == (
            ClientStage::Done,
            delivery_commands(domain, t.from->0, t.to->0, data, offers_starttls(replies[1])),
            None::<ClientErrorView>,
        ),
{
    let to = t.to->0;
    let from = t.from->0;
    let n = to.len() as int;
    let tls = offers_starttls(replies[1]);
    let codes = accepted_codes(to.len(), tls);
    let m: int = if tls { 3 } else { 2 };
    let none = None::<ClientErrorView>;
    let rm = replies.skip(m);
    assert forall|k: int| 0 <= k < n + 1 implies reply_code(#[trigger] rm[k]) == 250 by {
        assert(rm[k] == replies[k + m]);
        assert(reply_code(replies[k + m]) == codes[k + m]);
    }
    assert(rm[n + 1] == replies[n + 1 + m] && reply_code(replies[n + 1 + m]) == codes[n + 1 + m]);
    assert(rm[n + 2] == replies[n + 2 + m] && reply_code(replies[n + 2 + m]) == codes[n + 2 + m]);
    assert(rm[n + 3] == replies[n + 3 + m] && reply_code(replies[n + 3 + m]) == codes[n + 3 + m]);
    lemma_recipients_then_data(t, -1, rm, domain, data);
    assert(recipient_stage(-1) == ClientStage::Mail);
    let after_mail = client_run(t, ClientStage::Mail, rm, domain, data);
    let r1 = replies.drop_first();
    let r2 = r1.drop_first();
    assert(r1[0] == replies[1]);
    assert(reply_code(replies[0]) == codes[0]);
    assert(reply_code(replies[1]) == codes[1]);
    let after_ehlo = client_run(t, ClientStage::Ehlo, r1, domain, data);
    if tls {
        assert(r2[0] == replies[2] && reply_code(replies[2]) == codes[2]);
        assert(r2.drop_first() =~= rm);
        assert(client_next(t, ClientStage::Starttls, r2[0], domain, data) == Ok::<(ClientStage, Option<CommandView>), ClientErrorView>((ClientStage::Mail, Some(CommandView::Mail(from)))));
        let after_starttls = client_run(t, ClientStage::Starttls, r2, domain, data);
        assert(after_starttls.0 == ClientStage::Done && after_starttls.2 == none);
        assert(after_starttls.1 =~= seq![CommandView::Mail(from)] + after_mail.1);
        assert(client_next(t, ClientStage::Ehlo, r1[0], domain, data) == Ok::<(ClientStage, Option<CommandView>), ClientErrorView>((ClientStage::Starttls, Some(CommandView::Starttls))));
        assert(after_ehlo.0 == ClientStage::Done && after_ehlo.2 == none);
        assert(after_ehlo.1 =~= seq![CommandView::Starttls] + after_starttls.1);
    } else {
        assert(r2 =~= rm);
        assert(client_next(t, ClientStage::Ehlo, r1[0], domain, data) == Ok::<(ClientStage, Option<CommandView>), ClientErrorView>((ClientStage::Mail, Some(CommandView::Mail(from)))));
        assert(after_ehlo.0 == ClientStage::Done && after_ehlo.2 == none);
        assert(after_ehlo.1 =~= seq![CommandView::Mail(from)] + after_mail.1);
    }
    assert(client_next(t, ClientStage::Greeting, replies[0], domain, data) == Ok::<(ClientStage, Option<CommandView>), ClientErrorView>((ClientStage::Ehlo, Some(CommandView::Ehlo(domain)))));
    let whole = client_run(t, ClientStage::Greeting, replies, domain, data);
    assert(whole.0 == ClientStage::Done && whole.2 == none);
    assert(whole.1 =~= seq![CommandView::Ehlo(domain)] + after_ehlo.1);
    assert(to.subrange(0, n) =~= to);
    assert(whole.1 =~= delivery_commands(domain, from, to, data, tls));
}


/// A delivery stops at the first reply whose code is not the one awaited (220 for the
/// greeting and after STARTTLS, 354 after DATA, 250 otherwise), with that reply's text,
/// and sends nothing more.
pub proof fn law_unexpected_reply_stops_delivery(
    t: TransactionView,
    stage: ClientStage,
    r: ResponseView,
    domain: Seq<char>,
    data: Seq<u8>,
)
    requires
        stage != ClientStage::Done,
        reply_code(r) != match stage {
            ClientStage::Greeting => 220u16,
            ClientStage::Starttls => 220u16,
            ClientStage::Data => 354u16,
            _ => 250u16,
        },
    ensures
        client_next(t, stage, r, domain, data) == Err::<(ClientStage, Option<CommandView>), ClientErrorView>(
            ClientErrorView::Rejected(reply_text(r)),
        ),
        client_run(t, stage, seq![r], domain, data) == (
            stage,
            Seq::<CommandView>::empty(),
            Some(ClientErrorView::Rejected(reply_text(r))),
        ),
{
}

} // verus!
