//! The client side of a session: delivering one mail to another server, one reply at
//! a time.
use vstd::prelude::*;
use vstd::string::*;
use crate::command::smtp_command::{CommandView, SmtpCommand};
use crate::io::smtp_response::{ResponseView, SmtpResponse};
use crate::io::smtp_state::SmtpState;
use crate::io::transaction::{fresh_session, strings_view, SmtpTransaction, TransactionKind, TransactionView};
use crate::io::transaction_type::TransactionType;
use crate::scan::append_bytes;
use crate::text::str_equal;

verus! {

/// The texts `lines` joined into one, with `sep` between each two of them.
pub open spec fn joined(lines: Seq<Seq<char>>, sep: Seq<char>) -> Seq<char>
    decreases lines.len(),
{
    if lines.len() == 0 {
        Seq::empty()
    } else if lines.len() == 1 {
        lines[0]
    } else {
        joined(lines.drop_last(), sep) + sep + lines.last()
    }
}

/// Joins `lines` with `sep` between each two of them.
pub fn join_lines(lines: &Vec<String>, sep: &str) -> (r: String)
    ensures
        r@ == joined(strings_view(lines@), sep@),
{
    let ghost view = strings_view(lines@);
    let mut out = String::new();
    let mut i: usize = 0;
    while i < lines.len()
        invariant
            i <= lines.len(),
            view == strings_view(lines@),
            out@ == joined(view.take(i as int), sep@),
        decreases lines.len() - i,
    {
        assert(view.take(i + 1).drop_last() =~= view.take(i as int));
        if i > 0 {
            out.append(sep);
        } else {
            assert(out@ =~= Seq::<char>::empty());
        }
        out.append(lines[i].as_str());
        i = i + 1;
        assert(out@ =~= joined(view.take(i as int), sep@));
    }
    assert(view.take(i as int) =~= view);
    out
}

/// The status code of a reply.
pub open spec fn reply_code(r: ResponseView) -> u16 {
    match r {
        ResponseView::SingleLine(code, _) => code,
        ResponseView::Multiline(code, _) => code,
    }
}

/// The text of a reply as one line: a multiline reply's lines are joined with `"; "`.
pub open spec fn reply_text(r: ResponseView) -> Seq<char> {
    match r {
        ResponseView::SingleLine(_, text) => text,
        ResponseView::Multiline(_, lines) => joined(lines, "; "@),
    }
}

/// Whether an EHLO reply offers STARTTLS: a multiline reply with a line that is
/// exactly `STARTTLS`.
pub open spec fn offers_starttls(r: ResponseView) -> bool {
    match r {
        ResponseView::SingleLine(_, _) => false,
        ResponseView::Multiline(_, lines) => lines.contains("STARTTLS"@),
    }
}

/// The reply the client expected, or the reply's text when its code is another one.
pub open spec fn checked_reply(expected_code: u16, r: ResponseView) -> Result<ResponseView, Seq<char>> {
    if reply_code(r) == expected_code {
        Ok(r)
    } else {
        Err(reply_text(r))
    }
}

/// The reply that the client waits for next, and what it has sent so far.
#[derive(Debug, Clone, Copy, PartialEq, Eq, Structural)]
pub enum ClientStage {
    /// Connected; the server's greeting (220) is awaited.
    Greeting,
    /// EHLO sent; 250 awaited.
    Ehlo,
    /// STARTTLS sent; 220 awaited.
    Starttls,
    /// MAIL FROM sent; 250 awaited.
    Mail,
    /// RCPT TO for the recipient at this index sent; 250 awaited.
    Rcpt(usize),
    /// DATA sent; 354 awaited.
    Data,
    /// The mail data sent; 250 awaited.
    DataEnd,
    /// QUIT sent; 250 awaited.
    Quit,
    /// The dialogue is over.
    Done,
}

/// Why a delivery stopped.
#[derive(Debug)]
pub enum ClientError {
    /// The server answered with another code than the expected one; the reply's text.
    Rejected(String),
    /// The mail has no recipient list.
    NoRecipients,
}

/// The mathematical model of a delivery error.
pub enum ClientErrorView {
    Rejected(Seq<char>),
    NoRecipients,
}

impl View for ClientError {
    type V = ClientErrorView;

    open spec fn view(&self) -> ClientErrorView {
        match self {
            ClientError::Rejected(text) => ClientErrorView::Rejected(text@),
            ClientError::NoRecipients => ClientErrorView::NoRecipients,
        }
    }
}

/// The reply code awaited at each stage.
pub open spec fn expected_code(stage: ClientStage) -> u16 {
    match stage {
        ClientStage::Greeting => 220,
        ClientStage::Ehlo => 250,
        ClientStage::Starttls => 220,
        ClientStage::Mail => 250,
        ClientStage::Rcpt(_) => 250,
        ClientStage::Data => 354,
        ClientStage::DataEnd => 250,
        ClientStage::Quit => 250,
        ClientStage::Done => 250,
    }
}

/// Whether a delivery can be at `stage` for session `t`: the sender is known, and an
/// awaited RCPT reply belongs to one of the recipients.
pub open spec fn client_stage_ok(t: TransactionView, stage: ClientStage) -> bool {
    &&& t.from is Some
    &&& stage != ClientStage::Done
    &&& (stage matches ClientStage::Rcpt(i) ==> (t.to matches Some(to) && i < to.len()))
}

/// The step after the recipient at index `i` (or after MAIL, for `i == -1`): the next
/// RCPT, or DATA when none is left.
pub open spec fn after_recipient(to: Seq<Seq<char>>, i: int) -> (ClientStage, Option<CommandView>) {
    if i + 1 < to.len() {
        (ClientStage::Rcpt((i + 1) as usize), Some(CommandView::Rcpt(to[i + 1])))
    } else {
        (ClientStage::Data, Some(CommandView::Data))
    }
}

/// What the client does on a reply at `stage`, for a session `t` that delivers `data`
/// as `domain`: a reply with an unexpected code stops the delivery with its text;
/// otherwise greeting → EHLO, EHLO → STARTTLS when offered and else MAIL, STARTTLS →
/// MAIL, MAIL → the first RCPT (DATA when there is no recipient; no recipient list
/// stops the delivery), each RCPT → the next RCPT or DATA, DATA → the mail data,
/// data → QUIT, QUIT → done (no command).
pub open spec fn client_next(
    t: TransactionView,
    stage: ClientStage,
    r: ResponseView,
    domain: Seq<char>,
    data: Seq<u8>,
) -> Result<(ClientStage, Option<CommandView>), ClientErrorView> {
    if reply_code(r) != expected_code(stage) {
        Err(ClientErrorView::Rejected(reply_text(r)))
    } else {
        match stage {
            ClientStage::Greeting => Ok((ClientStage::Ehlo, Some(CommandView::Ehlo(domain)))),
            ClientStage::Ehlo => if offers_starttls(r) {
                Ok((ClientStage::Starttls, Some(CommandView::Starttls)))
            } else {
                Ok((ClientStage::Mail, Some(CommandView::Mail(t.from->0))))
            },
            ClientStage::Starttls => Ok((ClientStage::Mail, Some(CommandView::Mail(t.from->0)))),
            ClientStage::Mail => match t.to {
                None => Err(ClientErrorView::NoRecipients),
                Some(to) => Ok(after_recipient(to, -1)),
            },
            ClientStage::Rcpt(i) => Ok(after_recipient(t.to->0, i as int)),
            ClientStage::Data => Ok((ClientStage::DataEnd, Some(CommandView::DataEnd(data)))),
            ClientStage::DataEnd => Ok((ClientStage::Quit, Some(CommandView::Quit))),
            _ => Ok((ClientStage::Done, None)),
        }
    }
}

/// The model of a step's result.
pub open spec fn client_result_view(
    r: Result<(ClientStage, Option<SmtpCommand>), ClientError>,
) -> Result<(ClientStage, Option<CommandView>), ClientErrorView> {
    match r {
        Ok((stage, Some(c))) => Ok((stage, Some(c@))),
        Ok((stage, None)) => Ok((stage, None)),
        Err(e) => Err(e@),
    }
}

impl SmtpTransaction {
    /// A client session delivering a submitted mail from `from` to the one recipient
    /// `to`, once connected to one of the recipient domain's mail exchangers.
    pub fn new_client_from_submission(from: String, to: String) -> (r: SmtpTransaction)
        ensures
            r@ == (TransactionView {
                from: Some(from@),
                to: Some(seq![to@]),
                ..fresh_session(TransactionKind::Client(None), false)
            }),
    {
        let mut recipients: Vec<String> = Vec::new();
        recipients.push(to);
        let r = SmtpTransaction {
            tls: false,
            esmtp: false,
            authenticated: false,
            state: SmtpState::Connected,
            from: Some(from),
            to: Some(recipients),
            transaction_type: TransactionType::CLIENT { exchange: None },
        };
        assert(strings_view(recipients@) =~= seq![to@]);
        r
    }

    /// Whether the server's EHLO reply offers STARTTLS.
    pub fn is_tls(&self, smtp_response: SmtpResponse) -> (r: bool)
        ensures
            r == offers_starttls(smtp_response@),
    {
        let ghost rv = smtp_response@;
        match smtp_response {
            SmtpResponse::SingleLine(_, _) => false,
            SmtpResponse::Multiline(code, lines) => {
                assert(rv == ResponseView::Multiline(code, strings_view(lines@)));
                let ghost view = strings_view(lines@);
                let mut i: usize = 0;
                while i < lines.len()
                    invariant
                        i <= lines.len(),
                        view == strings_view(lines@),
                        rv == ResponseView::Multiline(code, view),
                        rv == smtp_response@,
                        forall|j: int| 0 <= j < i ==> view[j] != "STARTTLS"@,
                    decreases lines.len() - i,
                {
                    if str_equal(lines[i].as_str(), "STARTTLS") {
                        assert(view[i as int] == "STARTTLS"@);
                        assert(view.contains("STARTTLS"@));
                        return true;
                    }
                    i = i + 1;
                }
                assert(!view.contains("STARTTLS"@));
                false
            },
        }
    }

    /// Checks a reply against the code the client waits for: the reply itself when the
    /// code matches, otherwise the reply's text.
    pub fn expect_response(expected_code: u16, reply: SmtpResponse) -> (r: Result<SmtpResponse, String>)
        ensures
            match r {
                Ok(resp) => checked_reply(expected_code, reply@) == Ok::<ResponseView, Seq<char>>(resp@),
                Err(text) => checked_reply(expected_code, reply@) == Err::<ResponseView, Seq<char>>(text@),
            },
    {
        match reply {
            SmtpResponse::SingleLine(code, msg) => {
                if code == expected_code {
                    Ok(SmtpResponse::SingleLine(code, msg))
                } else {
                    Err(msg)
                }
            },
            SmtpResponse::Multiline(code, lines) => {
                if code == expected_code {
                    Ok(SmtpResponse::Multiline(code, lines))
                } else {
                    Err(join_lines(&lines, "; "))
                }
            },
        }
    }

    /// Takes the reply awaited at `stage` while delivering `data` as `local_domain`:
    /// the next stage and the command to send (none once the dialogue is over), or why
    /// the delivery stops.
    pub fn client_step(
        &self,
        stage: ClientStage,
        reply: SmtpResponse,
        local_domain: &str,
        data: &[u8],
    ) -> (r: Result<(ClientStage, Option<SmtpCommand>), ClientError>)
        requires
            client_stage_ok(self@, stage),
        ensures
            client_result_view(r) == client_next(self@, stage, reply@, local_domain@, data@),
    {
        let ghost reply_view = reply@;
        let offered = self.is_tls(reply.clone_reply());
        let checked = Self::expect_response(Self::awaited_code(stage), reply);
        match checked {
            Err(text) => Err(ClientError::Rejected(text)),
            Ok(_) => match stage {
                ClientStage::Greeting => Ok((ClientStage::Ehlo, Some(SmtpCommand::Ehlo(String::from_str(local_domain))))),
                ClientStage::Ehlo => if offered {
                    Ok((ClientStage::Starttls, Some(SmtpCommand::Starttls)))
                } else {
                    Ok((ClientStage::Mail, Some(self.mail_command())))
                },
                ClientStage::Starttls => Ok((ClientStage::Mail, Some(self.mail_command()))),
                ClientStage::Mail => match &self.to {
                    None => Err(ClientError::NoRecipients),
                    Some(to) => {
                        if to.len() > 0 {
                            Ok((ClientStage::Rcpt(0), Some(SmtpCommand::Rcpt(to[0].clone()))))
                        } else {
                            Ok((ClientStage::Data, Some(SmtpCommand::Data)))
                        }
                    },
                },
                ClientStage::Rcpt(i) => match &self.to {
                    Some(to) => {
                        assert(self@.to == Some(strings_view(to@)));
                        assert(i < to.len());
                        if i + 1 < to.len() {
                            Ok((ClientStage::Rcpt(i + 1), Some(SmtpCommand::Rcpt(to[i + 1].clone()))))
                        } else {
                            Ok((ClientStage::Data, Some(SmtpCommand::Data)))
                        }
                    },
                    None => Err(ClientError::NoRecipients),
                },
                ClientStage::Data => {
                    let mut body: Vec<u8> = Vec::new();
                    append_bytes(&mut body, data);
                    Ok((ClientStage::DataEnd, Some(SmtpCommand::DataEnd(body))))
                },
                ClientStage::DataEnd => Ok((ClientStage::Quit, Some(SmtpCommand::Quit))),
                _ => Ok((ClientStage::Done, None)),
            },
        }
    }

    /// The reply code awaited at `stage`.
    fn awaited_code(stage: ClientStage) -> (r: u16)
        ensures
            r == expected_code(stage),
    {
        match stage {
            ClientStage::Greeting => 220,
            ClientStage::Starttls => 220,
            ClientStage::Data => 354,
            _ => 250,
        }
    }

    /// `MAIL FROM` for this session's sender.
    fn mail_command(&self) -> (r: SmtpCommand)
        requires
            self.from is Some,
        ensures
            r@ == CommandView::Mail(self@.from->0),
    {
        match &self.from {
            Some(from) => SmtpCommand::Mail(from.clone()),
            None => SmtpCommand::Mail(String::new()),
        }
    }
}

impl SmtpResponse {
    /// A copy of this reply.
    pub fn clone_reply(&self) -> (r: SmtpResponse)
        ensures
            r@ == self@,
    {
        match self {
            SmtpResponse::SingleLine(code, text) => SmtpResponse::SingleLine(*code, text.clone()),
            SmtpResponse::Multiline(code, lines) => {
                let mut copy: Vec<String> = Vec::new();
                let mut i: usize = 0;
                while i < lines.len()
                    invariant
                        i <= lines.len(),
                        copy.len() == i,
                        forall|j: int| 0 <= j < i ==> copy@[j]@ == lines@[j]@,
                    decreases lines.len() - i,
                {
                    copy.push(lines[i].clone());
                    i = i + 1;
                }
                assert(copy@.map_values(|l: String| l@) =~= lines@.map_values(|l: String| l@));
                SmtpResponse::Multiline(*code, copy)
            },
        }
    }
}

} // verus!
