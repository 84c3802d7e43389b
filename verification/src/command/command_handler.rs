//! What a command handler does to a session, and what it asks its runner to do.
use vstd::prelude::*;
use vstd::string::*;
use crate::command::smtp_command::SmtpCommand;
use crate::io::smtp_response::{ResponseView, SmtpResponse};
use crate::io::transaction::{strings_view, SmtpTransaction, TransactionView};

verus! {

/// What the runner of a session does after a handler has updated the session.
pub enum HandlerOutcome {
    /// Send these replies, in order.
    Respond(Vec<SmtpResponse>),
    /// Send this reply, then perform the TLS handshake on the stream and report its
    /// result with `SmtpTransaction::starttls`.
    StartTls(SmtpResponse),
    /// Store `body` in the mailbox of each of `users`, then send `response`.
    Deliver { users: Vec<String>, body: Vec<u8>, response: SmtpResponse },
    /// Check the user name and password against the system's accounts, then report the
    /// result with `SmtpTransaction::finish_auth` and send the reply it gives.
    Authenticate { username: String, password: String },
}

/// The mathematical model of a handler outcome.
pub enum OutcomeView {
    Respond(Seq<ResponseView>),
    StartTls(ResponseView),
    Deliver { users: Seq<Seq<char>>, body: Seq<u8>, response: ResponseView },
    Authenticate { username: Seq<char>, password: Seq<char> },
}

/// The model of a list of replies.
pub open spec fn responses_view(v: Seq<SmtpResponse>) -> Seq<ResponseView> {
    v.map_values(|r: SmtpResponse| r@)
}

impl View for HandlerOutcome {
    type V = OutcomeView;

    open spec fn view(&self) -> OutcomeView {
        match self {
            HandlerOutcome::Respond(rs) => OutcomeView::Respond(responses_view(rs@)),
            HandlerOutcome::StartTls(r) => OutcomeView::StartTls(r@),
            HandlerOutcome::Deliver { users, body, response } => OutcomeView::Deliver {
                users: strings_view(users@),
                body: body@,
                response: response@,
            },
            HandlerOutcome::Authenticate { username, password } => OutcomeView::Authenticate {
                username: username@,
                password: password@,
            },
        }
    }
}

/// The model of a handler's result; `None` where the session cannot go on.
pub open spec fn outcome_view(r: Option<HandlerOutcome>) -> Option<OutcomeView> {
    match r {
        Some(o) => Some(o@),
        None => None,
    }
}

/// A single-line reply.
pub open spec fn line(code: u16, text: Seq<char>) -> ResponseView {
    ResponseView::SingleLine(code, text)
}

/// The outcome that sends one single-line reply.
pub open spec fn respond_line(code: u16, text: Seq<char>) -> OutcomeView {
    OutcomeView::Respond(seq![line(code, text)])
}

/// The outcome that sends nothing.
pub open spec fn respond_nothing() -> OutcomeView {
    OutcomeView::Respond(Seq::empty())
}

/// Whether a handler went from session `before` to `after` with result `r` as the step
/// `step` prescribes: `None` leaves the session unchanged and ends it.
pub open spec fn follows_step(
    before: TransactionView,
    after: TransactionView,
    r: Option<HandlerOutcome>,
    step: Option<(TransactionView, OutcomeView)>,
) -> bool {
    match step {
        None => r is None && after == before,
        Some((t, o)) => outcome_view(r) == Some(o) && after == t,
    }
}

/// A single-line reply with code `code` and text `text`.
pub fn reply(code: u16, text: &str) -> (r: SmtpResponse)
    ensures
        r@ == line(code, text@),
{
    SmtpResponse::SingleLine(code, String::from_str(text))
}

/// The outcome that sends one single-line reply.
pub fn respond_with(code: u16, text: &str) -> (r: HandlerOutcome)
    ensures
        r@ == respond_line(code, text@),
{
    let mut v: Vec<SmtpResponse> = Vec::new();
    v.push(reply(code, text));
    assert(responses_view(v@) =~= seq![line(code, text@)]);
    HandlerOutcome::Respond(v)
}

/// The outcome that sends nothing.
pub fn respond_silently() -> (r: HandlerOutcome)
    ensures
        r@ == respond_nothing(),
{
    let v: Vec<SmtpResponse> = Vec::new();
    assert(responses_view(v@) =~= Seq::<ResponseView>::empty());
    HandlerOutcome::Respond(v)
}

/// A handler of one SMTP command: it updates the session and says what to send.
/// `local_domain` is the domain this server receives mail for. `None` means that the
/// session cannot go on and must be dropped.
pub trait CommandHandler {
    fn handle(
        &self,
        txn: &mut SmtpTransaction,
        command: SmtpCommand,
        local_domain: &str,
    ) -> Option<HandlerOutcome>;
}

} // verus!
