//! The state of one SMTP session, and the steps that change it.
use vstd::prelude::*;
use crate::command::command_handler::{follows_step, line, respond_line, respond_nothing, respond_silently, respond_with, reply, HandlerOutcome, OutcomeView};
use crate::command::handlers::registry::{handler_for, handler_step, registered};
use crate::command::smtp_command::{command_name, CommandView, SmtpCommand};
use crate::io::smtp_response::SmtpResponse;
use crate::io::smtp_state::SmtpState;
use crate::io::transaction_type::TransactionType;

verus! {

/// The state of one SMTP session: what has been negotiated and the mail transaction
/// under way. The byte stream itself is owned by whoever runs the session.
pub struct SmtpTransaction {
    pub tls: bool,
    pub esmtp: bool,
    pub authenticated: bool,
    pub state: SmtpState,
    pub from: Option<String>,
    pub to: Option<Vec<String>>,
    pub transaction_type: TransactionType,
}

/// The role of a session, as a mathematical value.
pub enum TransactionKind {
    Server,
    Submission,
    Client(Option<Seq<char>>),
}

/// The mathematical model of a session.
pub struct TransactionView {
    pub tls: bool,
    pub esmtp: bool,
    pub authenticated: bool,
    pub state: SmtpState,
    pub from: Option<Seq<char>>,
    pub to: Option<Seq<Seq<char>>>,
    pub kind: TransactionKind,
}

/// The model of a list of strings.
pub open spec fn strings_view(v: Seq<String>) -> Seq<Seq<char>> {
    v.map_values(|s: String| s@)
}

impl View for TransactionType {
    type V = TransactionKind;

    open spec fn view(&self) -> TransactionKind {
        match self {
            TransactionType::SERVER => TransactionKind::Server,
            TransactionType::SUBMISSION => TransactionKind::Submission,
            TransactionType::CLIENT { exchange } => TransactionKind::Client(
                match exchange {
                    Some(e) => Some(e@),
                    None => None,
                },
            ),
        }
    }
}

impl View for SmtpTransaction {
    type V = TransactionView;

    open spec fn view(&self) -> TransactionView {
        TransactionView {
            tls: self.tls,
            esmtp: self.esmtp,
            authenticated: self.authenticated,
            state: self.state,
            from: match self.from {
                Some(f) => Some(f@),
                None => None,
            },
            to: match self.to {
                Some(t) => Some(strings_view(t@)),
                None => None,
            },
            kind: self.transaction_type@,
        }
    }
}

/// A fresh session in role `kind`: nothing negotiated, not greeted.
pub open spec fn fresh_session(kind: TransactionKind, authenticated: bool) -> TransactionView {
    TransactionView {
        tls: false,
        esmtp: false,
        authenticated: authenticated,
        state: SmtpState::Connected,
        from: None,
        to: None,
        kind: kind,
    }
}

/// The session after a successful TLS handshake: encrypted, back to the start of the
/// dialogue, no mail transaction.
pub open spec fn after_tls(t: TransactionView) -> TransactionView {
    TransactionView { tls: true, state: SmtpState::Connected, from: None, to: None, ..t }
}

/// What the session does with a command: the handler registered under the command's
/// name takes it; a command without a name is answered 500.
pub open spec fn dispatch_step(t: TransactionView, c: CommandView, local: Seq<char>) -> Option<(TransactionView, OutcomeView)> {
    match command_name(c) {
        None => Some((t, respond_line(500, "Invalid command"@))),
        Some(name) => match registered(name@) {
            Some(k) => handler_step(k, t, c, local),
            None => Some((t, respond_nothing())),
        },
    }
}

impl SmtpTransaction {
    /// The greeting sent when a client connects.
    pub fn welcome() -> (r: SmtpResponse)
        ensures
            r@ == line(220, "Welcome! Patine build 0.1-dev"@),
    {
        reply(220, "Welcome! Patine build 0.1-dev")
    }

    /// Takes one command: updates the session and says what to send and do.
    /// `local_domain` is the domain this server receives mail for; `None` means that the
    /// session cannot go on and the connection is to be dropped.
    pub fn handle_command(&mut self, command: SmtpCommand, local_domain: &str) -> (r: Option<HandlerOutcome>)
        ensures
            follows_step(old(self)@, final(self)@, r, dispatch_step(old(self)@, command@, local_domain@)),
    {
        match command.name() {
            Some(name) => match handler_for(name) {
                Some(k) => k.handle(self, command, local_domain),
                None => Some(respond_silently()),
            },
            None => Some(respond_with(500, "Invalid command")),
        }
    }

    /// A session receiving relayed mail: no authentication is asked for.
    pub fn new_server() -> (r: SmtpTransaction)
        ensures
            r@ == fresh_session(TransactionKind::Server, true),
    {
        SmtpTransaction {
            tls: false,
            esmtp: false,
            authenticated: true,
            state: SmtpState::Connected,
            from: None,
            to: None,
            transaction_type: TransactionType::SERVER,
        }
    }

    /// A session receiving mail submitted by a local user, who must authenticate.
    pub fn new_submission() -> (r: SmtpTransaction)
        ensures
            r@ == fresh_session(TransactionKind::Submission, false),
    {
        SmtpTransaction {
            tls: false,
            esmtp: false,
            authenticated: false,
            state: SmtpState::Connected,
            from: None,
            to: None,
            transaction_type: TransactionType::SUBMISSION,
        }
    }

    /// A session delivering mail to another server.
    pub fn new_client() -> (r: SmtpTransaction)
        ensures
            r@ == fresh_session(TransactionKind::Client(None), false),
    {
        SmtpTransaction {
            tls: false,
            esmtp: false,
            authenticated: false,
            state: SmtpState::Connected,
            from: None,
            to: None,
            transaction_type: TransactionType::CLIENT { exchange: None },
        }
    }

    /// Whether the session is over: the client has quit, and the connection is to be
    /// closed.
    pub fn is_finished(&self) -> (r: bool)
        ensures
            r == (self.state == SmtpState::Finished),
    {
        match self.state {
            SmtpState::Finished => true,
            _ => false,
        }
    }

    /// Records the result of checking the credentials of an AUTH command: when they are
    /// accepted the session becomes authenticated and 235 is to be sent; otherwise the
    /// session is left as it was and 535 is to be sent.
    pub fn finish_auth(&mut self, accepted: bool) -> (r: SmtpResponse)
        ensures
            accepted ==> final(self)@ == (TransactionView { authenticated: true, ..old(self)@ })
                && r@ == line(235, "Authentication succeeded"@),
            !accepted ==> final(self)@ == old(self)@ && r@ == line(
                535,
                "Authentication credentials invalid"@,
            ),
            final(self).transaction_type == old(self).transaction_type,
    {
        if accepted {
            self.authenticated = true;
            reply(235, "Authentication succeeded")
        } else {
            reply(535, "Authentication credentials invalid")
        }
    }

    /// Records the outcome of the TLS handshake that follows STARTTLS: on success the
    /// session is encrypted and starts over; on failure it is left as it was.
    pub fn starttls(&mut self, handshake_succeeded: bool)
        requires
            !(old(self)@.kind is Client),
        ensures
            final(self)@ == if handshake_succeeded {
                after_tls(old(self)@)
            } else {
                old(self)@
            },
            final(self).transaction_type == old(self).transaction_type,
    {
        if handshake_succeeded {
            self.tls = true;
            self.state = SmtpState::Connected;
            self.from = None;
            self.to = None;
        }
    }
}

} // verus!
