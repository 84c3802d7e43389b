//! A session of the first model: it answers commands only while not yet greeted.
use vstd::prelude::*;
use crate::command::command_handler::{line, reply};
use crate::commands::smtp_command::{CommandView, SmtpCommand};
use crate::io::smtp_response::{ResponseView, SmtpResponse};
use crate::io::smtp_state::SmtpState;
use crate::io::transaction::strings_view;

verus! {

/// The state of a session of the first model. The byte stream is owned by whoever
/// runs the session.
pub struct SmtpTransaction {
    pub tls: bool,
    pub esmtp: bool,
    pub state: SmtpState,
    pub from: Option<String>,
    pub to: Option<Vec<String>>,
}

/// The mathematical model of such a session.
pub struct SessionView {
    pub tls: bool,
    pub esmtp: bool,
    pub state: SmtpState,
    pub from: Option<Seq<char>>,
    pub to: Option<Seq<Seq<char>>>,
}

impl View for SmtpTransaction {
    type V = SessionView;

    open spec fn view(&self) -> SessionView {
        SessionView {
            tls: self.tls,
            esmtp: self.esmtp,
            state: self.state,
            from: match self.from {
                Some(f) => Some(f@),
                None => None,
            },
            to: match self.to {
                Some(t) => Some(strings_view(t@)),
                None => None,
            },
        }
    }
}

/// What the session does with a command: answer it, let it pass unanswered, or
/// close the connection.
pub enum SessionStep {
    Reply(SmtpResponse),
    Ignore,
    Close,
}

/// The mathematical model of a session step.
pub enum StepView {
    Reply(ResponseView),
    Ignore,
    Close,
}

impl View for SessionStep {
    type V = StepView;

    open spec fn view(&self) -> StepView {
        match self {
            SessionStep::Reply(r) => StepView::Reply(r@),
            SessionStep::Ignore => StepView::Ignore,
            SessionStep::Close => StepView::Close,
        }
    }
}

/// A session that has just connected: nothing negotiated, no transaction.
pub open spec fn connected_session() -> SessionView {
    SessionView { tls: false, esmtp: false, state: SmtpState::Connected, from: None, to: None }
}

/// How a session that is not yet greeted takes a command: HELO and EHLO greet (EHLO
/// also turns on ESMTP), RSET clears the transaction and ESMTP, NOOP, VRFY and QUIT are
/// answered without change, an unknown command is refused, and any other command is
/// out of sequence.
pub open spec fn connected_step(s: SessionView, c: CommandView) -> (SessionView, ResponseView) {
    match c {
        CommandView::Helo(_) => (SessionView { state: SmtpState::Greeted, ..s }, line(250, "Welcome!"@)),
        CommandView::Ehlo(_) => (
            SessionView { state: SmtpState::Greeted, esmtp: true, ..s },
            line(250, "Welcome!"@),
        ),
        CommandView::Rset => (
            SessionView { state: SmtpState::Connected, from: None, to: None, esmtp: false, ..s },
            line(250, "OK"@),
        ),
        CommandView::Noop => (s, line(250, "NOOP"@)),
        CommandView::Quit => (s, line(250, "Goodbye!"@)),
        CommandView::Vrfy(_) => (s, line(250, "NOOP"@)),
        CommandView::Unknown => (s, line(500, "Unknown command"@)),
        _ => (s, line(503, "Bad sequence"@)),
    }
}

/// One step of the session loop: a connected session answers the command, a finished
/// one closes, and in any other stage the command passes unanswered.
pub open spec fn session_step(s: SessionView, c: CommandView) -> (SessionView, StepView) {
    match s.state {
        SmtpState::Connected => (connected_step(s, c).0, StepView::Reply(connected_step(s, c).1)),
        SmtpState::Finished => (s, StepView::Close),
        _ => (s, StepView::Ignore),
    }
}

impl SmtpTransaction {
    /// A new session, not yet greeted.
    pub fn new() -> (r: SmtpTransaction)
        ensures
            r@ == connected_session(),
    {
        SmtpTransaction { tls: false, esmtp: false, state: SmtpState::Connected, from: None, to: None }
    }

    /// The greeting sent when a client connects.
    pub fn welcome() -> (r: SmtpResponse)
        ensures
            r@ == line(220, "Welcome! Patine build 0.1-dev"@),
    {
        reply(220, "Welcome! Patine build 0.1-dev")
    }

    /// Takes one command received on the connection, as the session loop does.
    pub fn handle_connection(&mut self, command: SmtpCommand) -> (r: SessionStep)
        ensures
            (final(self)@, r@) == session_step(old(self)@, command@),
    {
        match self.state {
            SmtpState::Connected => SessionStep::Reply(self.handle_connected_state(command)),
            SmtpState::Finished => SessionStep::Close,
            _ => SessionStep::Ignore,
        }
    }

    /// Answers a command while the session is not yet greeted.
    pub fn handle_connected_state(&mut self, command: SmtpCommand) -> (r: SmtpResponse)
        ensures
            (final(self)@, r@) == connected_step(old(self)@, command@),
    {
        match command {
            SmtpCommand::Helo(_) => {
                self.state = SmtpState::Greeted;
                reply(250, "Welcome!")
            },
            SmtpCommand::Ehlo(_) => {
                self.state = SmtpState::Greeted;
                self.esmtp = true;
                reply(250, "Welcome!")
            },
            SmtpCommand::Rset => {
                self.state = SmtpState::Connected;
                self.from = None;
                self.to = None;
                self.esmtp = false;
                reply(250, "OK")
            },
            SmtpCommand::Noop => reply(250, "NOOP"),
            SmtpCommand::Quit => reply(250, "Goodbye!"),
            SmtpCommand::Vrfy(_) => reply(250, "NOOP"),
            SmtpCommand::Unknown => reply(500, "Unknown command"),
            _ => reply(503, "Bad sequence"),
        }
    }
}


/// A session of the first model answers commands only until it is greeted: before, HELO
/// and EHLO greet with 250 (EHLO also turning on ESMTP), RSET clears the transaction and
/// ESMTP with 250, NOOP and VRFY get 250 without change, QUIT 250 without closing, an
/// unknown command 500 and MAIL, RCPT and DATA 503; once greeted, every command passes
/// unanswered; a finished session closes.
pub proof fn law_first_session_steps(s: SessionView, c: CommandView)
    ensures
        s.state == SmtpState::Connected ==> (session_step(s, c) == match c {
            CommandView::Helo(_) => (
                SessionView { state: SmtpState::Greeted, ..s },
                StepView::Reply(ResponseView::SingleLine(250, "Welcome!"@)),
            ),
            CommandView::Ehlo(_) => (
                SessionView { state: SmtpState::Greeted, esmtp: true, ..s },
                StepView::Reply(ResponseView::SingleLine(250, "Welcome!"@)),
            ),
            CommandView::Rset => (
                SessionView { state: SmtpState::Connected, esmtp: false, from: None, to: None, ..s },
                StepView::Reply(ResponseView::SingleLine(250, "OK"@)),
            ),
            CommandView::Noop => (s, StepView::Reply(ResponseView::SingleLine(250, "NOOP"@))),
            CommandView::Vrfy(_) => (s, StepView::Reply(ResponseView::SingleLine(250, "NOOP"@))),
            CommandView::Quit => (s, StepView::Reply(ResponseView::SingleLine(250, "Goodbye!"@))),
            CommandView::Unknown => (s, StepView::Reply(ResponseView::SingleLine(500, "Unknown command"@))),
            _ => (s, StepView::Reply(ResponseView::SingleLine(503, "Bad sequence"@))),
        }),
        s.state == SmtpState::Finished ==> session_step(s, c) == (s, StepView::Close),
        s.state != SmtpState::Connected && s.state != SmtpState::Finished ==> session_step(s, c)
            == (s, StepView::Ignore),
{
}

} // verus!
