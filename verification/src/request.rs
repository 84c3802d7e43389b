//! The first request loop of the server: a fixed answer to each kind of command.
use vstd::prelude::*;
use vstd::string::*;
use crate::command::command_handler::{line, reply};
use crate::commands::smtp_command::{CommandView, SmtpCommand};
use crate::io::smtp_response::{ResponseView, SmtpResponse};

verus! {

/// The greeting sent when a client connects.
pub fn greeting() -> (r: SmtpResponse)
    ensures
        r@ == line(220, "Prototype Patine build"@),
{
    reply(220, "Prototype Patine build")
}

/// The answer to a command, and whether the connection stays open afterwards.
pub open spec fn request_reply(c: CommandView) -> (ResponseView, bool) {
    match c {
        CommandView::Ehlo(_) => (ResponseView::Multiline(250, seq!["Welcome!"@, "SMTPUTF8"@]), true),
        CommandView::Quit => (line(221, "OK"@), false),
        CommandView::Unknown => (line(500, "Unknown command"@), true),
        _ => (line(502, "Command not implemented"@), true),
    }
}

/// Answers one request: EHLO lists the extensions, QUIT says goodbye and closes,
/// an unknown command is refused, and every other command is not implemented.
/// The second component says whether to keep reading requests.
pub fn handle_request(command: &SmtpCommand) -> (r: (SmtpResponse, bool))
    ensures
        r.0@ == request_reply(command@).0,
        r.1 == request_reply(command@).1,
{
    match command {
        SmtpCommand::Ehlo(_) => {
            let mut lines: Vec<String> = Vec::new();
            lines.push(String::from_str("Welcome!"));
            lines.push(String::from_str("SMTPUTF8"));
            assert(lines@.map_values(|l: String| l@) =~= seq!["Welcome!"@, "SMTPUTF8"@]);
            (SmtpResponse::Multiline(250, lines), true)
        },
        SmtpCommand::Quit => (reply(221, "OK"), false),
        SmtpCommand::Unknown => (reply(500, "Unknown command"), true),
        _ => (reply(502, "Command not implemented"), true),
    }
}


/// The request loop answers EHLO with the two lines `Welcome!` and `SMTPUTF8` (250), QUIT
/// with 221 and closes, an unknown command with 500, and every other command with 502,
/// staying open for all but QUIT.
pub proof fn law_request_answers(c: CommandView)
    ensures
        c is Ehlo ==> request_reply(c) == (ResponseView::Multiline(250, seq!["Welcome!"@, "SMTPUTF8"@]), true),
        c is Quit ==> request_reply(c) == (ResponseView::SingleLine(221, "OK"@), false),
        c is Unknown ==> request_reply(c) == (ResponseView::SingleLine(500, "Unknown command"@), true),
        !(c is Ehlo || c is Quit || c is Unknown) ==> request_reply(c) == (
            ResponseView::SingleLine(502, "Command not implemented"@),
            true,
        ),
{
}

} // verus!
