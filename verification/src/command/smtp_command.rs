//! The commands a client sends, parsed from one command line.
use vstd::prelude::*;
use vstd::string::*;
use crate::text::{lowercase_agrees, byte_suffix, str_get_from, str_starts_with, to_lowercase, trim, trim_str, unicode_lowercase};

verus! {

/// A command received from an SMTP client.
#[derive(Debug, Eq, PartialEq)]
pub enum SmtpCommand {
    Helo(String),
    Ehlo(String),
    Mail(String),
    Rcpt(String),
    Data,
    Rset,
    Noop,
    Quit,
    Vrfy(String),
    Starttls,
    Auth(String),
    Unknown,
    /// Not an SMTP command: the mail data that follows `DATA`, up to the terminating
    /// `<CRLF>.<CRLF>`, handed on for delivery.
    DataEnd(Vec<u8>),
}

/// The mathematical model of a command: its parameters as character or byte sequences.
pub enum CommandView {
    Helo(Seq<char>),
    Ehlo(Seq<char>),
    Mail(Seq<char>),
    Rcpt(Seq<char>),
    Data,
    Rset,
    Noop,
    Quit,
    Vrfy(Seq<char>),
    Starttls,
    Auth(Seq<char>),
    Unknown,
    DataEnd(Seq<u8>),
}

impl View for SmtpCommand {
    type V = CommandView;

    open spec fn view(&self) -> CommandView {
        match self {
            SmtpCommand::Helo(p) => CommandView::Helo(p@),
            SmtpCommand::Ehlo(p) => CommandView::Ehlo(p@),
            SmtpCommand::Mail(p) => CommandView::Mail(p@),
            SmtpCommand::Rcpt(p) => CommandView::Rcpt(p@),
            SmtpCommand::Data => CommandView::Data,
            SmtpCommand::Rset => CommandView::Rset,
            SmtpCommand::Noop => CommandView::Noop,
            SmtpCommand::Quit => CommandView::Quit,
            SmtpCommand::Vrfy(p) => CommandView::Vrfy(p@),
            SmtpCommand::Starttls => CommandView::Starttls,
            SmtpCommand::Auth(p) => CommandView::Auth(p@),
            SmtpCommand::Unknown => CommandView::Unknown,
            SmtpCommand::DataEnd(b) => CommandView::DataEnd(b@),
        }
    }
}

/// The parameters of a command line: everything after its first four bytes, trimmed
/// (empty when the line is shorter or byte four is inside a character).
pub open spec fn command_params(line: Seq<char>) -> Seq<char> {
    match byte_suffix(line, 4) {
        Some(rest) => trim(rest),
        None => Seq::empty(),
    }
}

/// The command that a lowercased line `lower` names, the first keyword it begins with
/// deciding, with parameters `params`.
pub open spec fn command_from_lowercase(lower: Seq<char>, params: Seq<char>) -> CommandView {
    if "ehlo"@.is_prefix_of(lower) {
        CommandView::Ehlo(params)
    } else if "helo"@.is_prefix_of(lower) {
        CommandView::Helo(params)
    } else if "mail"@.is_prefix_of(lower) {
        CommandView::Mail(params)
    } else if "rcpt"@.is_prefix_of(lower) {
        CommandView::Rcpt(params)
    } else if "data"@.is_prefix_of(lower) {
        CommandView::Data
    } else if "rset"@.is_prefix_of(lower) {
        CommandView::Rset
    } else if "noop"@.is_prefix_of(lower) {
        CommandView::Noop
    } else if "quit"@.is_prefix_of(lower) {
        CommandView::Quit
    } else if "vrfy"@.is_prefix_of(lower) {
        CommandView::Vrfy(params)
    } else if "starttls"@.is_prefix_of(lower) {
        CommandView::Starttls
    } else if "auth"@.is_prefix_of(lower) {
        CommandView::Auth(params)
    } else {
        CommandView::Unknown
    }
}

/// The command that the line `line` holds: keywords are matched on its Unicode
/// lowercase form.
pub open spec fn command_from_line(line: Seq<char>) -> CommandView {
    command_from_lowercase(unicode_lowercase(line), command_params(line))
}

/// The name under which a command's handler is registered.
pub open spec fn command_name(c: CommandView) -> Option<&'static str> {
    match c {
        CommandView::Helo(_) => Some("helo"),
        CommandView::Ehlo(_) => Some("ehlo"),
        CommandView::Mail(_) => Some("mail"),
        CommandView::Rcpt(_) => Some("rcpt"),
        CommandView::Data => Some("data"),
        CommandView::Rset => Some("rset"),
        CommandView::Noop => Some("noop"),
        CommandView::Quit => Some("quit"),
        CommandView::Vrfy(_) => Some("vrfy"),
        CommandView::Auth(_) => Some("auth"),
        CommandView::Starttls => Some("starttls"),
        CommandView::DataEnd(_) => Some("data_end"),
        CommandView::Unknown => None,
    }
}

impl SmtpCommand {
    /// Parses one command line (without its CRLF).
    pub fn from(string: String) -> (r: Self)
        ensures
            r@ == command_from_line(string@),
            lowercase_agrees(string@, unicode_lowercase(string@)),
    {
        proof {
            reveal_strlit("");
        }
        let rest = match str_get_from(string.as_str(), 4) {
            Some(rest) => rest,
            None => "",
        };
        assert(rest@ == match byte_suffix(string@, 4) {
            Some(r) => r,
            None => Seq::<char>::empty(),
        });
        assert(trim(Seq::<char>::empty()) == Seq::<char>::empty());
        let params = String::from_str(trim_str(rest));
        let lower = to_lowercase(string.as_str());
        Self::from_lowercase(lower.as_str(), params)
    }

    /// The command named by the already lowercased line `lower`, carrying `params`.
    pub fn from_lowercase(lower: &str, params: String) -> (r: Self)
        ensures
            r@ == command_from_lowercase(lower@, params@),
    {
        if str_starts_with(lower, "ehlo") {
            SmtpCommand::Ehlo(params)
        } else if str_starts_with(lower, "helo") {
            SmtpCommand::Helo(params)
        } else if str_starts_with(lower, "mail") {
            SmtpCommand::Mail(params)
        } else if str_starts_with(lower, "rcpt") {
            SmtpCommand::Rcpt(params)
        } else if str_starts_with(lower, "data") {
            SmtpCommand::Data
        } else if str_starts_with(lower, "rset") {
            SmtpCommand::Rset
        } else if str_starts_with(lower, "noop") {
            SmtpCommand::Noop
        } else if str_starts_with(lower, "quit") {
            SmtpCommand::Quit
        } else if str_starts_with(lower, "vrfy") {
            SmtpCommand::Vrfy(params)
        } else if str_starts_with(lower, "starttls") {
            SmtpCommand::Starttls
        } else if str_starts_with(lower, "auth") {
            SmtpCommand::Auth(params)
        } else {
            SmtpCommand::Unknown
        }
    }

    /// The name under which this command's handler is registered; `None` for an
    /// unknown command.
    pub fn name(&self) -> (r: Option<&'static str>)
        ensures
            r == command_name(self@),
    {
        match self {
            SmtpCommand::Helo(_) => Some("helo"),
            SmtpCommand::Ehlo(_) => Some("ehlo"),
            SmtpCommand::Mail(_) => Some("mail"),
            SmtpCommand::Rcpt(_) => Some("rcpt"),
            SmtpCommand::Data => Some("data"),
            SmtpCommand::Rset => Some("rset"),
            SmtpCommand::Noop => Some("noop"),
            SmtpCommand::Quit => Some("quit"),
            SmtpCommand::Vrfy(_) => Some("vrfy"),
            SmtpCommand::Auth(_) => Some("auth"),
            SmtpCommand::Starttls => Some("starttls"),
            SmtpCommand::DataEnd(_) => Some("data_end"),
            _ => None,
        }
    }
}

} // verus!
