//! Commands of the first command model, recognised by their keyword alone.
use vstd::prelude::*;
use vstd::string::*;
use crate::text::{lowercase_agrees, str_starts_with, to_lowercase, unicode_lowercase};

verus! {

/// A command line classified by its keyword; the parameters are fixed placeholders.
#[derive(Debug)]
pub enum SmtpCommand {
    Helo(String),
    Ehlo(String),
    MailFrom(String),
    RcptTo(String),
    Data(String),
    Rset,
    Noop,
    Quit,
    Vrfy(String),
    Unknown,
}

/// The mathematical model of a command of this model.
pub enum CommandView {
    Helo(Seq<char>),
    Ehlo(Seq<char>),
    MailFrom(Seq<char>),
    RcptTo(Seq<char>),
    Data(Seq<char>),
    Rset,
    Noop,
    Quit,
    Vrfy(Seq<char>),
    Unknown,
}

impl View for SmtpCommand {
    type V = CommandView;

    open spec fn view(&self) -> CommandView {
        match self {
            SmtpCommand::Helo(p) => CommandView::Helo(p@),
            SmtpCommand::Ehlo(p) => CommandView::Ehlo(p@),
            SmtpCommand::MailFrom(p) => CommandView::MailFrom(p@),
            SmtpCommand::RcptTo(p) => CommandView::RcptTo(p@),
            SmtpCommand::Data(p) => CommandView::Data(p@),
            SmtpCommand::Rset => CommandView::Rset,
            SmtpCommand::Noop => CommandView::Noop,
            SmtpCommand::Quit => CommandView::Quit,
            SmtpCommand::Vrfy(p) => CommandView::Vrfy(p@),
            SmtpCommand::Unknown => CommandView::Unknown,
        }
    }
}

/// The command that an already lowercased line names: the first keyword it begins
/// with decides, and each command carries its fixed placeholder text.
pub open spec fn keyword_command(lower: Seq<char>) -> CommandView {
    if "ehlo"@.is_prefix_of(lower) {
        CommandView::Ehlo("Hellow!"@)
    } else if "helo"@.is_prefix_of(lower) {
        CommandView::Helo("Hellow!"@)
    } else if "mail"@.is_prefix_of(lower) {
        CommandView::MailFrom("Mail from"@)
    } else if "rcpt"@.is_prefix_of(lower) {
        CommandView::RcptTo(""@)
    } else if "data"@.is_prefix_of(lower) {
        CommandView::Data(""@)
    } else if "rset"@.is_prefix_of(lower) {
        CommandView::Rset
    } else if "noop"@.is_prefix_of(lower) {
        CommandView::Noop
    } else if "quit"@.is_prefix_of(lower) {
        CommandView::Quit
    } else if "vrfy"@.is_prefix_of(lower) {
        CommandView::Vrfy(""@)
    } else {
        CommandView::Unknown
    }
}

impl SmtpCommand {
    /// Classifies a command line by its keyword, matched on the line's Unicode
    /// lowercase form.
    pub fn from(string: String) -> (r: Self)
        ensures
            r@ == keyword_command(unicode_lowercase(string@)),
            lowercase_agrees(string@, unicode_lowercase(string@)),
    {
        let lower = to_lowercase(string.as_str());
        Self::from_keyword(lower.as_str())
    }

    /// The command that the already lowercased line `lower` names.
    pub fn from_keyword(lower: &str) -> (r: Self)
        ensures
            r@ == keyword_command(lower@),
    {
        proof {
            reveal_strlit("");
        }
        assert(""@ =~= Seq::<char>::empty());
        if str_starts_with(lower, "ehlo") {
            SmtpCommand::Ehlo(String::from_str("Hellow!"))
        } else if str_starts_with(lower, "helo") {
            SmtpCommand::Helo(String::from_str("Hellow!"))
        } else if str_starts_with(lower, "mail") {
            SmtpCommand::MailFrom(String::from_str("Mail from"))
        } else if str_starts_with(lower, "rcpt") {
            SmtpCommand::RcptTo(String::new())
        } else if str_starts_with(lower, "data") {
            SmtpCommand::Data(String::new())
        } else if str_starts_with(lower, "rset") {
            SmtpCommand::Rset
        } else if str_starts_with(lower, "noop") {
            SmtpCommand::Noop
        } else if str_starts_with(lower, "quit") {
            SmtpCommand::Quit
        } else if str_starts_with(lower, "vrfy") {
            SmtpCommand::Vrfy(String::new())
        } else {
            SmtpCommand::Unknown
        }
    }
}

} // verus!
