//! Replies that a server sends.
use vstd::prelude::*;

verus! {

/// An SMTP reply: a status code with one text line, or with several.
#[derive(Debug, PartialEq, Eq)]
pub enum SmtpResponse {
    SingleLine(u16, String),
    Multiline(u16, Vec<String>),
}

/// The mathematical model of a reply.
pub enum ResponseView {
    SingleLine(u16, Seq<char>),
    Multiline(u16, Seq<Seq<char>>),
}

impl View for SmtpResponse {
    type V = ResponseView;

    open spec fn view(&self) -> ResponseView {
        match self {
            SmtpResponse::SingleLine(code, message) => ResponseView::SingleLine(*code, message@),
            SmtpResponse::Multiline(code, lines) => ResponseView::Multiline(
                *code,
                lines@.map_values(|l: String| l@),
            ),
        }
    }
}

} // verus!
