//! The client side of the wire format: replies in, commands out.
use vstd::prelude::*;
use vstd::slice::slice_subrange;
use vstd::string::*;
use vstd::utf8::{decode_utf8, encode_utf8, is_char_boundary};
use crate::command::smtp_command::{CommandView, SmtpCommand};
use crate::io::smtp_codec::SmtpCodec;
use crate::io::smtp_response::{ResponseView, SmtpResponse};
use crate::scan::{append_bytes, crlf, find_from, find_pattern, lemma_find_from};
use crate::text::{parse_u16, parse_u16_str, str_get_from, lossy_utf8, string_from_utf8_lossy};

verus! {

broadcast use vstd::utf8::group_utf8_lib;

/// Why a byte stream is not a valid exchange.
#[derive(Debug, Clone, Copy, PartialEq, Eq, Structural)]
pub enum CodecError {
    /// A reply line does not begin with a status code.
    InvalidStatusCode,
    /// The lines of one multiline reply carry different codes.
    InconsistentStatusCodes,
    /// A reply line has neither ` ` nor `-` after its code.
    MalformedSeparator,
    /// The command has no wire form.
    InvalidCommand,
}

impl CodecError {
    /// The text that describes the error.
    pub fn message(&self) -> (r: &'static str)
        ensures
            r == codec_error_message(*self),
    {
        match self {
            CodecError::InvalidStatusCode => "Invalid status code",
            CodecError::InconsistentStatusCodes => "Inconsistent multiline status codes",
            CodecError::MalformedSeparator => "Malformed response separator",
            CodecError::InvalidCommand => "Invalid SMTP command",
        }
    }
}

/// The text that describes a codec error.
pub open spec fn codec_error_message(e: CodecError) -> &'static str {
    match e {
        CodecError::InvalidStatusCode => "Invalid status code",
        CodecError::InconsistentStatusCodes => "Inconsistent multiline status codes",
        CodecError::MalformedSeparator => "Malformed response separator",
        CodecError::InvalidCommand => "Invalid SMTP command",
    }
}

/// The outcome of decoding a reply from buffered bytes.
pub enum ReplyDecode {
    /// No whole reply is buffered yet.
    Incomplete,
    /// A reply, and how many bytes it took.
    Complete(int, ResponseView),
    /// The bytes are not a valid reply.
    Failed(CodecError),
    /// A reply line is too short, or its code or separator falls inside a character:
    /// the decoder cannot go on.
    Aborted,
}

/// Decodes the reply lines of `buf` from byte `start` on, with the code of the lines
/// decoded so far (`None` before the first line) and their texts.
/// A line is `code sep text CRLF`, read from its lossy UTF-8 decoding: the code is the
/// first three bytes read as a `u16`, the separator byte four, the text the rest. A space
/// separator ends the reply.
pub open spec fn decode_reply_from(
    buf: Seq<u8>,
    start: int,
    code: Option<u16>,
    lines: Seq<Seq<char>>,
) -> ReplyDecode
    decreases buf.len() + 1 - start,
{
    if start < 0 {
        ReplyDecode::Incomplete
    } else {
        match find_from(buf, crlf(), start) {
            None => ReplyDecode::Incomplete,
            Some(p) => {
                proof {
                    lemma_find_from(buf, crlf(), start);
                }
                let b = encode_utf8(lossy_utf8(buf.subrange(start, p)));
                if !is_char_boundary(b, 3) {
                    ReplyDecode::Aborted
                } else {
                    match parse_u16(decode_utf8(b.take(3))) {
                        None => ReplyDecode::Failed(CodecError::InvalidStatusCode),
                        Some(this_code) => {
                            if b.len() <= 3 || !is_char_boundary(b, 4) {
                                ReplyDecode::Aborted
                            } else if code is Some && code != Some(this_code) {
                                ReplyDecode::Failed(CodecError::InconsistentStatusCodes)
                            } else {
                                let lines2 = lines.push(decode_utf8(b.skip(4)));
                                if b[3] == 32u8 {
                                    ReplyDecode::Complete(
                                        p + 2,
                                        if lines2.len() == 1 {
                                            ResponseView::SingleLine(this_code, lines2[0])
                                        } else {
                                            ResponseView::Multiline(this_code, lines2)
                                        },
                                    )
                                } else if b[3] != 45u8 {
                                    ReplyDecode::Failed(CodecError::MalformedSeparator)
                                } else {
                                    decode_reply_from(buf, p + 2, Some(this_code), lines2)
                                }
                            }
                        },
                    }
                }
            },
        }
    }
}

/// Decodes the reply at the front of `buf`.
pub open spec fn decode_reply(buf: Seq<u8>) -> ReplyDecode {
    decode_reply_from(buf, 0, None, Seq::empty())
}

/// The model of a decoder result; `None` stands for `Aborted`.
pub open spec fn reply_decode_view(
    r: Option<Result<Option<(usize, SmtpResponse)>, CodecError>>,
) -> ReplyDecode {
    match r {
        None => ReplyDecode::Aborted,
        Some(Err(e)) => ReplyDecode::Failed(e),
        Some(Ok(None)) => ReplyDecode::Incomplete,
        Some(Ok(Some((n, resp)))) => ReplyDecode::Complete(n as int, resp@),
    }
}

/// A command line: `prefix`, the argument, and `suffix`, encoded in UTF-8.
pub open spec fn command_line(prefix: Seq<char>, arg: Seq<char>, suffix: Seq<char>) -> Seq<u8> {
    encode_utf8(prefix) + encode_utf8(arg) + encode_utf8(suffix)
}

/// The bytes that send a command; `None` for a command with no wire form.
pub open spec fn encode_command(c: CommandView) -> Option<Seq<u8>> {
    match c {
        CommandView::Helo(domain) => Some(command_line("HELO "@, domain, "\r\n"@)),
        CommandView::Ehlo(domain) => Some(command_line("EHLO "@, domain, "\r\n"@)),
        CommandView::Mail(from) => Some(command_line("MAIL FROM:<"@, from, ">\r\n"@)),
        CommandView::Rcpt(to) => Some(command_line("RCPT TO:<"@, to, ">\r\n"@)),
        CommandView::Data => Some(encode_utf8("DATA\r\n"@)),
        CommandView::Noop => Some(encode_utf8("NOOP\r\n"@)),
        CommandView::Quit => Some(encode_utf8("QUIT\r\n"@)),
        CommandView::Rset => Some(encode_utf8("RSET\r\n"@)),
        CommandView::Vrfy(param) => Some(command_line("VRFY "@, param, "\r\n"@)),
        CommandView::Starttls => Some(encode_utf8("STARTTLS\r\n"@)),
        CommandView::Auth(auth_type) => Some(command_line("AUTH "@, auth_type, "\r\n"@)),
        CommandView::DataEnd(content) => Some(content + encode_utf8("\r\n.\r\n"@)),
        CommandView::Unknown => None,
    }
}

/// Appends a command line made of `prefix`, `arg` and `suffix`.
fn push_command_line(dst: &mut Vec<u8>, prefix: &str, arg: &str, suffix: &str)
    ensures
        final(dst)@ == old(dst)@ + command_line(prefix@, arg@, suffix@),
{
    append_bytes(dst, prefix.as_bytes());
    append_bytes(dst, arg.as_bytes());
    append_bytes(dst, suffix.as_bytes());
    assert(final(dst)@ =~= old(dst)@ + command_line(prefix@, arg@, suffix@));
}

impl SmtpCodec<SmtpResponse, SmtpCommand> {
    /// Appends the wire form of a command to `dst`; fails on a command that has none.
    pub fn encode(&mut self, item: SmtpCommand, dst: &mut Vec<u8>) -> (r: Result<(), CodecError>)
        ensures
            *final(self) == *old(self),
            match encode_command(item@) {
                Some(bytes) => r is Ok && final(dst)@ == old(dst)@ + bytes,
                None => r == Err::<(), CodecError>(CodecError::InvalidCommand) && final(dst)@ == old(dst)@,
            },
    {
        match item {
            SmtpCommand::Helo(domain) => push_command_line(dst, "HELO ", domain.as_str(), "\r\n"),
            SmtpCommand::Ehlo(domain) => push_command_line(dst, "EHLO ", domain.as_str(), "\r\n"),
            SmtpCommand::Mail(from) => push_command_line(dst, "MAIL FROM:<", from.as_str(), ">\r\n"),
            SmtpCommand::Rcpt(to) => push_command_line(dst, "RCPT TO:<", to.as_str(), ">\r\n"),
            SmtpCommand::Data => append_bytes(dst, "DATA\r\n".as_bytes()),
            SmtpCommand::Noop => append_bytes(dst, "NOOP\r\n".as_bytes()),
            SmtpCommand::Quit => append_bytes(dst, "QUIT\r\n".as_bytes()),
            SmtpCommand::Rset => append_bytes(dst, "RSET\r\n".as_bytes()),
            SmtpCommand::Vrfy(param) => push_command_line(dst, "VRFY ", param.as_str(), "\r\n"),
            SmtpCommand::Starttls => append_bytes(dst, "STARTTLS\r\n".as_bytes()),
            SmtpCommand::Auth(auth_type) => push_command_line(dst, "AUTH ", auth_type.as_str(), "\r\n"),
            SmtpCommand::DataEnd(content) => {
                append_bytes(dst, content.as_slice());
                append_bytes(dst, "\r\n.\r\n".as_bytes());
            },
            _ => {
                return Err(CodecError::InvalidCommand);
            },
        }
        Ok(())
    }

    /// Decodes the reply at the front of `src`: its lines up to the one with a space after
    /// the code. `Ok(Some((n, reply)))` takes `n` bytes; `Ok(None)` waits for more;
    /// `None` where a line is too short to hold a code and a separator, or its code or
    /// separator falls inside a character, so that the decoder cannot go on.
    pub fn decode(&mut self, src: &[u8]) -> (r: Option<Result<Option<(usize, SmtpResponse)>, CodecError>>)
        ensures
            reply_decode_view(r) == decode_reply(src@),
            *final(self) == *old(self),
    {
        let total_len = src.len();
        let mut lines: Vec<String> = Vec::new();
        let mut total_consumed: usize = 0;
        let mut code: Option<u16> = None;
        let pat: &[u8] = &[13u8, 10u8];
        assert(pat@ =~= crlf());
        assert(lines@.map_values(|l: String| l@) =~= Seq::<Seq<char>>::empty());
        loop
            invariant
                total_len == src@.len(),
                pat@ == crlf(),
                total_consumed <= total_len,
                code is None <==> lines@.len() == 0,
                decode_reply(src@) == decode_reply_from(
                    src@,
                    total_consumed as int,
                    code,
                    lines@.map_values(|l: String| l@),
                ),
            ensures
                decode_reply(src@) is Incomplete,
            decreases total_len - total_consumed,
        {
            let ghost texts = lines@.map_values(|l: String| l@);
            match find_pattern(src, pat, total_consumed) {
                Some(pos) => {
                    proof {
                        lemma_find_from(src@, crlf(), total_consumed as int);
                    }
                    let line = slice_subrange(src, total_consumed, pos);
                    total_consumed = pos + 2;
                    let line_str = string_from_utf8_lossy(line);
                    let ghost b = encode_utf8(line_str@);
                    if !line_str.as_str().is_char_boundary(3) {
                        return None;
                    }
                    let (head, _tail) = line_str.as_str().split_at(3);
                    assert(head@ == decode_utf8(b.take(3))) by {
                        assert(head@ == decode_utf8(encode_utf8(head@)));
                        assert(b.subrange(0, 3) =~= b.take(3));
                    }
                    let this_code = match parse_u16_str(head) {
                        Some(c) => c,
                        None => {
                            return Some(Err(CodecError::InvalidStatusCode));
                        },
                    };
                    let bytes = line_str.as_str().as_bytes();
                    if bytes.len() <= 3 {
                        return None;
                    }
                    let sep = bytes[3];
                    let message = match str_get_from(line_str.as_str(), 4) {
                        Some(m) => String::from_str(m),
                        None => {
                            return None;
                        },
                    };
                    assert(message@ == decode_utf8(b.skip(4))) by {
                        assert(b.subrange(4, b.len() as int) =~= b.skip(4));
                    }
                    match code {
                        None => {
                            code = Some(this_code);
                        },
                        Some(c) => {
                            if c != this_code {
                                return Some(Err(CodecError::InconsistentStatusCodes));
                            }
                        },
                    }
                    lines.push(message);
                    proof {
                        assert(lines@.map_values(|l: String| l@) =~= texts.push(message@));
                    }
                    if sep == 32u8 {
                        let first = match code {
                            Some(c) => c,
                            None => this_code,
                        };
                        if lines.len() == 1 {
                            let only = lines.remove(0);
                            return Some(Ok(Some((total_consumed, SmtpResponse::SingleLine(first, only)))));
                        } else {
                            return Some(Ok(Some((total_consumed, SmtpResponse::Multiline(first, lines)))));
                        }
                    } else if sep != 45u8 {
                        return Some(Err(CodecError::MalformedSeparator));
                    }
                },
                None => {
                    break;
                },
            }
        }
        Some(Ok(None))
    }
}

} // verus!
