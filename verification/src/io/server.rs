//! The server side of the wire format: command lines and mail data in, replies out.
use vstd::prelude::*;
use vstd::slice::{slice_subrange, slice_to_vec};
use crate::command::smtp_command::{command_from_line, CommandView, SmtpCommand};
use crate::io::codec_state::CodecState;
use crate::io::smtp_codec::SmtpCodec;
use crate::io::smtp_response::{ResponseView, SmtpResponse};
use crate::scan::{append_bytes, crlf, decimal, find_from, find_pattern, lemma_find_from, push_decimal};
use crate::text::{lossy_utf8, lowercase_agrees, string_from_utf8_lossy, unicode_lowercase};
use vstd::utf8::encode_utf8;

verus! {

/// The bytes `<CR><LF>.<CR><LF>` that end the mail data.
pub open spec fn data_terminator() -> Seq<u8> {
    seq![13u8, 10u8, 46u8, 13u8, 10u8]
}

/// One step of the command decoder in mode `state` on the buffered bytes `buf`: the
/// number of bytes taken and the command decoded, if a whole item is buffered, and the
/// mode afterwards.
pub open spec fn decode_command(state: CodecState, buf: Seq<u8>) -> (
    Option<(int, CommandView)>,
    CodecState,
) {
    match state {
        CodecState::Regular => match find_from(buf, crlf(), 0) {
            None => (None, CodecState::Regular),
            Some(p) => {
                let c = command_from_line(lossy_utf8(buf.take(p)));
                (Some((p + 2, c)), if c is Data {
                    CodecState::Data
                } else {
                    CodecState::Regular
                })
            },
        },
        CodecState::Data => match find_from(buf, data_terminator(), 0) {
            None => (None, CodecState::Data),
            Some(p) => (Some((p + 5, CommandView::DataEnd(buf.take(p)))), CodecState::Regular),
        },
    }
}

/// The model of a decoder result.
pub open spec fn decoded_command_view(r: Option<(usize, SmtpCommand)>) -> Option<(int, CommandView)> {
    match r {
        None => None,
        Some((n, c)) => Some((n as int, c@)),
    }
}

/// One reply line: the code, the separator byte, the text, and CRLF.
pub open spec fn reply_line(code: u16, sep: u8, text: Seq<char>) -> Seq<u8> {
    decimal(code as nat) + seq![sep] + encode_utf8(text) + crlf()
}

/// The lines of a multiline reply: `-` after the code on each line but the last,
/// a space on the last.
pub open spec fn reply_lines(code: u16, lines: Seq<Seq<char>>) -> Seq<u8>
    decreases lines.len(),
{
    if lines.len() == 0 {
        Seq::empty()
    } else if lines.len() == 1 {
        reply_line(code, 32u8, lines[0])
    } else {
        reply_line(code, 45u8, lines[0]) + reply_lines(code, lines.drop_first())
    }
}

/// The bytes that encode a reply.
pub open spec fn encode_response(r: ResponseView) -> Seq<u8> {
    match r {
        ResponseView::SingleLine(code, text) => reply_line(code, 32u8, text),
        ResponseView::Multiline(code, lines) => reply_lines(code, lines),
    }
}

/// Appends one reply line.
fn push_reply_line(dst: &mut Vec<u8>, code: u16, sep: u8, text: &str)
    ensures
        final(dst)@ == old(dst)@ + reply_line(code, sep, text@),
{
    push_decimal(dst, code as u64);
    dst.push(sep);
    append_bytes(dst, text.as_bytes());
    dst.push(13u8);
    dst.push(10u8);
    proof {
        assert(final(dst)@ =~= old(dst)@ + reply_line(code, sep, text@));
    }
}

impl SmtpCodec<SmtpCommand, SmtpResponse> {
    /// Decodes the next command from the buffered bytes `src`: in command mode a line
    /// ending in CRLF, in data mode the mail data up to `<CRLF>.<CRLF>`. Returns the
    /// number of bytes taken with the command, or `None` while no whole item is
    /// buffered. A `DATA` command switches to data mode; the data switches back.
    pub fn decode(&mut self, src: &[u8]) -> (r: Option<(usize, SmtpCommand)>)
        ensures
            decode_command(old(self).codec_state, src@) == (
                decoded_command_view(r),
                final(self).codec_state,
            ),
            old(self).codec_state == CodecState::Regular ==> (find_from(src@, crlf(), 0) matches Some(
                p,
            ) ==> lowercase_agrees(
                lossy_utf8(src@.take(p)),
                unicode_lowercase(lossy_utf8(src@.take(p))),
            )),
    {
        let total = src.len();
        match self.codec_state {
            CodecState::Regular => {
                let pat: &[u8] = &[13u8, 10u8];
                assert(pat@ =~= crlf());
                match find_pattern(src, pat, 0) {
                    Some(position) => {
                        proof {
                            lemma_find_from(src@, crlf(), 0);
                        }
                        let head = slice_subrange(src, 0, position);
                        assert(head@ =~= src@.take(position as int));
                        let line = string_from_utf8_lossy(head);
                        let command = SmtpCommand::from(line);
                        if let SmtpCommand::Data = &command {
                            self.codec_state = CodecState::Data;
                        }
                        Some((position + 2, command))
                    },
                    None => None,
                }
            },
            CodecState::Data => {
                let pat: &[u8] = &[13u8, 10u8, 46u8, 13u8, 10u8];
                assert(pat@ =~= data_terminator());
                match find_pattern(src, pat, 0) {
                    Some(position) => {
                        proof {
                            lemma_find_from(src@, data_terminator(), 0);
                        }
                        let mail_bytes = slice_to_vec(slice_subrange(src, 0, position));
                        self.codec_state = CodecState::Regular;
                        Some((position + 5, SmtpCommand::DataEnd(mail_bytes)))
                    },
                    None => None,
                }
            },
        }
    }

    /// Appends the encoding of a reply to `dst`: `code SP text CRLF`, or one line per
    /// text with `-` after the code on all but the last.
    pub fn encode(&mut self, item: SmtpResponse, dst: &mut Vec<u8>)
        ensures
            final(dst)@ == old(dst)@ + encode_response(item@),
            *final(self) == *old(self),
    {
        match item {
            SmtpResponse::SingleLine(code, message) => {
                push_reply_line(dst, code, 32u8, message.as_str());
            },
            SmtpResponse::Multiline(code, lines) => {
                let n = lines.len();
                let ghost texts = lines@.map_values(|l: String| l@);
                let mut i: usize = 0;
                assert(texts.skip(0) =~= texts);
                while i < n
                    invariant
                        n == lines@.len(),
                        texts == lines@.map_values(|l: String| l@),
                        i <= n,
                        dst@ + reply_lines(code, texts.skip(i as int)) == old(dst)@
                            + reply_lines(code, texts),
                    decreases n - i,
                {
                    let sep: u8 = if i == n - 1 {
                        32u8
                    } else {
                        45u8
                    };
                    proof {
                        let rest = texts.skip(i as int);
                        assert(rest.drop_first() =~= texts.skip(i + 1));
                        assert(rest[0] == lines@[i as int]@);
                        if i == n - 1 {
                            assert(texts.skip(i + 1).len() == 0);
                        }
                    }
                    push_reply_line(dst, code, sep, lines[i].as_str());
                    proof {
                        assert(reply_lines(code, texts.skip((i + 1) as int)) == Seq::<u8>::empty()
                            || i + 1 < n);
                    }
                    i = i + 1;
                }
                assert(texts.skip(n as int) =~= Seq::<Seq<char>>::empty());
                assert(dst@ =~= old(dst)@ + reply_lines(code, texts));
            },
        }
    }
}

} // verus!
