//! What the client decoder reads back of what the server encoder writes.
use vstd::prelude::*;
use vstd::utf8::*;
use crate::command::smtp_command::{command_from_line, command_from_lowercase, command_params, CommandView};
use crate::io::client::{decode_reply, decode_reply_from, encode_command, ReplyDecode};
use crate::io::codec_state::CodecState;
use crate::io::server::{data_terminator, decode_command, encode_response, reply_line, reply_lines};
use crate::io::smtp_response::ResponseView;
use crate::scan::{crlf, decimal, find_from, lemma_find_from_first, occurs_at};
use crate::text::{ascii_lowercase, lowercase_agrees, byte_suffix, digits_value, is_ascii_digit, lossy_utf8, parse_u16, trim, trim_start, unicode_lowercase};

verus! {

broadcast use vstd::utf8::group_utf8_lib;

/// Whether CRLF occurs anywhere in `b`.
pub open spec fn has_crlf(b: Seq<u8>) -> bool {
    exists|i: int| occurs_at(b, crlf(), i)
}

/// A reply text that can travel on one line: its UTF-8 encoding holds no CRLF.
pub open spec fn line_text_ok(t: Seq<char>) -> bool {
    !has_crlf(encode_utf8(t))
}

/// A reply that the encoder writes and the decoder reads back: a three-digit code, and
/// at least one line, none of whose texts holds CRLF.
pub open spec fn well_formed_reply(r: ResponseView) -> bool {
    match r {
        ResponseView::SingleLine(code, text) => 100 <= code <= 999 && line_text_ok(text),
        ResponseView::Multiline(code, lines) => 100 <= code <= 999 && lines.len() >= 1 && forall|
            i: int,
        | 0 <= i < lines.len() ==> line_text_ok(#[trigger] lines[i]),
    }
}

/// How the decoder presents a reply: a multiline reply of one line is a single-line one.
pub open spec fn canonical_reply(r: ResponseView) -> ResponseView {
    match r {
        ResponseView::Multiline(code, lines) => if lines.len() == 1 {
            ResponseView::SingleLine(code, lines[0])
        } else {
            r
        },
        _ => r,
    }
}

proof fn lemma_encode_utf8_concat(a: Seq<char>, b: Seq<char>)
    ensures
        encode_utf8(a + b) == encode_utf8(a) + encode_utf8(b),
    decreases a.len(),
{
    if a.len() == 0 {
        assert(a + b =~= b);
    } else {
        assert((a + b).drop_first() =~= a.drop_first() + b);
        lemma_encode_utf8_concat(a.drop_first(), b);
        assert((a + b)[0] == a[0]);
        assert(encode_utf8(a + b) =~= encode_utf8(a) + encode_utf8(b));
    }
}

proof fn lemma_decimal3(code: u16)
    requires
        100 <= code <= 999,
    ensures
        decimal(code as nat) == seq![
            (48 + code / 100) as u8,
            (48 + (code / 10) % 10) as u8,
            (48 + code % 10) as u8,
        ],
{
    let n = code as nat;
    assert(n / 10 >= 10);
    assert((n / 10) / 10 < 10);
    assert((n / 10) / 10 == n / 100);
    assert(decimal((n / 10) / 10) == seq![(48 + n / 100) as u8]);
    assert(decimal(n / 10) =~= seq![(48 + n / 100) as u8, (48 + (n / 10) % 10) as u8]);
    assert(decimal(n) =~= seq![
        (48 + n / 100) as u8,
        (48 + (n / 10) % 10) as u8,
        (48 + n % 10) as u8,
    ]);
}

proof fn lemma_first_byte_not_continuation(t: Seq<char>)
    requires
        t.len() > 0,
    ensures
        encode_utf8(t).len() > 0,
        !is_continuation_byte(encode_utf8(t)[0]),
{
    let b = encode_utf8(t);
    assert(valid_utf8(b));
    if b.len() == 0 {
        assert(decode_utf8(b) =~= Seq::<char>::empty());
        assert(false);
    }
    assert(valid_first_scalar(b));
}

/// The facts the decoder needs about one encoded reply line at `start` in `buf`.
proof fn lemma_reply_line(buf: Seq<u8>, start: int, code: u16, sep: u8, t: Seq<char>)
    requires
        100 <= code <= 999,
        sep == 32u8 || sep == 45u8,
        line_text_ok(t),
        0 <= start,
        start + reply_line(code, sep, t).len() <= buf.len(),
        buf.subrange(start, start + reply_line(code, sep, t).len()) == reply_line(code, sep, t),
    ensures
        ({
            let p = start + reply_line(code, sep, t).len() - 2;
            let b = encode_utf8(lossy_utf8(buf.subrange(start, p)));
            &&& find_from(buf, crlf(), start) == Some(p)
            &&& is_char_boundary(b, 3)
            &&& parse_u16(decode_utf8(b.take(3))) == Some(code)
            &&& b.len() > 3
            &&& is_char_boundary(b, 4)
            &&& b[3] == sep
            &&& decode_utf8(b.skip(4)) == t
        }),
{
    let et = encode_utf8(t);
    let line = reply_line(code, sep, t);
    let p = start + line.len() - 2;
    lemma_decimal3(code);
    let d = decimal(code as nat);
    let head_bytes = d + seq![sep];
    let h = Seq::new(4, |i: int| head_bytes[i] as char);
    assert(is_ascii_chars(h));
    assert(encode_utf8(h) =~= head_bytes) by {
        is_ascii_chars_encode_utf8(h);
    }
    let body = head_bytes + et;
    assert(line =~= body + crlf());
    assert(buf.subrange(start, p) =~= body);
    lemma_encode_utf8_concat(h, t);
    assert(body == encode_utf8(h + t));
    assert(lossy_utf8(body) == h + t);
    let b = body;
    // the first CRLF from `start` ends this line
    assert(occurs_at(buf, crlf(), p)) by {
        assert(buf[p] == line[p - start]);
        assert(buf[p + 1] == line[p + 1 - start]);
        assert(buf.subrange(p, p + 2) =~= crlf());
    }
    assert forall|k: int| start <= k < p implies !occurs_at(buf, crlf(), k) by {
        if occurs_at(buf, crlf(), k) {
            assert(buf[k] == 13u8 && buf[k + 1] == 10u8) by {
                assert(buf.subrange(k, k + 2)[0] == buf[k]);
                assert(buf.subrange(k, k + 2)[1] == buf[k + 1]);
            }
            if k + 1 == p {
                assert(buf[p] == 13u8) by {
                    assert(buf.subrange(p, p + 2)[0] == buf[p]);
                }
            } else if k < start + 4 {
                assert(buf[k] == line[k - start]);
                assert(line[k - start] == head_bytes[k - start]);
            } else {
                let j = k - start - 4;
                assert(buf[k] == et[j] && buf[k + 1] == et[j + 1]) by {
                    assert(buf[k] == line[k - start]);
                    assert(buf[k + 1] == line[k + 1 - start]);
                }
                assert(occurs_at(et, crlf(), j)) by {
                    assert(et.subrange(j, j + 2) =~= crlf());
                }
            }
        }
    }
    lemma_find_from_first(buf, crlf(), start, p);
    // code and separator boundaries
    assert(b[3] == sep);
    assert(!is_continuation_byte(b[3]));
    assert(is_char_boundary(b, 3));
    if t.len() > 0 {
        lemma_first_byte_not_continuation(t);
        assert(b[4] == et[0]);
        assert(is_char_boundary(b, 4));
    } else {
        assert(et.len() == 0);
        assert(b.len() == 4);
    }
    // the code
    assert(b.take(3) =~= encode_utf8(h.take(3))) by {
        is_ascii_chars_encode_utf8(h.take(3));
    }
    let digits = h.take(3);
    assert(decode_utf8(b.take(3)) == digits);
    assert(forall|i: int| 0 <= i < 3 ==> is_ascii_digit(#[trigger] digits[i]));
    assert(digits[0] != '+');
    let d1 = digits.drop_last();
    let d2 = d1.drop_last();
    let d3 = d2.drop_last();
    assert(d3 =~= Seq::<char>::empty());
    assert(digits[0] as nat == 48 + code / 100);
    assert(digits[1] as nat == 48 + (code / 10) % 10);
    assert(digits[2] as nat == 48 + code % 10);
    assert(digits_value(d3) == 0);
    assert(digits_value(d2) == (code / 100) as nat);
    assert(digits_value(d1) == (code / 100) as nat * 10 + ((code / 10) % 10) as nat);
    assert(digits_value(digits) == code as nat);
    // the text
    assert(b.skip(4) =~= et);
}

proof fn lemma_reply_lines_len(code: u16, ts: Seq<Seq<char>>)
    requires
        ts.len() >= 2,
    ensures
        reply_lines(code, ts) == reply_line(code, 45u8, ts[0]) + reply_lines(code, ts.drop_first()),
{
}

/// Decoding the lines of a multiline reply at `start`, with `seen` lines of the same
/// code before them.
proof fn lemma_reply_lines(
    buf: Seq<u8>,
    start: int,
    code: u16,
    ts: Seq<Seq<char>>,
    prior: Option<u16>,
    seen: Seq<Seq<char>>,
)
    requires
        100 <= code <= 999,
        ts.len() >= 1,
        forall|i: int| 0 <= i < ts.len() ==> line_text_ok(#[trigger] ts[i]),
        prior is None <==> seen.len() == 0,
        prior is Some ==> prior == Some(code),
        0 <= start,
        start + reply_lines(code, ts).len() <= buf.len(),
        buf.subrange(start, start + reply_lines(code, ts).len()) == reply_lines(code, ts),
    ensures
        decode_reply_from(buf, start, prior, seen) == ReplyDecode::Complete(
            start + reply_lines(code, ts).len(),
            if seen.len() + ts.len() == 1 {
                ResponseView::SingleLine(code, ts[0])
            } else {
                ResponseView::Multiline(code, seen + ts)
            },
        ),
    decreases ts.len(),
{
    let sep: u8 = if ts.len() == 1 {
        32u8
    } else {
        45u8
    };
    let first = reply_line(code, sep, ts[0]);
    assert(reply_lines(code, ts).subrange(0, first.len() as int) == first) by {
        if ts.len() >= 2 {
            lemma_reply_lines_len(code, ts);
        }
    }
    assert(buf.subrange(start, start + first.len()) == first) by {
        assert(buf.subrange(start, start + first.len()) =~= reply_lines(code, ts).subrange(
            0,
            first.len() as int,
        ));
    }
    lemma_reply_line(buf, start, code, sep, ts[0]);
    let p = start + first.len() - 2;
    if ts.len() == 1 {
        assert(seen.push(ts[0]) =~= seen + ts);
    } else {
        lemma_reply_lines_len(code, ts);
        let rest = ts.drop_first();
        let next = start + first.len();
        assert(buf.subrange(next, next + reply_lines(code, rest).len()) =~= reply_lines(
            code,
            rest,
        )) by {
            assert(buf.subrange(next, next + reply_lines(code, rest).len()) =~= reply_lines(
                code,
                ts,
            ).subrange(first.len() as int, reply_lines(code, ts).len() as int));
        }
        assert forall|i: int| 0 <= i < rest.len() implies line_text_ok(#[trigger] rest[i]) by {
            assert(rest[i] == ts[i + 1]);
        }
        lemma_reply_lines(buf, next, code, rest, Some(code), seen.push(ts[0]));
        assert(seen.push(ts[0]) + rest =~= seen + ts);
    }
}

/// Round trip of replies: whatever bytes follow, the client decoder reads back from the
/// front of the server encoder's output the reply that was encoded (a multiline reply
/// of one line as a single-line one), and takes exactly its bytes.
pub proof fn law_reply_round_trip(r: ResponseView, rest: Seq<u8>)
    requires
        well_formed_reply(r),
    ensures
        decode_reply(encode_response(r) + rest) == ReplyDecode::Complete(
            encode_response(r).len() as int,
            canonical_reply(r),
        ),
{
    let buf = encode_response(r) + rest;
    let n = encode_response(r).len() as int;
    assert(buf.subrange(0, n) =~= encode_response(r));
    match r {
        ResponseView::SingleLine(code, text) => {
            let ts = seq![text];
            assert(reply_lines(code, ts) == reply_line(code, 32u8, text));
            lemma_reply_lines(buf, 0, code, ts, None, Seq::empty());
            assert(ts[0] == text);
        },
        ResponseView::Multiline(code, lines) => {
            lemma_reply_lines(buf, 0, code, lines, None, Seq::empty());
            assert(Seq::<Seq<char>>::empty() + lines =~= lines);
        },
    }
}

/// Round trip of mail data: the server decoder in data mode reads back the mail data that
/// the client encoder sent, whatever bytes follow, and returns to command mode, provided
/// that `<CRLF>.<CRLF>` does not begin inside the data.
pub proof fn law_data_round_trip(content: Seq<u8>, rest: Seq<u8>)
    requires
        forall|k: int|
            0 <= k < content.len() ==> !occurs_at(content + data_terminator(), data_terminator(), k),
    ensures
        encode_command(CommandView::DataEnd(content)) matches Some(wire) && decode_command(
            CodecState::Data,
            wire + rest,
        ) == (Some((wire.len() as int, CommandView::DataEnd(content))), CodecState::Regular),
{
    reveal_strlit("\r\n.\r\n");
    let term = data_terminator();
    let lit = "\r\n.\r\n"@;
    assert(is_ascii_chars(lit));
    is_ascii_chars_encode_utf8(lit);
    assert(encode_utf8(lit) =~= term);
    let wire = content + term;
    let buf = wire + rest;
    let n = content.len() as int;
    assert(buf.subrange(n, n + 5) =~= term);
    assert forall|k: int| 0 <= k < n implies !occurs_at(buf, term, k) by {
        assert(!occurs_at(content + data_terminator(), data_terminator(), k));
        assert(buf.subrange(k, k + 5) =~= wire.subrange(k, k + 5));
    }
    lemma_find_from_first(buf, term, 0, n);
    assert(buf.take(n) =~= content);
}


/// The line (without its CRLF) that the client sends for a command whose line the server
/// reads back as the same command: HELO, EHLO, VRFY and AUTH with their parameter, and
/// DATA, NOOP, QUIT, RSET and STARTTLS.
pub open spec fn sent_line(c: CommandView) -> Option<Seq<char>> {
    match c {
        CommandView::Helo(d) => Some("HELO "@ + d),
        CommandView::Ehlo(d) => Some("EHLO "@ + d),
        CommandView::Vrfy(d) => Some("VRFY "@ + d),
        CommandView::Auth(d) => Some("AUTH "@ + d),
        CommandView::Data => Some("DATA"@),
        CommandView::Noop => Some("NOOP"@),
        CommandView::Quit => Some("QUIT"@),
        CommandView::Rset => Some("RSET"@),
        CommandView::Starttls => Some("STARTTLS"@),
        _ => None,
    }
}

/// The lowercase keyword by which the server recognises a command.
pub open spec fn keyword_of(c: CommandView) -> Seq<char> {
    match c {
        CommandView::Helo(_) => "helo"@,
        CommandView::Ehlo(_) => "ehlo"@,
        CommandView::Vrfy(_) => "vrfy"@,
        CommandView::Auth(_) => "auth"@,
        CommandView::Data => "data"@,
        CommandView::Noop => "noop"@,
        CommandView::Quit => "quit"@,
        CommandView::Rset => "rset"@,
        CommandView::Starttls => "starttls"@,
        _ => Seq::empty(),
    }
}

/// The parameter a command carries on its line (empty for one without).
pub open spec fn sent_param(c: CommandView) -> Seq<char> {
    match c {
        CommandView::Helo(d) => d,
        CommandView::Ehlo(d) => d,
        CommandView::Vrfy(d) => d,
        CommandView::Auth(d) => d,
        _ => Seq::empty(),
    }
}

/// An ASCII text without CR followed by any text whose encoding holds no CRLF holds no
/// CRLF.
proof fn lemma_no_crlf_concat(v: Seq<char>, d: Seq<char>)
    requires
        is_ascii_chars(v),
        forall|i: int| 0 <= i < v.len() ==> v[i] != '\r',
        line_text_ok(d),
    ensures
        line_text_ok(v + d),
{
    let ev = encode_utf8(v);
    let ed = encode_utf8(d);
    lemma_encode_utf8_concat(v, d);
    is_ascii_chars_encode_utf8(v);
    let b = ev + ed;
    assert forall|k: int| !occurs_at(b, crlf(), k) by {
        if occurs_at(b, crlf(), k) {
            assert(b[k] == 13u8 && b[k + 1] == 10u8) by {
                assert(b.subrange(k, k + 2)[0] == b[k]);
                assert(b.subrange(k, k + 2)[1] == b[k + 1]);
            }
            if k < ev.len() {
                assert(v[k] as u8 == ev[k]);
                assert(v[k] == '\r');
            } else {
                let j = k - ev.len();
                assert(b[k] == ed[j] && b[k + 1] == ed[j + 1]);
                assert(occurs_at(ed, crlf(), j)) by {
                    assert(ed.subrange(j, j + 2) =~= crlf());
                }
            }
        }
    }
}

/// The server decoder finds the end of a line without CRLF sent with a CRLF, and reads the
/// line back.
proof fn lemma_line_decode(line: Seq<char>, rest: Seq<u8>)
    requires
        line_text_ok(line),
    ensures
        ({
            let el = encode_utf8(line);
            let buf = el + crlf() + rest;
            &&& find_from(buf, crlf(), 0) == Some(el.len() as int)
            &&& lossy_utf8(buf.take(el.len() as int)) == line
        }),
{
    let el = encode_utf8(line);
    let buf = el + crlf() + rest;
    let p = el.len() as int;
    assert(occurs_at(buf, crlf(), p)) by {
        assert(buf.subrange(p, p + 2) =~= crlf());
    }
    assert forall|k: int| 0 <= k < p implies !occurs_at(buf, crlf(), k) by {
        if occurs_at(buf, crlf(), k) {
            assert(buf[k] == 13u8 && buf[k + 1] == 10u8) by {
                assert(buf.subrange(k, k + 2)[0] == buf[k]);
                assert(buf.subrange(k, k + 2)[1] == buf[k + 1]);
            }
            if k + 1 == p {
                assert(buf[p] == 13u8);
            } else {
                assert(buf[k] == el[k] && buf[k + 1] == el[k + 1]);
                assert(occurs_at(el, crlf(), k)) by {
                    assert(el.subrange(k, k + 2) =~= crlf());
                }
            }
        }
    }
    lemma_find_from_first(buf, crlf(), 0, p);
    assert(buf.take(p) =~= el);
}

/// The characters of an ASCII text of at least four characters followed by `d`, from
/// byte four on.
proof fn lemma_suffix_after_verb(v: Seq<char>, d: Seq<char>)
    requires
        is_ascii_chars(v),
        v.len() >= 4,
    ensures
        byte_suffix(v + d, 4) == Some(v.skip(4) + d),
{
    let head = v.take(4);
    let tail = v.skip(4) + d;
    assert(v + d =~= head + tail);
    lemma_encode_utf8_concat(head, tail);
    assert(is_ascii_chars(head));
    is_ascii_chars_encode_utf8(head);
    let eh = encode_utf8(head);
    let et = encode_utf8(tail);
    let b = eh + et;
    assert(eh.len() == 4);
    if tail.len() > 0 {
        lemma_first_byte_not_continuation(tail);
        assert(b[4] == et[0]);
        assert(is_char_boundary(b, 4));
    } else {
        assert(et.len() == 0);
        assert(b.len() == 4);
        assert(is_char_boundary(b, 4));
    }
    assert(b.subrange(4, b.len() as int) =~= et);
}

/// A lowercased line that begins with a command's keyword names that command: no keyword
/// tried before it matches.
proof fn lemma_keyword_decides(c: CommandView, lower: Seq<char>, params: Seq<char>)
    requires
        sent_line(c) is Some,
        keyword_of(c).is_prefix_of(lower),
        (c is Helo || c is Ehlo || c is Vrfy || c is Auth) ==> params == sent_param(c),
    ensures
        command_from_lowercase(lower, params) == c,
{
    reveal_strlit("helo");
    reveal_strlit("ehlo");
    reveal_strlit("vrfy");
    reveal_strlit("auth");
    reveal_strlit("data");
    reveal_strlit("noop");
    reveal_strlit("quit");
    reveal_strlit("rset");
    reveal_strlit("mail");
    reveal_strlit("rcpt");
    reveal_strlit("starttls");
    let kw = keyword_of(c);
    assert(lower[0] == kw[0] && lower[1] == kw[1]) by {
        assert(lower.subrange(0, kw.len() as int)[0] == lower[0]);
        assert(lower.subrange(0, kw.len() as int)[1] == lower[1]);
    }
    assert(kw.len() >= 4);
    assert(lower.subrange(0, 4) =~= kw.subrange(0, 4));
    assert(forall|w: Seq<char>| w.len() == 4 && #[trigger] w.is_prefix_of(lower) ==> w =~= kw.subrange(0, 4)) by {
        assert forall|w: Seq<char>| w.len() == 4 && #[trigger] w.is_prefix_of(lower) implies w =~= kw.subrange(0, 4) by {
            assert(w =~= lower.subrange(0, 4));
        }
    }
    assert(kw.subrange(0, 4) == match c {
        CommandView::Helo(_) => "helo"@,
        CommandView::Ehlo(_) => "ehlo"@,
        CommandView::Vrfy(_) => "vrfy"@,
        CommandView::Auth(_) => "auth"@,
        CommandView::Data => "data"@,
        CommandView::Noop => "noop"@,
        CommandView::Quit => "quit"@,
        CommandView::Rset => "rset"@,
        _ => "star"@,
    }) by {
        reveal_strlit("star");
        assert("starttls"@.subrange(0, 4) =~= "star"@);
        assert("helo"@.subrange(0, 4) =~= "helo"@);
        assert("ehlo"@.subrange(0, 4) =~= "ehlo"@);
        assert("vrfy"@.subrange(0, 4) =~= "vrfy"@);
        assert("auth"@.subrange(0, 4) =~= "auth"@);
        assert("data"@.subrange(0, 4) =~= "data"@);
        assert("noop"@.subrange(0, 4) =~= "noop"@);
        assert("quit"@.subrange(0, 4) =~= "quit"@);
        assert("rset"@.subrange(0, 4) =~= "rset"@);
    }
    if c is Starttls {
        assert(!"auth"@.is_prefix_of(lower)) by {
            if "auth"@.is_prefix_of(lower) {
                assert("auth"@[0] == lower[0]);
            }
        }
    }
}

/// Lowercasing a sent line as std documents it for ASCII gives a text that begins with
/// the command's keyword.
proof fn lemma_sent_keyword(c: CommandView, lower: Seq<char>)
    requires
        sent_line(c) is Some,
        lowercase_agrees(sent_line(c)->0, lower),
    ensures
        keyword_of(c).is_prefix_of(lower),
{
    reveal_strlit("HELO ");
    reveal_strlit("EHLO ");
    reveal_strlit("VRFY ");
    reveal_strlit("AUTH ");
    reveal_strlit("DATA");
    reveal_strlit("NOOP");
    reveal_strlit("QUIT");
    reveal_strlit("RSET");
    reveal_strlit("STARTTLS");
    reveal_strlit("helo");
    reveal_strlit("ehlo");
    reveal_strlit("vrfy");
    reveal_strlit("auth");
    reveal_strlit("data");
    reveal_strlit("noop");
    reveal_strlit("quit");
    reveal_strlit("rset");
    reveal_strlit("starttls");
    let line = sent_line(c)->0;
    let kw = keyword_of(c);
    let k = kw.len() as int;
    let head = line.take(k);
    assert(k <= line.len());
    assert(is_ascii_chars(head));
    assert(ascii_lowercase(head) =~= kw);
}

/// Round trip of commands: what the client encoder sends for HELO, EHLO, VRFY or AUTH
/// (with a parameter free of surrounding white space and of CRLF) or for DATA, NOOP,
/// QUIT, RSET or STARTTLS, the server decoder, whatever bytes follow, reads back as one
/// line, taking exactly its bytes, with exactly that parameter; and where the line's
/// Unicode lowercase form behaves on its ASCII beginning as std documents (as every
/// lowercasing computed by `to_lowercase` is known to, see the server decoder's
/// contract), it reads back the very command, switching to data mode after DATA.
pub proof fn law_command_round_trip(c: CommandView, rest: Seq<u8>)
    requires
        sent_line(c) is Some,
        trim(sent_param(c)) == sent_param(c),
        line_text_ok(sent_param(c)),
    ensures
        encode_command(c) == Some(encode_utf8(sent_line(c)->0) + crlf()),
        decode_command(CodecState::Regular, encode_command(c)->0 + rest).0 == Some(
            (encode_command(c)->0.len() as int, command_from_line(sent_line(c)->0)),
        ),
        (c is Helo || c is Ehlo || c is Vrfy || c is Auth) ==> command_params(sent_line(c)->0)
            == sent_param(c),
        lowercase_agrees(sent_line(c)->0, unicode_lowercase(sent_line(c)->0)) ==> decode_command(
            CodecState::Regular,
            encode_command(c)->0 + rest,
        ) == (
            Some((encode_command(c)->0.len() as int, c)),
            if c is Data {
                CodecState::Data
            } else {
                CodecState::Regular
            },
        ),
{
    reveal_strlit("HELO ");
    reveal_strlit("EHLO ");
    reveal_strlit("VRFY ");
    reveal_strlit("AUTH ");
    reveal_strlit("DATA");
    reveal_strlit("NOOP");
    reveal_strlit("QUIT");
    reveal_strlit("RSET");
    reveal_strlit("STARTTLS");
    reveal_strlit("\r\n");
    reveal_strlit("DATA\r\n");
    reveal_strlit("NOOP\r\n");
    reveal_strlit("QUIT\r\n");
    reveal_strlit("RSET\r\n");
    reveal_strlit("STARTTLS\r\n");
    reveal_strlit("helo");
    reveal_strlit("ehlo");
    reveal_strlit("vrfy");
    reveal_strlit("auth");
    reveal_strlit("data");
    reveal_strlit("noop");
    reveal_strlit("quit");
    reveal_strlit("rset");
    reveal_strlit("mail");
    reveal_strlit("rcpt");
    reveal_strlit("starttls");
    let line = sent_line(c)->0;
    let d = sent_param(c);
    let has_param = c is Helo || c is Ehlo || c is Vrfy || c is Auth;
    let v: Seq<char> = match c {
        CommandView::Helo(_) => "HELO "@,
        CommandView::Ehlo(_) => "EHLO "@,
        CommandView::Vrfy(_) => "VRFY "@,
        CommandView::Auth(_) => "AUTH "@,
        _ => line,
    };
    assert(line =~= v + d);
    assert(is_ascii_chars(v));
    assert(forall|i: int| 0 <= i < v.len() ==> v[i] != '\r');
    assert(v.len() >= 4);
    // the bytes sent
    let nl = "\r\n"@;
    assert(is_ascii_chars(nl));
    is_ascii_chars_encode_utf8(nl);
    assert(encode_utf8(nl) =~= crlf());
    lemma_encode_utf8_concat(v, d);
    if has_param {
        assert(encode_command(c) == Some(encode_utf8(v) + encode_utf8(d) + encode_utf8(nl)));
        assert(encode_utf8(v) + encode_utf8(d) + encode_utf8(nl) =~= encode_utf8(line) + crlf());
    } else {
        lemma_encode_utf8_concat(line, nl);
        assert(d =~= Seq::<char>::empty());
        assert(line + nl == match c {
            CommandView::Data => "DATA\r\n"@,
            CommandView::Noop => "NOOP\r\n"@,
            CommandView::Quit => "QUIT\r\n"@,
            CommandView::Rset => "RSET\r\n"@,
            _ => "STARTTLS\r\n"@,
        });
    }
    let wire = encode_command(c)->0;
    // reading the line back
    lemma_no_crlf_concat(v, d);
    lemma_line_decode(line, rest);
    let el = encode_utf8(line);
    assert(wire + rest =~= el + crlf() + rest);
    // its parameters
    lemma_suffix_after_verb(v, d);
    if has_param {
        assert(v.skip(4) =~= seq![' ']);
        assert((seq![' '] + d).drop_first() =~= d);
        assert(trim_start(seq![' '] + d) == trim_start(d));
    } else {
        assert(trim(v.skip(4) + d) == trim(v.skip(4)));
    }
    assert(lossy_utf8((wire + rest).take(el.len() as int)) == line);
    assert(wire.len() == el.len() + 2);
    if lowercase_agrees(line, unicode_lowercase(line)) {
        lemma_sent_keyword(c, unicode_lowercase(line));
        lemma_keyword_decides(c, unicode_lowercase(line), command_params(line));
    }
}

} // verus!
