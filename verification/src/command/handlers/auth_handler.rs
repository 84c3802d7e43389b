//! AUTH PLAIN.
use vstd::prelude::*;
use vstd::slice::{slice_subrange, slice_to_vec};
use vstd::utf8::{decode_utf8, encode_utf8, valid_utf8};
use base64::prelude::BASE64_STANDARD;
use base64::DecodeError;
use base64::Engine;
use crate::command::command_handler::{follows_step, respond_line, respond_nothing, respond_silently, respond_with, CommandHandler, HandlerOutcome, OutcomeView};
use crate::command::smtp_command::{CommandView, SmtpCommand};
use crate::io::smtp_state::SmtpState;
use crate::io::transaction::{SmtpTransaction, TransactionView};
use crate::scan::{find_pattern, lemma_find_from, lemma_find_from_skip, zero_split};
use crate::text::{string_from_utf8, strip_prefix_str, trim, trim_str};

verus! {

/// Answers AUTH.
pub struct AuthHandler;

/// `base64::DecodeError`, the error of a failed decoding, declared so that the decoding
/// wrapper can return it. It is opaque: only whether decoding failed is used.
#[verifier::external_type_specification]
#[verifier::external_body]
pub struct ExDecodeError(DecodeError);

/// What the standard base64 engine (`base64::prelude::BASE64_STANDARD`, canonical
/// padding required) decodes `input` to, or `None` where it rejects it.
pub uninterp spec fn base64_standard_decode(input: Seq<u8>) -> Option<Seq<u8>>;

/// Calls `Engine::decode` on `BASE64_STANDARD`. Trusted: it succeeds exactly where
/// `base64_standard_decode` is defined, and then returns its bytes; the alphabet and the
/// padding rules stay behind the name.
#[verifier::external_body]
fn base64_decode(input: &[u8]) -> (r: Result<Vec<u8>, DecodeError>)
    ensures
        r is Ok <==> base64_standard_decode(input@) is Some,
        r matches Ok(v) ==> base64_standard_decode(input@) == Some(v@),
{
    BASE64_STANDARD.decode(input)
}

/// The user name and password of a decoded PLAIN response: the second and third of its
/// zero-separated pieces, which must be valid UTF-8. `None` where there are fewer than
/// three pieces or either is not UTF-8.
pub open spec fn plain_credentials(decoded: Seq<u8>) -> Option<(Seq<char>, Seq<char>)> {
    let parts = zero_split(decoded);
    if parts.len() < 3 || !valid_utf8(parts[1]) || !valid_utf8(parts[2]) {
        None
    } else {
        Some((decode_utf8(parts[1]), decode_utf8(parts[2])))
    }
}

/// Splits a decoded PLAIN response into user name and password (see
/// `plain_credentials`).
pub fn credentials_from_plain(decoded: &[u8]) -> (r: Option<(String, String)>)
    ensures
        match r {
            Some((u, p)) => plain_credentials(decoded@) == Some((u@, p@)),
            None => plain_credentials(decoded@) is None,
        },
{
    let zero: &[u8] = &[0u8];
    assert(zero@ =~= seq![0u8]);
    let n = decoded.len();
    let ghost b = decoded@;
    proof {
        lemma_find_from(b, seq![0u8], 0);
    }
    let i0 = match find_pattern(decoded, zero, 0) {
        Some(i) => i,
        None => {
            assert(zero_split(b).len() == 1);
            return None;
        },
    };
    let ghost b1 = b.skip(i0 + 1);
    proof {
        lemma_find_from_skip(b, seq![0u8], i0 + 1, 0);
        lemma_find_from(b, seq![0u8], i0 + 1);
        assert(zero_split(b) == seq![b.take(i0 as int)] + zero_split(b1));
    }
    let i1 = match find_pattern(decoded, zero, i0 + 1) {
        Some(i) => i,
        None => {
            assert(zero_split(b1) == seq![b1]);
            assert(zero_split(b).len() == 2);
            return None;
        },
    };
    let ghost b2 = b.skip(i1 + 1);
    proof {
        assert(b1.skip(i1 - i0) =~= b2);
        assert(b1.take(i1 - i0 - 1) =~= b.subrange(i0 + 1, i1 as int));
        assert(zero_split(b1) == seq![b1.take(i1 - i0 - 1)] + zero_split(b2));
        lemma_find_from_skip(b, seq![0u8], i1 + 1, 0);
        lemma_find_from(b, seq![0u8], i1 + 1);
    }
    let end = match find_pattern(decoded, zero, i1 + 1) {
        Some(i) => {
            proof {
                assert(b2.take(i - i1 - 1) =~= b.subrange(i1 + 1, i as int));
            }
            i
        },
        None => {
            proof {
                assert(b2 =~= b.subrange(i1 + 1, n as int));
            }
            n
        },
    };
    assert(zero_split(b2)[0] == b.subrange(i1 + 1, end as int));
    assert(zero_split(b)[1] == b.subrange(i0 + 1, i1 as int));
    assert(zero_split(b)[2] == b.subrange(i1 + 1, end as int));
    let user_bytes = slice_to_vec(slice_subrange(decoded, i0 + 1, i1));
    let pass_bytes = slice_to_vec(slice_subrange(decoded, i1 + 1, end));
    let username = match string_from_utf8(user_bytes) {
        Some(u) => u,
        None => {
            return None;
        },
    };
    let password = match string_from_utf8(pass_bytes) {
        Some(p) => p,
        None => {
            return None;
        },
    };
    Some((username, password))
}

/// AUTH PLAIN on an encrypted, greeted session decodes the base64 credentials and asks the
/// runner to check them (see `SmtpTransaction::finish_auth`), leaving the session as it
/// is. Without TLS it is
/// answered 530; a missing `PLAIN` or bad base64 is answered 501; in other states it gets
/// no answer. Any other command is answered 551. `None` where the decoded response does
/// not hold a UTF-8 user name and password.
pub open spec fn auth_step(t: TransactionView, c: CommandView) -> Option<(TransactionView, OutcomeView)> {
    match c {
        CommandView::Auth(data) => if !t.tls {
            Some((t, respond_line(530, "Must issue a STARTTLS command first"@)))
        } else if t.state == SmtpState::Greeted {
            if !"PLAIN"@.is_prefix_of(data) {
                Some((t, respond_line(501, "Invalid argument"@)))
            } else {
                match base64_standard_decode(encode_utf8(trim(data.skip(5)))) {
                    None => Some((t, respond_line(501, "Invalid argument"@))),
                    Some(decoded) => match plain_credentials(decoded) {
                        None => None,
                        Some((username, password)) => Some(
                            (t, OutcomeView::Authenticate { username, password }),
                        ),
                    },
                }
            }
        } else {
            Some((t, respond_nothing()))
        },
        _ => Some((t, respond_line(551, "Unknown error"@))),
    }
}

impl CommandHandler for AuthHandler {
    fn handle(&self, txn: &mut SmtpTransaction, command: SmtpCommand, local_domain: &str) -> (r: Option<HandlerOutcome>)
        ensures
            follows_step(old(txn)@, final(txn)@, r, auth_step(old(txn)@, command@)),
    {
        if let SmtpCommand::Auth(data) = command {
            if !txn.tls {
                return Some(respond_with(530, "Must issue a STARTTLS command first"));
            }
            match txn.state {
                SmtpState::Greeted => {
                    proof {
                        reveal_strlit("PLAIN");
                    }
                    let rest = match strip_prefix_str(data.as_str(), "PLAIN") {
                        Some(rest) => rest,
                        None => {
                            return Some(respond_with(501, "Invalid argument"));
                        },
                    };
                    let encoded = trim_str(rest);
                    let decoded = match base64_decode(encoded.as_bytes()) {
                        Ok(d) => d,
                        Err(_) => {
                            return Some(respond_with(501, "Invalid argument"));
                        },
                    };
                    let (username, password) = match credentials_from_plain(decoded.as_slice()) {
                        Some(c) => c,
                        None => {
                            return None;
                        },
                    };
                    Some(HandlerOutcome::Authenticate { username, password })
                },
                _ => Some(respond_silently()),
            }
        } else {
            Some(respond_with(551, "Unknown error"))
        }
    }
}

} // verus!
