//! The `FROM:<address>` and `TO:<address>` arguments of MAIL and RCPT.
use vstd::prelude::*;
use vstd::string::*;
use regex::Regex;
use crate::text::{uppercase_agrees, byte_suffix, str_get_from, str_starts_with, strip_prefix_char, strip_suffix_char, to_uppercase, trim, trim_str, unicode_uppercase};

verus! {

/// The pattern that a mail address must match.
pub open spec fn email_pattern() -> Seq<char> {
    "^[\\w\\-.]+@([\\w\\-]+\\.)+[\\w\\-]{2,}$"@
}

/// Whether the regular expression `pattern` matches somewhere in `haystack`, as the
/// `regex` crate decides it (Unicode-aware `\w`, anchors, repetition).
pub uninterp spec fn regex_is_match(pattern: Seq<char>, haystack: Seq<char>) -> bool;

/// Whether `address` has the form of a mail address.
pub open spec fn valid_address(address: Seq<char>) -> bool {
    regex_is_match(email_pattern(), address)
}

/// Compiles `pattern` with `regex::Regex::new` and calls `Regex::is_match` on `haystack`.
/// Trusted: the result is `regex_is_match` of the two, a name for the crate's matching.
/// Only the mail address pattern, which is valid regex syntax, is admitted, so that
/// compiling it does not fail.
#[verifier::external_body]
fn regex_matches(pattern: &str, haystack: &str) -> (r: bool)
    requires
        pattern@ == email_pattern(),
    ensures
        r == regex_is_match(pattern@, haystack@),
{
    Regex::new(pattern).unwrap().is_match(haystack)
}

/// Whether `address` has the form of a mail address.
pub fn is_valid_address(address: &str) -> (r: bool)
    ensures
        r == valid_address(address@),
{
    regex_matches("^[\\w\\-.]+@([\\w\\-]+\\.)+[\\w\\-]{2,}$", address)
}

/// `s` without a leading `<` and a trailing `>`, when it has both.
pub open spec fn strip_angles(s: Seq<char>) -> Option<Seq<char>> {
    if s.len() > 0 && s[0] == '<' && s.drop_first().len() > 0 && s.drop_first().last() == '>' {
        Some(s.drop_first().drop_last())
    } else {
        None
    }
}

/// How the argument of MAIL or RCPT reads.
pub enum PathArgument {
    /// It does not begin with the keyword (compared in upper case).
    MissingKeyword,
    /// Byte `n`, where the address should start, falls inside a character.
    Unsliceable,
    /// The rest is not enclosed in `<` and `>`.
    Unbracketed,
    /// The address between the brackets.
    Address(String),
}

/// The mathematical model of a path argument.
pub enum PathView {
    MissingKeyword,
    Unsliceable,
    Unbracketed,
    Address(Seq<char>),
}

impl View for PathArgument {
    type V = PathView;

    open spec fn view(&self) -> PathView {
        match self {
            PathArgument::MissingKeyword => PathView::MissingKeyword,
            PathArgument::Unsliceable => PathView::Unsliceable,
            PathArgument::Unbracketed => PathView::Unbracketed,
            PathArgument::Address(a) => PathView::Address(a@),
        }
    }
}

/// Reads `arg` as `keyword <address>`: trimmed, its upper case must begin with
/// `keyword`; the address is what follows byte `n`, trimmed, between `<` and `>`.
pub open spec fn path_argument(arg: Seq<char>, keyword: Seq<char>, n: int) -> PathView {
    let a = trim(arg);
    if !keyword.is_prefix_of(unicode_uppercase(a)) {
        PathView::MissingKeyword
    } else {
        match byte_suffix(a, n) {
            None => PathView::Unsliceable,
            Some(rest) => match strip_angles(trim(rest)) {
                None => PathView::Unbracketed,
                Some(address) => PathView::Address(address),
            },
        }
    }
}

/// Reads the argument of MAIL (`FROM:`, 5 bytes) or RCPT (`TO:`, 3 bytes).
pub fn parse_path_argument(arg: &str, keyword: &str, n: usize) -> (r: PathArgument)
    ensures
        r@ == path_argument(arg@, keyword@, n as int),
        uppercase_agrees(trim(arg@), unicode_uppercase(trim(arg@))),
{
    let a = trim_str(arg);
    let upper = to_uppercase(a);
    if !str_starts_with(upper.as_str(), keyword) {
        return PathArgument::MissingKeyword;
    }
    let rest = match str_get_from(a, n) {
        Some(rest) => rest,
        None => {
            return PathArgument::Unsliceable;
        },
    };
    let address = trim_str(rest);
    match strip_prefix_char(address, '<') {
        Some(inner) => match strip_suffix_char(inner, '>') {
            Some(addr) => PathArgument::Address(String::from_str(addr)),
            None => PathArgument::Unbracketed,
        },
        None => PathArgument::Unbracketed,
    }
}

} // verus!
