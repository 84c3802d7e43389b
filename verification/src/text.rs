//! Character-level helpers over `str`, with contracts over `Seq<char>`.
use vstd::prelude::*;
use vstd::string::*;
use vstd::utf8::*;

verus! {

broadcast use vstd::string::group_string_axioms, vstd::utf8::group_utf8_lib;

/// Whether `c` has the Unicode `White_Space` property, which is what
/// `char::is_whitespace` (and so `str::trim`) tests.
pub open spec fn is_white_space(c: char) -> bool {
    ||| ('\u{9}' <= c && c <= '\u{d}')
    ||| c == ' '
    ||| c == '\u{85}'
    ||| c == '\u{a0}'
    ||| c == '\u{1680}'
    ||| ('\u{2000}' <= c && c <= '\u{200a}')
    ||| c == '\u{2028}'
    ||| c == '\u{2029}'
    ||| c == '\u{202f}'
    ||| c == '\u{205f}'
    ||| c == '\u{3000}'
}

/// `s` without its leading white space.
pub open spec fn trim_start(s: Seq<char>) -> Seq<char>
    decreases s.len(),
{
    if s.len() > 0 && is_white_space(s[0]) {
        trim_start(s.drop_first())
    } else {
        s
    }
}

/// `s` without its trailing white space.
pub open spec fn trim_end(s: Seq<char>) -> Seq<char>
    decreases s.len(),
{
    if s.len() > 0 && is_white_space(s.last()) {
        trim_end(s.drop_last())
    } else {
        s
    }
}

/// `s` without leading and trailing white space, as `str::trim` gives it.
pub open spec fn trim(s: Seq<char>) -> Seq<char> {
    trim_end(trim_start(s))
}

/// Whether `c` is white space.
pub fn char_is_white_space(c: char) -> (r: bool)
    ensures
        r == is_white_space(c),
{
    ('\u{9}' <= c && c <= '\u{d}') || c == ' ' || c == '\u{85}' || c == '\u{a0}' || c == '\u{1680}'
        || ('\u{2000}' <= c && c <= '\u{200a}') || c == '\u{2028}' || c == '\u{2029}' || c
        == '\u{202f}' || c == '\u{205f}' || c == '\u{3000}'
}

proof fn lemma_trim_start_step(s: Seq<char>, i: int)
    requires
        0 <= i < s.len(),
        is_white_space(s[i]),
    ensures
        trim_start(s.subrange(i, s.len() as int)) == trim_start(s.subrange(i + 1, s.len() as int)),
{
    assert(s.subrange(i, s.len() as int).drop_first() =~= s.subrange(i + 1, s.len() as int));
}

proof fn lemma_trim_end_step(s: Seq<char>, j: int)
    requires
        0 < j <= s.len(),
        is_white_space(s[j - 1]),
    ensures
        trim_end(s.subrange(0, j)) == trim_end(s.subrange(0, j - 1)),
{
    assert(s.subrange(0, j).drop_last() =~= s.subrange(0, j - 1));
}

/// `s` with leading and trailing white space removed, as `str::trim` does.
pub fn trim_str(s: &str) -> (r: &str)
    ensures
        r@ == trim(s@),
{
    let n = s.unicode_len();
    let mut i: usize = 0;
    assert(s@.subrange(0, n as int) =~= s@);
    while i < n && char_is_white_space(s.get_char(i))
        invariant
            n == s@.len(),
            i <= n,
            trim_start(s@) == trim_start(s@.subrange(i as int, n as int)),
        decreases n - i,
    {
        proof {
            lemma_trim_start_step(s@, i as int);
        }
        i = i + 1;
    }
    let ghost start = s@.subrange(i as int, n as int);
    assert(trim_start(s@) == start) by {
        if start.len() > 0 {
            assert(start[0] == s@[i as int]);
        }
    }
    let mut j: usize = n;
    assert(start.subrange(0, j - i) =~= start);
    while j > i && char_is_white_space(s.get_char(j - 1))
        invariant
            n == s@.len(),
            i <= j <= n,
            start == s@.subrange(i as int, n as int),
            trim_end(start) == trim_end(start.subrange(0, j - i)),
        decreases j,
    {
        proof {
            assert(start[j - i - 1] == s@[j - 1]);
            lemma_trim_end_step(start, (j - i) as int);
        }
        j = j - 1;
    }
    let ghost fin = start.subrange(0, j - i);
    assert(trim_end(fin) == fin) by {
        if fin.len() > 0 {
            assert(fin.last() == s@[j - 1]);
        }
    }
    assert(fin =~= s@.subrange(i as int, j as int));
    s.substring_char(i, j)
}


/// Whether `a` and `b` hold the same characters.
pub fn str_equal(a: &str, b: &str) -> (r: bool)
    ensures
        r == (a@ == b@),
{
    let n = a.unicode_len();
    if n != b.unicode_len() {
        return false;
    }
    let mut i: usize = 0;
    while i < n
        invariant
            n == a@.len(),
            n == b@.len(),
            i <= n,
            forall|k: int| 0 <= k < i ==> a@[k] == b@[k],
        decreases n - i,
    {
        if a.get_char(i) != b.get_char(i) {
            return false;
        }
        i = i + 1;
    }
    assert(a@ =~= b@);
    true
}

/// Whether `s` begins with the characters of `prefix`.
pub fn str_starts_with(s: &str, prefix: &str) -> (r: bool)
    ensures
        r == prefix@.is_prefix_of(s@),
{
    let n = prefix.unicode_len();
    if n > s.unicode_len() {
        return false;
    }
    let mut i: usize = 0;
    while i < n
        invariant
            n == prefix@.len(),
            n <= s@.len(),
            i <= n,
            forall|k: int| 0 <= k < i ==> prefix@[k] == s@[k],
        decreases n - i,
    {
        if prefix.get_char(i) != s.get_char(i) {
            return false;
        }
        i = i + 1;
    }
    true
}

/// `s` without `prefix`, when `s` begins with it (as `str::strip_prefix`).
pub fn strip_prefix_str<'a>(s: &'a str, prefix: &str) -> (r: Option<&'a str>)
    ensures
        r is Some <==> prefix@.is_prefix_of(s@),
        r matches Some(rest) ==> rest@ == s@.skip(prefix@.len() as int),
{
    if str_starts_with(s, prefix) {
        let n = s.unicode_len();
        let rest = s.substring_char(prefix.unicode_len(), n);
        assert(rest@ =~= s@.skip(prefix@.len() as int));
        Some(rest)
    } else {
        None
    }
}

/// `s` without its first character, when that character is `c`.
pub fn strip_prefix_char(s: &str, c: char) -> (r: Option<&str>)
    ensures
        r is Some <==> (s@.len() > 0 && s@[0] == c),
        r matches Some(rest) ==> rest@ == s@.drop_first(),
{
    let n = s.unicode_len();
    if n > 0 && s.get_char(0) == c {
        let rest = s.substring_char(1, n);
        assert(rest@ =~= s@.drop_first());
        Some(rest)
    } else {
        None
    }
}

/// `s` without its last character, when that character is `c`.
pub fn strip_suffix_char(s: &str, c: char) -> (r: Option<&str>)
    ensures
        r is Some <==> (s@.len() > 0 && s@.last() == c),
        r matches Some(rest) ==> rest@ == s@.drop_last(),
{
    let n = s.unicode_len();
    if n > 0 && s.get_char(n - 1) == c {
        let rest = s.substring_char(0, n - 1);
        assert(rest@ =~= s@.drop_last());
        Some(rest)
    } else {
        None
    }
}

/// The index of the first `c` in `s` at or after `from`.
pub open spec fn index_of_from(s: Seq<char>, c: char, from: int) -> Option<int>
    decreases s.len() - from,
{
    if from < 0 || from >= s.len() {
        None
    } else if s[from] == c {
        Some(from)
    } else {
        index_of_from(s, c, from + 1)
    }
}

/// The index of the first `c` in `s`, if any.
pub open spec fn index_of(s: Seq<char>, c: char) -> Option<int> {
    index_of_from(s, c, 0)
}

/// The position of the first `c` in `s`, counted in characters
/// (as `s.chars().position(|x| x == c)`).
pub fn char_position(s: &str, c: char) -> (r: Option<usize>)
    ensures
        r matches Some(i) ==> index_of(s@, c) == Some(i as int),
        r is None ==> index_of(s@, c) is None,
{
    let n = s.unicode_len();
    let mut i: usize = 0;
    while i < n
        invariant
            n == s@.len(),
            i <= n,
            index_of(s@, c) == index_of_from(s@, c, i as int),
        decreases n - i,
    {
        if s.get_char(i) == c {
            return Some(i);
        }
        i = i + 1;
    }
    None
}

/// `s` split around its first `c` (as `str::split_once`).
pub open spec fn split_once(s: Seq<char>, c: char) -> Option<(Seq<char>, Seq<char>)> {
    match index_of(s, c) {
        Some(i) => Some((s.take(i), s.skip(i + 1))),
        None => None,
    }
}

/// `s.split_once(c)`.
pub fn split_once_char(s: &str, c: char) -> (r: Option<(&str, &str)>)
    ensures
        r matches Some((a, b)) ==> split_once(s@, c) == Some((a@, b@)),
        r is None ==> split_once(s@, c) is None,
{
    match char_position(s, c) {
        Some(i) => {
            proof {
                lemma_index_of_from_bounds(s@, c, 0);
            }
            let n = s.unicode_len();
            let before = s.substring_char(0, i);
            let after = s.substring_char(i + 1, n);
            assert(before@ =~= s@.take(i as int));
            assert(after@ =~= s@.skip(i + 1));
            Some((before, after))
        },
        None => None,
    }
}

/// What `index_of_from` finds is a `c` within bounds.
pub proof fn lemma_index_of_from_bounds(s: Seq<char>, c: char, from: int)
    ensures
        index_of_from(s, c, from) matches Some(i) ==> from <= i < s.len() && s[i] == c,
    decreases s.len() - from,
{
    if from < 0 || from >= s.len() {
    } else if s[from] == c {
    } else {
        lemma_index_of_from_bounds(s, c, from + 1);
    }
}

/// The characters of `s` from byte offset `n` on, as `s.get(n..)` gives them:
/// `None` where `n` is past the end or inside a character's encoding.
pub open spec fn byte_suffix(s: Seq<char>, n: int) -> Option<Seq<char>> {
    let b = encode_utf8(s);
    if is_char_boundary(b, n) {
        Some(decode_utf8(b.subrange(n, b.len() as int)))
    } else {
        None
    }
}

/// `s.get(n..)`: the rest of `s` from byte offset `n`.
pub fn str_get_from(s: &str, n: usize) -> (r: Option<&str>)
    ensures
        r matches Some(t) ==> byte_suffix(s@, n as int) == Some(t@),
        r is None ==> byte_suffix(s@, n as int) is None,
{
    if s.is_char_boundary(n) {
        let (_head, rest) = s.split_at(n);
        proof {
            assert(rest@ == decode_utf8(encode_utf8(rest@)));
        }
        Some(rest)
    } else {
        None
    }
}

/// Whether `c` is one of the ASCII digits `0`-`9`.
pub open spec fn is_ascii_digit(c: char) -> bool {
    '0' <= c && c <= '9'
}

/// The number that the decimal digits `d` denote.
pub open spec fn digits_value(d: Seq<char>) -> nat
    decreases d.len(),
{
    if d.len() == 0 {
        0
    } else {
        digits_value(d.drop_last()) * 10 + (d.last() as nat - 48) as nat
    }
}

/// `d` read as a `u16`: a non-empty run of ASCII digits whose value fits.
pub open spec fn parse_digits_u16(d: Seq<char>) -> Option<u16> {
    if d.len() > 0 && (forall|i: int| 0 <= i < d.len() ==> is_ascii_digit(d[i])) && digits_value(d)
        <= u16::MAX {
        Some(digits_value(d) as u16)
    } else {
        None
    }
}

/// What `str::parse::<u16>` gives for `s`: an optional `+` sign, then decimal digits
/// whose value fits in 16 bits.
pub open spec fn parse_u16(s: Seq<char>) -> Option<u16> {
    if s.len() > 0 && s[0] == '+' {
        parse_digits_u16(s.drop_first())
    } else {
        parse_digits_u16(s)
    }
}

/// Parses the decimal digits of `s` from character `from` on, as a `u16`.
fn parse_digits_from(s: &str, from: usize) -> (r: Option<u16>)
    requires
        from <= s@.len(),
    ensures
        r == parse_digits_u16(s@.skip(from as int)),
{
    let n = s.unicode_len();
    let ghost d = s@.skip(from as int);
    if from == n {
        return None;
    }
    let mut i: usize = from;
    let mut value: u32 = 0;
    while i < n
        invariant
            n == s@.len(),
            from < n,
            from <= i <= n,
            d == s@.skip(from as int),
            forall|k: int| 0 <= k < i - from ==> is_ascii_digit(d[k]),
            value as nat == if digits_value(d.take(i - from)) <= 65536 {
                digits_value(d.take(i - from))
            } else {
                65536
            },
        decreases n - i,
    {
        let c = s.get_char(i);
        if !('0' <= c && c <= '9') {
            assert(!is_ascii_digit(d[i - from]));
            return None;
        }
        proof {
            assert(d.take(i - from + 1).drop_last() =~= d.take(i - from));
            assert(d.take(i - from + 1).last() == c);
        }
        let digit = (c as u32) - 48;
        let next = value * 10 + digit;
        value = if next > 65536 {
            65536
        } else {
            next
        };
        i = i + 1;
    }
    assert(d.take(n - from) =~= d);
    if value <= 65535 {
        Some(value as u16)
    } else {
        None
    }
}

/// `s.parse::<u16>()`, errors collapsed to `None`.
pub fn parse_u16_str(s: &str) -> (r: Option<u16>)
    ensures
        r == parse_u16(s@),
{
    let n = s.unicode_len();
    if n > 0 && s.get_char(0) == '+' {
        assert(s@.skip(1) =~= s@.drop_first());
        parse_digits_from(s, 1)
    } else {
        assert(s@.skip(0) =~= s@);
        parse_digits_from(s, 0)
    }
}

/// The lowercase form of a string, as `str::to_lowercase` computes it
/// (Unicode case mapping).
pub uninterp spec fn unicode_lowercase(s: Seq<char>) -> Seq<char>;

/// The uppercase form of a string, as `str::to_uppercase` computes it
/// (Unicode case mapping).
pub uninterp spec fn unicode_uppercase(s: Seq<char>) -> Seq<char>;

/// The characters `String::from_utf8_lossy` makes of bytes that are not valid UTF-8:
/// their decoding, with each invalid sequence replaced by U+FFFD.
pub uninterp spec fn utf8_lossy(bytes: Seq<u8>) -> Seq<char>;

/// The characters `String::from_utf8_lossy` makes of `bytes`: their decoding where they
/// are valid UTF-8.
pub open spec fn lossy_utf8(bytes: Seq<u8>) -> Seq<char> {
    if valid_utf8(bytes) {
        decode_utf8(bytes)
    } else {
        utf8_lossy(bytes)
    }
}

/// The ASCII lowercase of a character: `A`..`Z` become `a`..`z`, every other character
/// stays as it is.
pub open spec fn ascii_lower_char(c: char) -> char {
    if 'A' <= c && c <= 'Z' {
        ((c as u32) + 32) as char
    } else {
        c
    }
}

/// The ASCII uppercase of a character: `a`..`z` become `A`..`Z`, every other character
/// stays as it is.
pub open spec fn ascii_upper_char(c: char) -> char {
    if 'a' <= c && c <= 'z' {
        ((c as u32) - 32) as char
    } else {
        c
    }
}

/// The text with each character mapped by `ascii_lower_char`.
pub open spec fn ascii_lowercase(s: Seq<char>) -> Seq<char> {
    s.map_values(|c: char| ascii_lower_char(c))
}

/// The text with each character mapped by `ascii_upper_char`.
pub open spec fn ascii_uppercase(s: Seq<char>) -> Seq<char> {
    s.map_values(|c: char| ascii_upper_char(c))
}

/// What Unicode lowercasing `l` of a text `s` has in common with ASCII lowercasing: the
/// mapping goes character by character, in order, and an ASCII character maps to its
/// ASCII lowercase alone, so an ASCII beginning of `s` comes out as its ASCII lowercase,
/// and an all-ASCII `s` comes out as exactly that.
pub open spec fn lowercase_agrees(s: Seq<char>, l: Seq<char>) -> bool {
    &&& forall|k: int|
        0 <= k <= s.len() && #[trigger] is_ascii_chars(s.take(k)) ==> ascii_lowercase(
            s.take(k),
        ).is_prefix_of(l)
    &&& is_ascii_chars(s) ==> l == ascii_lowercase(s)
}

/// The same for Unicode uppercasing `u` of `s`.
pub open spec fn uppercase_agrees(s: Seq<char>, u: Seq<char>) -> bool {
    &&& forall|k: int|
        0 <= k <= s.len() && #[trigger] is_ascii_chars(s.take(k)) ==> ascii_uppercase(
            s.take(k),
        ).is_prefix_of(u)
    &&& is_ascii_chars(s) ==> u == ascii_uppercase(s)
}

/// Calls `str::to_lowercase`. Trusted: the result is `unicode_lowercase` of the argument,
/// a name for std's Unicode lowercase mapping, which is not restated here; of it, what
/// std documents is stated: the string is mapped character by character (a character may
/// become several), and ASCII characters map to their ASCII lowercase (`lowercase_agrees`).
#[verifier::external_body]
pub(crate) fn to_lowercase(s: &str) -> (r: String)
    ensures
        r@ == unicode_lowercase(s@),
        lowercase_agrees(s@, r@),
{
    s.to_lowercase()
}

/// Calls `str::to_uppercase`. Trusted: the result is `unicode_uppercase` of the argument,
/// a name for std's Unicode uppercase mapping, which is not restated here; of it, what
/// std documents is stated: the string is mapped character by character (a character may
/// become several), and ASCII characters map to their ASCII uppercase (`uppercase_agrees`).
#[verifier::external_body]
pub(crate) fn to_uppercase(s: &str) -> (r: String)
    ensures
        r@ == unicode_uppercase(s@),
        uppercase_agrees(s@, r@),
{
    s.to_uppercase()
}

/// Calls `String::from_utf8_lossy`. Trusted: as std documents, the result is exactly the
/// decoding of the bytes when they are valid UTF-8; otherwise it is `utf8_lossy` of them,
/// a name: how invalid sequences are replaced is not restated here.
#[verifier::external_body]
pub(crate) fn string_from_utf8_lossy(bytes: &[u8]) -> (r: String)
    ensures
        valid_utf8(bytes@) ==> r@ == decode_utf8(bytes@),
        !valid_utf8(bytes@) ==> r@ == utf8_lossy(bytes@),
{
    String::from_utf8_lossy(bytes).into_owned()
}

/// Calls `String::from_utf8`. Trusted: it succeeds exactly on valid UTF-8, and then
/// holds the decoded characters, as std documents.
#[verifier::external_body]
pub(crate) fn string_from_utf8(bytes: Vec<u8>) -> (r: Option<String>)
    ensures
        r is Some <==> valid_utf8(bytes@),
        r matches Some(s) ==> s@ == decode_utf8(bytes@),
{
    String::from_utf8(bytes).ok()
}

} // verus!
