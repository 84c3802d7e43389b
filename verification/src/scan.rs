//! Searching byte buffers and writing decimal numbers.
use vstd::prelude::*;

verus! {

/// The bytes `<CR><LF>`, which end a line.
pub open spec fn crlf() -> Seq<u8> {
    seq![13u8, 10u8]
}

/// Whether `pat` occurs in `buf` at index `i`.
pub open spec fn occurs_at(buf: Seq<u8>, pat: Seq<u8>, i: int) -> bool {
    0 <= i && i + pat.len() <= buf.len() && buf.subrange(i, i + pat.len()) == pat
}

/// The index of the first occurrence of `pat` in `buf` at or after `from`.
pub open spec fn find_from(buf: Seq<u8>, pat: Seq<u8>, from: int) -> Option<int>
    decreases buf.len() + 1 - from,
{
    if from < 0 || from + pat.len() > buf.len() {
        None
    } else if occurs_at(buf, pat, from) {
        Some(from)
    } else {
        find_from(buf, pat, from + 1)
    }
}

/// What `find_from` returns is an occurrence, the first one at or after `from`.
pub proof fn lemma_find_from(buf: Seq<u8>, pat: Seq<u8>, from: int)
    requires
        from >= 0,
    ensures
        find_from(buf, pat, from) matches Some(p) ==> from <= p && occurs_at(buf, pat, p) && forall|
            k: int,
        | from <= k < p ==> !occurs_at(buf, pat, k),
        find_from(buf, pat, from) is None ==> forall|k: int| from <= k ==> !occurs_at(buf, pat, k),
    decreases buf.len() + 1 - from,
{
    if from + pat.len() > buf.len() {
    } else if occurs_at(buf, pat, from) {
    } else {
        lemma_find_from(buf, pat, from + 1);
        assert forall|k: int| from <= k && occurs_at(buf, pat, k) implies find_from(
            buf,
            pat,
            from,
        ) matches Some(p) && p <= k by {
            if k == from {
            }
        }
    }
}

/// `find_from` is the first occurrence: any occurrence at or after `from`, with none
/// before it from `from` on, is what it returns.
pub proof fn lemma_find_from_first(buf: Seq<u8>, pat: Seq<u8>, from: int, p: int)
    requires
        0 <= from <= p,
        occurs_at(buf, pat, p),
        forall|k: int| from <= k < p ==> !occurs_at(buf, pat, k),
    ensures
        find_from(buf, pat, from) == Some(p),
    decreases p - from,
{
    if from < p {
        lemma_find_from_first(buf, pat, from + 1, p);
    }
}

/// Searching from `j` in `buf.skip(k)` finds what searching from `k + j` in `buf` finds,
/// shifted by `k`.
pub proof fn lemma_find_from_skip(buf: Seq<u8>, pat: Seq<u8>, k: int, j: int)
    requires
        0 <= k <= buf.len(),
        0 <= j,
    ensures
        find_from(buf.skip(k), pat, j) == match find_from(buf, pat, k + j) {
            Some(p) => Some(p - k),
            None => None,
        },
    decreases buf.len() + 1 - (k + j),
{
    let s = buf.skip(k);
    if j + pat.len() > s.len() {
    } else {
        assert(s.subrange(j, j + pat.len()) =~= buf.subrange(k + j, k + j + pat.len()));
        if !occurs_at(s, pat, j) {
            lemma_find_from_skip(buf, pat, k, j + 1);
        }
    }
}

/// The pieces of `b` between its zero bytes (as `split(|&x| x == 0)`): one more piece
/// than there are zeros.
pub open spec fn zero_split(b: Seq<u8>) -> Seq<Seq<u8>>
    decreases b.len(),
{
    match find_from(b, seq![0u8], 0) {
        None => seq![b],
        Some(p) => {
            proof {
                lemma_find_from(b, seq![0u8], 0);
            }
            seq![b.take(p)] + zero_split(b.skip(p + 1))
        },
    }
}

/// Whether `pat` occurs in `buf` at `i`, compared byte by byte.
fn occurs_at_exec(buf: &[u8], pat: &[u8], i: usize) -> (r: bool)
    requires
        i + pat@.len() <= buf@.len(),
    ensures
        r == occurs_at(buf@, pat@, i as int),
{
    let n = pat.len();
    let blen = buf.len();
    let mut k: usize = 0;
    while k < n
        invariant
            n == pat@.len(),
            i + n <= buf@.len(),
            blen == buf@.len(),
            k <= n,
            forall|j: int| 0 <= j < k ==> buf@[i + j] == pat@[j],
        decreases n - k,
    {
        if buf[i + k] != pat[k] {
            assert(buf@.subrange(i as int, i + n)[k as int] != pat@[k as int]);
            return false;
        }
        k = k + 1;
    }
    assert(buf@.subrange(i as int, i + n) =~= pat@);
    true
}

/// The first index at or after `from` where `pat` occurs in `buf`.
pub fn find_pattern(buf: &[u8], pat: &[u8], from: usize) -> (r: Option<usize>)
    requires
        pat@.len() > 0,
    ensures
        r matches Some(p) ==> find_from(buf@, pat@, from as int) == Some(p as int),
        r is None ==> find_from(buf@, pat@, from as int) is None,
{
    let n = buf.len();
    let m = pat.len();
    if from > n || m > n - from {
        return None;
    }
    let mut i: usize = from;
    while i <= n - m
        invariant
            n == buf@.len(),
            m == pat@.len(),
            m > 0,
            m <= n,
            from <= i,
            i <= n - m + 1,
            find_from(buf@, pat@, from as int) == find_from(buf@, pat@, i as int),
        decreases n - m + 1 - i,
    {
        if occurs_at_exec(buf, pat, i) {
            return Some(i);
        }
        i = i + 1;
    }
    None
}

/// The ASCII decimal digits of `n`, as `{}` formats it.
pub open spec fn decimal(n: nat) -> Seq<u8>
    decreases n,
{
    if n < 10 {
        seq![(48 + n) as u8]
    } else {
        decimal(n / 10) + seq![(48 + n % 10) as u8]
    }
}

/// Appends the decimal digits of `n` to `dst`.
pub fn push_decimal(dst: &mut Vec<u8>, n: u64)
    ensures
        final(dst)@ == old(dst)@ + decimal(n as nat),
    decreases n,
{
    if n >= 10 {
        push_decimal(dst, n / 10);
    }
    dst.push((48 + n % 10) as u8);
    proof {
        assert(final(dst)@ =~= old(dst)@ + decimal(n as nat));
    }
}


/// Appends the bytes of `src` to `dst`.
pub fn append_bytes(dst: &mut Vec<u8>, src: &[u8])
    ensures
        final(dst)@ == old(dst)@ + src@,
{
    let n = src.len();
    let mut i: usize = 0;
    while i < n
        invariant
            n == src@.len(),
            i <= n,
            dst@ == old(dst)@ + src@.take(i as int),
        decreases n - i,
    {
        dst.push(src[i]);
        assert(src@.take(i + 1) =~= src@.take(i as int).push(src@[i as int]));
        i = i + 1;
    }
    assert(src@.take(n as int) =~= src@);
}

} // verus!
