//! Names of the files that hold delivered mail in a Maildir.
use vstd::prelude::*;
use vstd::string::*;

verus! {

/// The decimal digit character for `d` (below ten).
pub open spec fn digit_char(d: nat) -> char {
    if d == 0 { '0' }
    else if d == 1 { '1' }
    else if d == 2 { '2' }
    else if d == 3 { '3' }
    else if d == 4 { '4' }
    else if d == 5 { '5' }
    else if d == 6 { '6' }
    else if d == 7 { '7' }
    else if d == 8 { '8' }
    else { '9' }
}

/// The decimal notation of `n`, without leading zeros.
pub open spec fn decimal_text(n: nat) -> Seq<char>
    decreases n,
{
    if n < 10 {
        seq![digit_char(n)]
    } else {
        decimal_text(n / 10) + seq![digit_char(n % 10)]
    }
}

/// The Maildir file name `<secs>.M<micros>.P<pid>.Q<unique>.<hostname>`: the delivery
/// time in seconds and microseconds, the process, a number that makes the name unique,
/// and the host.
pub open spec fn mail_name(secs: u64, micros: u32, pid: u32, unique: u64, hostname: Seq<char>) -> Seq<char> {
    decimal_text(secs as nat) + ".M"@ + decimal_text(micros as nat) + ".P"@ + decimal_text(pid as nat)
        + ".Q"@ + decimal_text(unique as nat) + "."@ + hostname
}

/// The one-character text of the digit `d`.
fn digit_text(d: u64) -> (r: &'static str)
    requires
        d < 10,
    ensures
        r@ == seq![digit_char(d as nat)],
{
    proof {
        reveal_strlit("0");
        reveal_strlit("1");
        reveal_strlit("2");
        reveal_strlit("3");
        reveal_strlit("4");
        reveal_strlit("5");
        reveal_strlit("6");
        reveal_strlit("7");
        reveal_strlit("8");
        reveal_strlit("9");
    }
    let r = if d == 0 { "0" }
    else if d == 1 { "1" }
    else if d == 2 { "2" }
    else if d == 3 { "3" }
    else if d == 4 { "4" }
    else if d == 5 { "5" }
    else if d == 6 { "6" }
    else if d == 7 { "7" }
    else if d == 8 { "8" }
    else { "9" };
    assert(r@ =~= seq![digit_char(d as nat)]);
    r
}

/// Appends the decimal notation of `n` to `s`.
pub fn append_decimal(s: &mut String, n: u64)
    ensures
        final(s)@ == old(s)@ + decimal_text(n as nat),
    decreases n,
{
    if n >= 10 {
        append_decimal(s, n / 10);
    }
    s.append(digit_text(n % 10));
    assert(final(s)@ =~= old(s)@ + decimal_text(n as nat));
}

/// The Maildir file name for a mail delivered at `secs`.`micros` seconds after the
/// epoch by process `pid`, made unique by `unique`, on host `hostname`.
pub fn mail_filename(secs: u64, micros: u32, pid: u32, unique: u64, hostname: &str) -> (r: String)
    ensures
        r@ == mail_name(secs, micros, pid, unique, hostname@),
{
    let mut name = String::new();
    append_decimal(&mut name, secs);
    name.append(".M");
    append_decimal(&mut name, micros as u64);
    name.append(".P");
    append_decimal(&mut name, pid as u64);
    name.append(".Q");
    append_decimal(&mut name, unique);
    name.append(".");
    name.append(hostname);
    assert(name@ =~= mail_name(secs, micros, pid, unique, hostname@));
    name
}

/// A random number from the thread-local generator of `rand`; any `u64` may come back.
#[verifier::external_body]
fn random_u64() -> u64 {
    rand::random::<u64>()
}

/// A fresh Maildir file name for a mail delivered at `secs`.`micros` by process `pid`
/// on host `hostname`; the unique part is drawn at random.
pub fn generate_mail_filename(secs: u64, micros: u32, pid: u32, hostname: &str) -> (r: String)
    ensures
        exists|unique: u64| r@ == mail_name(secs, micros, pid, unique, hostname@),
{
    let unique = random_u64();
    mail_filename(secs, micros, pid, unique, hostname)
}

} // verus!
