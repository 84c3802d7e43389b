//! The server's settings, read from `NAME=value` variables.
use vstd::prelude::*;
use vstd::string::*;
use crate::text::{parse_u16, parse_u16_str, str_equal};

verus! {

/// The settings the server needs.
pub struct Config {
    /// Where each user's mail is stored.
    pub maildir_root: String,
    /// The domain this server receives mail for.
    pub domain: String,
    pub submission_port: u16,
    pub relay_port: u16,
    /// The program that checks a user's password.
    pub pam_helper_path: String,
}

/// The mathematical model of the settings.
pub struct ConfigView {
    pub maildir_root: Seq<char>,
    pub domain: Seq<char>,
    pub submission_port: u16,
    pub relay_port: u16,
    pub pam_helper_path: Seq<char>,
}

impl View for Config {
    type V = ConfigView;

    open spec fn view(&self) -> ConfigView {
        ConfigView {
            maildir_root: self.maildir_root@,
            domain: self.domain@,
            submission_port: self.submission_port,
            relay_port: self.relay_port,
            pam_helper_path: self.pam_helper_path@,
        }
    }
}

/// A required setting.
#[derive(Debug, Clone, Copy, PartialEq, Eq, Structural)]
pub enum ConfigKey {
    MaildirRoot,
    Domain,
    SubmissionPort,
    RelayPort,
    PamHelperPath,
}

/// The variable name of a setting.
pub open spec fn key_name(k: ConfigKey) -> Seq<char> {
    match k {
        ConfigKey::MaildirRoot => "MAILDIR_ROOT"@,
        ConfigKey::Domain => "DOMAIN"@,
        ConfigKey::SubmissionPort => "SUBMISSION_PORT"@,
        ConfigKey::RelayPort => "RELAY_PORT"@,
        ConfigKey::PamHelperPath => "PAM_HELPER_PATH"@,
    }
}

impl ConfigKey {
    /// The variable name of this setting.
    pub fn name(&self) -> (r: &'static str)
        ensures
            r@ == key_name(*self),
    {
        match self {
            ConfigKey::MaildirRoot => "MAILDIR_ROOT",
            ConfigKey::Domain => "DOMAIN",
            ConfigKey::SubmissionPort => "SUBMISSION_PORT",
            ConfigKey::RelayPort => "RELAY_PORT",
            ConfigKey::PamHelperPath => "PAM_HELPER_PATH",
        }
    }
}

/// The model of a list of variables.
pub open spec fn vars_view(vars: Seq<(String, String)>) -> Seq<(Seq<char>, Seq<char>)> {
    vars.map_values(|p: (String, String)| (p.0@, p.1@))
}

/// The value of variable `key` in `vars` (its last occurrence).
pub open spec fn lookup_var(vars: Seq<(Seq<char>, Seq<char>)>, key: Seq<char>) -> Option<Seq<char>>
    decreases vars.len(),
{
    if vars.len() == 0 {
        None
    } else if vars.last().0 == key {
        Some(vars.last().1)
    } else {
        lookup_var(vars.drop_last(), key)
    }
}

/// How often variable `key` occurs in `vars`.
pub open spec fn occurrences(vars: Seq<(Seq<char>, Seq<char>)>, key: Seq<char>) -> nat
    decreases vars.len(),
{
    if vars.len() == 0 {
        0
    } else {
        occurrences(vars.drop_last(), key) + if vars.last().0 == key {
            1nat
        } else {
            0nat
        }
    }
}

/// Variables the settings can be read from: no setting given twice, and each port given
/// is a number that fits in 16 bits.
pub open spec fn config_readable(vars: Seq<(Seq<char>, Seq<char>)>) -> bool {
    &&& occurrences(vars, "MAILDIR_ROOT"@) <= 1
    &&& occurrences(vars, "DOMAIN"@) <= 1
    &&& occurrences(vars, "SUBMISSION_PORT"@) <= 1
    &&& occurrences(vars, "RELAY_PORT"@) <= 1
    &&& occurrences(vars, "PAM_HELPER_PATH"@) <= 1
    &&& lookup_var(vars, "SUBMISSION_PORT"@) matches Some(v) ==> parse_u16(v) is Some
    &&& lookup_var(vars, "RELAY_PORT"@) matches Some(v) ==> parse_u16(v) is Some
}

/// `[k]` where `v` is missing.
pub open spec fn missing_if_none<T>(v: Option<T>, k: ConfigKey) -> Seq<ConfigKey> {
    if v is None {
        seq![k]
    } else {
        Seq::empty()
    }
}

/// The settings that `vars` give, or the settings they lack, in a fixed order.
pub open spec fn config_from_vars(vars: Seq<(Seq<char>, Seq<char>)>) -> Result<ConfigView, Seq<ConfigKey>> {
    let maildir = lookup_var(vars, "MAILDIR_ROOT"@);
    let domain = lookup_var(vars, "DOMAIN"@);
    let submission = lookup_var(vars, "SUBMISSION_PORT"@);
    let relay = lookup_var(vars, "RELAY_PORT"@);
    let pam = lookup_var(vars, "PAM_HELPER_PATH"@);
    if maildir is Some && domain is Some && submission is Some && relay is Some && pam is Some {
        Ok(
            ConfigView {
                maildir_root: maildir->0,
                domain: domain->0,
                submission_port: parse_u16(submission->0)->0,
                relay_port: parse_u16(relay->0)->0,
                pam_helper_path: pam->0,
            },
        )
    } else {
        Err(
            missing_if_none(maildir, ConfigKey::MaildirRoot) + missing_if_none(
                domain,
                ConfigKey::Domain,
            ) + missing_if_none(submission, ConfigKey::SubmissionPort) + missing_if_none(
                relay,
                ConfigKey::RelayPort,
            ) + missing_if_none(pam, ConfigKey::PamHelperPath),
        )
    }
}

/// Appends `k` to `missing` where `v` is missing.
fn note_missing<T>(missing: &mut Vec<ConfigKey>, v: &Option<T>, k: ConfigKey)
    ensures
        final(missing)@ == old(missing)@ + missing_if_none(*v, k),
{
    if v.is_none() {
        missing.push(k);
        assert(final(missing)@ =~= old(missing)@ + seq![k]);
    } else {
        assert(final(missing)@ =~= old(missing)@ + Seq::<ConfigKey>::empty());
    }
}

/// Reads the settings from `NAME=value` variables: `MAILDIR_ROOT`, `DOMAIN`,
/// `SUBMISSION_PORT`, `RELAY_PORT` and `PAM_HELPER_PATH`; other variables are ignored.
/// Fails with the list of the settings that are missing.
pub fn load_config(vars: &Vec<(String, String)>) -> (r: Result<Config, Vec<ConfigKey>>)
    requires
        config_readable(vars_view(vars@)),
    ensures
        match r {
            Ok(c) => config_from_vars(vars_view(vars@)) == Ok::<ConfigView, Seq<ConfigKey>>(c@),
            Err(missing) => config_from_vars(vars_view(vars@)) == Err::<ConfigView, Seq<ConfigKey>>(
                missing@,
            ),
        },
{
    let ghost all = vars_view(vars@);
    let n = vars.len();
    let mut maildir: Option<String> = None;
    let mut domain: Option<String> = None;
    let mut submission: Option<u16> = None;
    let mut relay: Option<u16> = None;
    let mut pam: Option<String> = None;
    let mut i: usize = 0;
    while i < n
        invariant
            n == vars@.len(),
            all == vars_view(vars@),
            i <= n,
            config_readable(all),
            match maildir {
                Some(v) => lookup_var(all.take(i as int), "MAILDIR_ROOT"@) == Some(v@),
                None => lookup_var(all.take(i as int), "MAILDIR_ROOT"@) is None,
            },
            match domain {
                Some(v) => lookup_var(all.take(i as int), "DOMAIN"@) == Some(v@),
                None => lookup_var(all.take(i as int), "DOMAIN"@) is None,
            },
            match pam {
                Some(v) => lookup_var(all.take(i as int), "PAM_HELPER_PATH"@) == Some(v@),
                None => lookup_var(all.take(i as int), "PAM_HELPER_PATH"@) is None,
            },
            match submission {
                Some(p) => lookup_var(all.take(i as int), "SUBMISSION_PORT"@) matches Some(v)
                    && parse_u16(v) == Some(p),
                None => lookup_var(all.take(i as int), "SUBMISSION_PORT"@) is None,
            },
            match relay {
                Some(p) => lookup_var(all.take(i as int), "RELAY_PORT"@) matches Some(v)
                    && parse_u16(v) == Some(p),
                None => lookup_var(all.take(i as int), "RELAY_PORT"@) is None,
            },
        decreases n - i,
    {
        proof {
            assert(all.take(i + 1).drop_last() =~= all.take(i as int));
            assert(all.take(i + 1).last() == all[i as int]);
            lemma_lookup_prefix(all, i as int + 1, "SUBMISSION_PORT"@);
            lemma_lookup_prefix(all, i as int + 1, "RELAY_PORT"@);
            reveal_strlit("MAILDIR_ROOT");
            reveal_strlit("DOMAIN");
            reveal_strlit("RELAY_PORT");
            reveal_strlit("SUBMISSION_PORT");
            reveal_strlit("PAM_HELPER_PATH");
            assert("MAILDIR_ROOT"@[0] == 'M' && "DOMAIN"@[0] == 'D' && "RELAY_PORT"@[0] == 'R');
            assert("SUBMISSION_PORT"@[0] == 'S' && "PAM_HELPER_PATH"@[0] == 'P');
        }
        let key = vars[i].0.as_str();
        let value = vars[i].1.as_str();
        if str_equal(key, "MAILDIR_ROOT") {
            maildir = Some(String::from_str(value));
        } else if str_equal(key, "DOMAIN") {
            domain = Some(String::from_str(value));
        } else if str_equal(key, "RELAY_PORT") {
            relay = parse_u16_str(value);
        } else if str_equal(key, "SUBMISSION_PORT") {
            submission = parse_u16_str(value);
        } else if str_equal(key, "PAM_HELPER_PATH") {
            pam = Some(String::from_str(value));
        }
        i = i + 1;
    }
    assert(all.take(n as int) =~= all);
    let mut missing: Vec<ConfigKey> = Vec::new();
    note_missing(&mut missing, &maildir, ConfigKey::MaildirRoot);
    note_missing(&mut missing, &domain, ConfigKey::Domain);
    note_missing(&mut missing, &submission, ConfigKey::SubmissionPort);
    note_missing(&mut missing, &relay, ConfigKey::RelayPort);
    note_missing(&mut missing, &pam, ConfigKey::PamHelperPath);
    assert(missing@ =~= Seq::<ConfigKey>::empty() + missing_if_none(maildir, ConfigKey::MaildirRoot)
        + missing_if_none(domain, ConfigKey::Domain) + missing_if_none(
        submission,
        ConfigKey::SubmissionPort,
    ) + missing_if_none(relay, ConfigKey::RelayPort) + missing_if_none(
        pam,
        ConfigKey::PamHelperPath,
    ));
    match (maildir, domain, submission, relay, pam) {
        (Some(maildir_root), Some(domain), Some(submission_port), Some(relay_port), Some(pam_helper_path)) => {
            Ok(Config { maildir_root, domain, submission_port, relay_port, pam_helper_path })
        },
        _ => Err(missing),
    }
}

/// A variable given at most once is given in a prefix only as it is in the whole list.
proof fn lemma_lookup_prefix(vars: Seq<(Seq<char>, Seq<char>)>, k: int, key: Seq<char>)
    requires
        0 <= k <= vars.len(),
        occurrences(vars, key) <= 1,
    ensures
        occurrences(vars.take(k), key) <= 1,
        lookup_var(vars.take(k), key) matches Some(v) ==> lookup_var(vars, key) == Some(v),
    decreases vars.len() - k,
{
    if k == vars.len() {
        assert(vars.take(k) =~= vars);
    } else {
        assert(vars.take(k + 1).drop_last() =~= vars.take(k));
        lemma_lookup_prefix(vars, k + 1, key);
        if vars.take(k + 1).last().0 == key {
            lemma_lookup_none_when_once(vars.take(k + 1), key);
        }
    }
}

/// When the last variable is the only occurrence of `key`, the ones before it lack it.
proof fn lemma_lookup_none_when_once(vars: Seq<(Seq<char>, Seq<char>)>, key: Seq<char>)
    requires
        vars.len() > 0,
        vars.last().0 == key,
        occurrences(vars, key) <= 1,
    ensures
        lookup_var(vars.drop_last(), key) is None,
{
    lemma_no_occurrence_no_lookup(vars.drop_last(), key);
}

proof fn lemma_no_occurrence_no_lookup(vars: Seq<(Seq<char>, Seq<char>)>, key: Seq<char>)
    requires
        occurrences(vars, key) == 0,
    ensures
        lookup_var(vars, key) is None,
    decreases vars.len(),
{
    if vars.len() > 0 {
        lemma_no_occurrence_no_lookup(vars.drop_last(), key);
    }
}

} // verus!
