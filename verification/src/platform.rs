//! Where the application keeps its files, and which log files are stale.

use std::path::PathBuf;

use vstd::prelude::*;

use crate::file_manager::plain_component;
use crate::text::chars_of;

verus! {

#[verifier::external_type_specification]
#[verifier::external_body]
pub struct ExPathBuf(PathBuf);

/// Rolling log files older than this many days are pruned at startup.
pub const LOG_RETENTION_DAYS: u64 = 7;

/// `dirs::home_dir`, as text: the user's home directory, which depends on
/// the environment; the contract says nothing of it. A home directory whose
/// name is not valid UTF-8 is reported as none.
#[verifier::external_body]
fn home_dir() -> (res: Option<String>) {
    dirs::home_dir().and_then(|p| p.into_os_string().into_string().ok())
}

/// `dirs::config_dir`, as text: the user's configuration directory, which
/// depends on the environment and the platform; the contract says nothing of
/// it. A directory whose name is not valid UTF-8 is reported as none.
#[verifier::external_body]
fn config_dir() -> (res: Option<String>) {
    dirs::config_dir().and_then(|p| p.into_os_string().into_string().ok())
}

/// `path` is `base` extended by the relative `name` the way
/// `PathBuf::push` does it: `name` follows `base` directly, or after one
/// separator (`/`, or `\\` on Windows).
pub open spec fn joined(base: Seq<char>, name: Seq<char>, path: Seq<char>) -> bool {
    ||| path == base + name
    ||| path == base + seq!['/'] + name
    ||| path == base + seq!['\\'] + name
}

/// `std::path::Path::join` of `base` and an ordinary file name `name`, as
/// text. As `PathBuf::push` documents, a relative name is appended after the
/// platform's separator, which is not doubled when `base` already ends in
/// one (`/tmp/` and `file` give `/tmp/file`); an empty `base` gives the name
/// alone. Which separator the platform uses is left open.
#[verifier::external_body]
fn join(base: &str, name: &str) -> (res: String)
    requires
        plain_component(name@),
    ensures
        joined(base@, name@, res@),
        base@.len() == 0 ==> res@ == name@,
        base@.len() > 0 && base@.last() == '/' ==> res@ == base@ + name@,
{
    std::path::Path::new(base).join(name).to_string_lossy().into_owned()
}

/// `file` inside the directory `dir`, when there is one.
pub fn file_in(dir: Option<String>, file: &str) -> (res: Option<String>)
    requires
        plain_component(file@),
    ensures
        match dir {
            None => res is None,
            Some(d) => res is Some && joined(d@, file@, res->0@),
        },
{
    match dir {
        Some(d) => Some(join(d.as_str(), file)),
        None => None,
    }
}

/// The SSH config file inside the home directory `home`: `config` inside
/// `.ssh`.
pub fn ssh_config_in(home: Option<String>) -> (res: Option<String>)
    ensures
        match home {
            None => res is None,
            Some(h) => res is Some && exists|m: Seq<char>| #[trigger]
                joined(h@, ".ssh"@, m) && joined(m, "config"@, res->0@),
        },
{
    proof {
        lemma_plain_literals();
    }
    file_in(file_in(home, ".ssh"), "config")
}

/// The application's directory inside the configuration directory `cfg`.
pub fn app_dir_in(cfg: Option<String>) -> (res: Option<String>)
    ensures
        match cfg {
            None => res is None,
            Some(c) => res is Some && joined(c@, "omnyssh"@, res->0@),
        },
{
    proof {
        lemma_plain_literals();
    }
    file_in(cfg, "omnyssh")
}

/// A name longer than two characters, with no separator and no `:`, is an
/// ordinary file name.
proof fn lemma_plain_name(n: Seq<char>)
    requires
        n.len() > 2,
        forall|i: int| 0 <= i < n.len() ==> n[i] != '/' && n[i] != '\\' && n[i] != ':',
    ensures
        plain_component(n),
{
    reveal_strlit(".");
    reveal_strlit("..");
    assert(n != "."@ && n != ".."@) by {
        assert(n.len() != "."@.len() && n.len() != ".."@.len());
    }
}

/// The names this module joins are ordinary file names.
proof fn lemma_plain_literals()
    ensures
        plain_component(".ssh"@),
        plain_component("config"@),
        plain_component("omnyssh"@),
        plain_component("config.toml"@),
        plain_component("hosts.toml"@),
        plain_component("snippets.toml"@),
{
    reveal_strlit(".ssh");
    reveal_strlit("config");
    reveal_strlit("omnyssh");
    reveal_strlit("config.toml");
    reveal_strlit("hosts.toml");
    reveal_strlit("snippets.toml");
    lemma_plain_name(".ssh"@);
    lemma_plain_name("config"@);
    lemma_plain_name("omnyssh"@);
    lemma_plain_name("config.toml"@);
    lemma_plain_name("hosts.toml"@);
    lemma_plain_name("snippets.toml"@);
}

/// The user's SSH config file, `.ssh/config` in the home directory, when
/// the home directory is known.
pub fn ssh_config_path() -> (res: Option<String>)
    ensures
        res is Some ==> exists|h: Seq<char>, m: Seq<char>| #[trigger]
            joined(h, ".ssh"@, m) && joined(m, "config"@, res->0@),
{
    ssh_config_in(home_dir())
}

/// The application's configuration directory, `omnyssh` inside the
/// platform's configuration directory, when that is known.
pub fn app_config_dir() -> (res: Option<String>)
    ensures
        res is Some ==> exists|c: Seq<char>| #[trigger] joined(c, "omnyssh"@, res->0@),
{
    app_dir_in(config_dir())
}

/// The main configuration file, `config.toml` in the application's
/// configuration directory.
pub fn app_config_path() -> (res: Option<String>)
    ensures
        res is Some ==> exists|c: Seq<char>, d: Seq<char>| #[trigger]
            joined(c, "omnyssh"@, d) && joined(d, "config.toml"@, res->0@),
{
    proof {
        lemma_plain_literals();
    }
    file_in(app_config_dir(), "config.toml")
}

/// The hosts file, `hosts.toml` in the application's configuration
/// directory.
pub fn hosts_config_path() -> (res: Option<String>)
    ensures
        res is Some ==> exists|c: Seq<char>, d: Seq<char>| #[trigger]
            joined(c, "omnyssh"@, d) && joined(d, "hosts.toml"@, res->0@),
{
    proof {
        lemma_plain_literals();
    }
    file_in(app_config_dir(), "hosts.toml")
}

/// The snippets file, `snippets.toml` in the application's configuration
/// directory.
pub fn snippets_config_path() -> (res: Option<String>)
    ensures
        res is Some ==> exists|c: Seq<char>, d: Seq<char>| #[trigger]
            joined(c, "omnyssh"@, d) && joined(d, "snippets.toml"@, res->0@),
{
    proof {
        lemma_plain_literals();
    }
    file_in(app_config_dir(), "snippets.toml")
}

/// Whether a file name is one of the rolling log files: it starts with
/// `omnyssh.log`.
pub fn is_rolling_log(name: &str) -> (res: bool)
    ensures
        res == (name@.len() >= "omnyssh.log"@.len() && name@.take("omnyssh.log"@.len() as int) == "omnyssh.log"@),
{
    let cs = chars_of(name);
    let prefix = chars_of("omnyssh.log");
    if cs.len() < prefix.len() {
        return false;
    }
    let mut i: usize = 0;
    while i < prefix.len()
        invariant
            prefix.len() <= cs.len(),
            prefix@ == "omnyssh.log"@,
            cs@ == name@,
            i <= prefix.len(),
            forall|k: int| 0 <= k < i ==> cs@[k] == prefix@[k],
        decreases prefix.len() - i,
    {
        if cs[i] != prefix[i] {
            assert(cs@.take(prefix.len() as int)[i as int] != prefix@[i as int]);
            return false;
        }
        i = i + 1;
    }
    assert(cs@.take(prefix.len() as int) =~= prefix@);
    true
}

/// Whether a log file of age `age_secs` seconds and `age_nanos` nanoseconds
/// is older than `max_age_days` days.
pub fn log_is_stale(age_secs: u64, age_nanos: u32, max_age_days: u64) -> (res: bool)
    requires
        max_age_days * 86400 <= u64::MAX,
        age_nanos < 1_000_000_000,
    ensures
        res == (age_secs > max_age_days * 86400 || (age_secs == max_age_days * 86400 && age_nanos > 0)),
{
    let max_secs: u64 = max_age_days * 86400;
    age_secs > max_secs || (age_secs == max_secs && age_nanos > 0)
}

} // verus!
