//! The update checker's decisions: how the binary was installed, which
//! release is newer, the release page, the checksum check of a downloaded
//! archive, and the state of the "update available" popup.

use sha2::Digest;
use vstd::prelude::*;

use crate::config::UpdateConfig;
use crate::host::opt_view;
use crate::keys::{KeyCode, KeyEvent};
use crate::num::{all_digits, digits_value};
use crate::services::{lines_chars, lines_of};
use crate::text::{
    append_chars, append_str, chars_of, contains, contains_seq, lowercase, matches_at, occurs_at, owned, str_eq,
    split_on, string_of, to_lowercase, trim, trim_chars,
};

verus! {

/// How the running binary was installed, which decides whether it can
/// replace itself.
#[derive(Debug, Clone, Copy, PartialEq, Eq, Structural)]
pub enum InstallMethod {
    /// `install.sh` or a binary placed by hand: can update itself.
    Manual,
    Homebrew,
    Cargo,
    Nix,
}

/// The install method that an executable path shows.
pub open spec fn method_of_path(p: Seq<char>) -> InstallMethod {
    if contains_seq(p, "/nix/store/"@) {
        InstallMethod::Nix
    } else if contains_seq(p, "/Cellar/"@) || contains_seq(p, "/homebrew/"@) {
        InstallMethod::Homebrew
    } else if contains_seq(p, "/.cargo/"@) {
        InstallMethod::Cargo
    } else {
        InstallMethod::Manual
    }
}

/// The command that upgrades a binary installed by `m`, none when the
/// application updates itself.
pub open spec fn upgrade_text(m: InstallMethod) -> Option<Seq<char>> {
    match m {
        InstallMethod::Manual => None,
        InstallMethod::Homebrew => Some("brew upgrade omnyssh"@),
        InstallMethod::Cargo => Some("cargo install omnyssh --force"@),
        InstallMethod::Nix => Some("nix profile upgrade omnyssh"@),
    }
}

impl InstallMethod {
    /// Classifies an executable path by well-known install locations.
    pub fn from_path(path: &str) -> (res: Self)
        ensures
            res == method_of_path(path@),
    {
        if contains(path, "/nix/store/") {
            InstallMethod::Nix
        } else if contains(path, "/Cellar/") || contains(path, "/homebrew/") {
            InstallMethod::Homebrew
        } else if contains(path, "/.cargo/") {
            InstallMethod::Cargo
        } else {
            InstallMethod::Manual
        }
    }

    /// The command the user runs to upgrade through this install method;
    /// `None` when the application can update itself.
    pub fn upgrade_command(self) -> (res: Option<&'static str>)
        ensures
            match res {
                Some(c) => upgrade_text(self) == Some(c@),
                None => upgrade_text(self) is None,
            },
    {
        match self {
            InstallMethod::Manual => None,
            InstallMethod::Homebrew => Some("brew upgrade omnyssh"),
            InstallMethod::Cargo => Some("cargo install omnyssh --force"),
            InstallMethod::Nix => Some("nix profile upgrade omnyssh"),
        }
    }
}

/// A newer release found by the update check.
#[derive(Debug, Clone)]
pub struct UpdateInfo {
    /// Version of this binary, without a leading `v`.
    pub current: String,
    /// Latest released version, without a leading `v`.
    pub latest: String,
    /// Git tag of the latest release, such as `v1.0.2`.
    pub tag: String,
    /// How this binary was installed.
    pub method: InstallMethod,
    /// Whether the application can download and install the update itself.
    pub can_self_update: bool,
}

/// The release page of the release tagged `tag`.
pub open spec fn release_page(tag: Seq<char>) -> Seq<char> {
    "https://github.com/timhartmann7/omnyssh/releases/tag/"@ + tag
}

impl UpdateInfo {
    /// URL of the release page, shown when the application cannot update
    /// itself.
    pub fn release_url(&self) -> (res: String)
        ensures
            res@ == release_page(self.tag@),
    {
        let mut out: Vec<char> = Vec::new();
        append_str(&mut out, "https://github.com/timhartmann7/omnyssh/releases/tag/");
        append_str(&mut out, self.tag.as_str());
        string_of(&out)
    }
}

/// Whether `semver::Version::parse` accepts `s`.
pub uninterp spec fn semver_valid(s: Seq<char>) -> bool;

/// Whether the version that `a` denotes is greater than the one that `b`
/// denotes, in the order of `semver::Version` (major, minor and patch numbers,
/// then pre-release, then build metadata).
pub uninterp spec fn semver_gt(a: Seq<char>, b: Seq<char>) -> bool;

/// A decimal numeral in canonical form: a single `0`, or digits that do not
/// start with `0`.
pub open spec fn canonical_numeral(d: Seq<char>) -> bool {
    &&& d.len() > 0
    &&& all_digits(d)
    &&& d[0] == '0' ==> d.len() == 1
}

/// A numeral that `semver` reads as a version number: canonical, and at most
/// `u64::MAX`.
pub open spec fn version_number(d: Seq<char>) -> bool {
    canonical_numeral(d) && digits_value(d) <= u64::MAX
}

/// The numbers of a release version written `MAJOR.MINOR.PATCH`, with no
/// pre-release or build part; `None` for any other text.
pub open spec fn release_numbers(s: Seq<char>) -> Option<(nat, nat, nat)> {
    let parts = split_on(s, '.');
    if parts.len() == 3 && version_number(parts[0]) && version_number(parts[1]) && version_number(
        parts[2],
    ) {
        Some((digits_value(parts[0]), digits_value(parts[1]), digits_value(parts[2])))
    } else {
        None
    }
}

/// `a` comes after `b` when compared number by number, major first.
pub open spec fn numbers_gt(a: (nat, nat, nat), b: (nat, nat, nat)) -> bool {
    ||| a.0 > b.0
    ||| a.0 == b.0 && a.1 > b.1
    ||| a.0 == b.0 && a.1 == b.1 && a.2 > b.2
}

/// `semver::Version::parse`, reduced to whether it accepts `s`. A release
/// version `MAJOR.MINOR.PATCH` of canonical numerals that fit in `u64` is
/// accepted (the parser reads each number digit by digit, refusing a leading
/// zero and an overflow).
#[verifier::external_body]
fn semver_accepts(s: &str) -> (res: bool)
    ensures
        res == semver_valid(s@),
        release_numbers(s@) is Some ==> res,
{
    semver::Version::parse(s).is_ok()
}

/// `>` on the `semver::Version` values that `latest` and `current` parse to.
/// That order is the one derived on the fields major, minor, patch, pre and
/// build, in that order; the contract states it for release versions, where
/// pre and build are empty, and states that no version is greater than
/// itself. The order among pre-release and build identifiers is left to the
/// name `semver_gt`.
#[verifier::external_body]
fn version_gt(latest: &str, current: &str) -> (res: bool)
    requires
        semver_valid(latest@),
        semver_valid(current@),
    ensures
        res == semver_gt(latest@, current@),
        latest@ == current@ ==> !res,
        release_numbers(latest@) is Some && release_numbers(current@) is Some ==> res
            == numbers_gt(release_numbers(latest@).unwrap(), release_numbers(current@).unwrap()),
{
    match (semver::Version::parse(latest), semver::Version::parse(current)) {
        (Ok(l), Ok(c)) => l > c,
        _ => false,
    }
}

/// Whether `latest` is a strictly greater semantic version than `current`;
/// an unparseable version on either side gives `false`. Release versions
/// compare number by number, and no version is newer than itself.
pub fn is_newer(latest: &str, current: &str) -> (res: bool)
    ensures
        res == (semver_valid(latest@) && semver_valid(current@) && semver_gt(latest@, current@)),
        latest@ == current@ ==> !res,
        release_numbers(latest@) is Some && release_numbers(current@) is Some ==> res
            == numbers_gt(release_numbers(latest@).unwrap(), release_numbers(current@).unwrap()),
{
    semver_accepts(latest) && semver_accepts(current) && version_gt(latest, current)
}

/// `s` without its leading `v` characters.
pub open spec fn trim_leading_v(s: Seq<char>) -> Seq<char>
    decreases s.len(),
{
    if s.len() > 0 && s[0] == 'v' {
        trim_leading_v(s.drop_first())
    } else {
        s
    }
}

fn strip_leading_v(s: &str) -> (res: String)
    ensures
        res@ == trim_leading_v(s@),
{
    let cs = chars_of(s);
    let mut i: usize = 0;
    assert(cs@.skip(0) =~= cs@);
    while i < cs.len() && cs[i] == 'v'
        invariant
            i <= cs.len(),
            trim_leading_v(cs@) == trim_leading_v(cs@.skip(i as int)),
        decreases cs.len() - i,
    {
        assert(cs@.skip(i as int).drop_first() =~= cs@.skip(i + 1));
        i = i + 1;
    }
    let mut out: Vec<char> = Vec::new();
    let mut k: usize = i;
    while k < cs.len()
        invariant
            i <= k <= cs.len(),
            out@ == cs@.subrange(i as int, k as int),
        decreases cs.len() - k,
    {
        out.push(cs[k]);
        assert(cs@.subrange(i as int, k + 1) =~= cs@.subrange(i as int, k as int).push(cs@[k as int]));
        k = k + 1;
    }
    assert(cs@.subrange(i as int, cs.len() as int) =~= cs@.skip(i as int));
    string_of(&out)
}

/// The update offered for the latest release tag `tag` to a binary at
/// version `current` installed by `method`, if the release is newer. The
/// application updates itself only when installed by hand, on a platform
/// where that is supported (`platform_ok`), and when its directory is
/// writable (`replaceable`).
pub fn update_for_release(
    tag: &str,
    current: &str,
    method: InstallMethod,
    platform_ok: bool,
    replaceable: bool,
) -> (res: Option<UpdateInfo>)
    ensures
        res is Some <==> semver_valid(trim_leading_v(tag@)) && semver_valid(current@) && semver_gt(
            trim_leading_v(tag@),
            current@,
        ),
        res matches Some(info) ==> {
            &&& info.current@ == current@
            &&& info.latest@ == trim_leading_v(tag@)
            &&& info.tag@ == tag@
            &&& info.method == method
            &&& info.can_self_update == (method == InstallMethod::Manual && platform_ok && replaceable)
        },
{
    let latest = strip_leading_v(tag);
    if !is_newer(latest.as_str(), current) {
        return None;
    }
    Some(
        UpdateInfo {
            current: owned(current),
            latest,
            tag: owned(tag),
            method,
            can_self_update: method == InstallMethod::Manual && platform_ok && replaceable,
        },
    )
}

/// The index of the first occurrence of `pat` in `s` at or after `i`, or -1.
pub open spec fn find_from(s: Seq<char>, pat: Seq<char>, i: int) -> int
    decreases s.len() - i,
{
    if i < 0 || i + pat.len() > s.len() {
        -1
    } else if occurs_at(s, pat, i) {
        i
    } else {
        find_from(s, pat, i + 1)
    }
}

/// The hash a `SHA256SUMS` line gives for `name`: the line splits at its
/// first double space into a hash and a file name, and the trimmed file name
/// is `name`; the hash comes trimmed and lower-cased.
pub open spec fn line_checksum(line: Seq<char>, name: Seq<char>) -> Option<Seq<char>> {
    let k = find_from(line, "  "@, 0);
    if k < 0 {
        None
    } else if trim(line.skip(k + 2)) == name {
        Some(lowercase(trim(line.take(k))))
    } else {
        None
    }
}

/// The hash the first matching line of `lines` gives for `name`.
pub open spec fn expected_checksum(lines: Seq<Seq<char>>, name: Seq<char>) -> Option<Seq<char>>
    decreases lines.len(),
{
    if lines.len() == 0 {
        None
    } else if line_checksum(lines[0], name) is Some {
        line_checksum(lines[0], name)
    } else {
        expected_checksum(lines.drop_first(), name)
    }
}

/// Why an archive whose SHA-256 is `actual` fails the check against the
/// `SHA256SUMS` text `sums` for `name`, if it does.
pub open spec fn checksum_error(actual: Seq<char>, sums: Seq<char>, name: Seq<char>) -> Option<Seq<char>> {
    match expected_checksum(lines_of(sums), name) {
        None => Some("no checksum entry for "@ + name),
        Some(e) => if actual == e {
            None
        } else {
            Some("checksum mismatch: expected "@ + e + ", got "@ + actual)
        },
    }
}

fn find_double_space(line: &[char]) -> (res: Option<usize>)
    ensures
        match res {
            Some(k) => k as int == find_from(line@, "  "@, 0) && k + 2 <= line.len(),
            None => find_from(line@, "  "@, 0) < 0,
        },
{
    let pat = chars_of("  ");
    proof {
        reveal_strlit("  ");
    }
    let mut i: usize = 0;
    while i < line.len() && line.len() - i >= 2
        invariant
            pat@ == "  "@,
            i <= line.len(),
            find_from(line@, "  "@, 0) == find_from(line@, "  "@, i as int),
        decreases line.len() + 2 - i,
    {
        if matches_at(line, &pat, i) {
            return Some(i);
        }
        i = i + 1;
    }
    None
}

fn line_checksum_exec(line: &[char], name: &str) -> (res: Option<String>)
    ensures
        match res {
            Some(h) => line_checksum(line@, name@) == Some(h@),
            None => line_checksum(line@, name@) is None,
        },
{
    match find_double_space(line) {
        None => None,
        Some(k) => {
            let mut hash: Vec<char> = Vec::new();
            let mut i: usize = 0;
            while i < k
                invariant
                    i <= k <= line.len(),
                    hash@ == line@.take(i as int),
                decreases k - i,
            {
                hash.push(line[i]);
                assert(line@.take(i + 1) =~= line@.take(i as int).push(line@[i as int]));
                i = i + 1;
            }
            let mut rest: Vec<char> = Vec::new();
            let mut j: usize = k + 2;
            while j < line.len()
                invariant
                    k + 2 <= j <= line.len(),
                    rest@ == line@.subrange(k + 2, j as int),
                decreases line.len() - j,
            {
                rest.push(line[j]);
                assert(line@.subrange(k + 2, j + 1) =~= line@.subrange(k + 2, j as int).push(line@[j as int]));
                j = j + 1;
            }
            assert(line@.subrange(k + 2, line.len() as int) =~= line@.skip(k + 2));
            let file = trim_chars(&rest);
            if crate::text::seq_eq(&file, &chars_of(name)) {
                let h = string_of(&trim_chars(&hash));
                Some(to_lowercase(h.as_str()))
            } else {
                None
            }
        },
    }
}

/// The verdict on an archive whose SHA-256, as lower-case hex, is `actual`,
/// against the `SHA256SUMS` text `sums` for the archive file `archive_name`.
///
/// # Errors
/// A message when `sums` has no line for the archive, or its hash differs.
pub fn checksum_verdict(actual: &str, sums: &str, archive_name: &str) -> (res: Result<(), String>)
    ensures
        match res {
            Ok(()) => checksum_error(actual@, sums@, archive_name@) is None,
            Err(e) => checksum_error(actual@, sums@, archive_name@) == Some(e@),
        },
{
    let lines = lines_chars(sums);
    let ghost lv = lines@.map_values(|l: Vec<char>| l@);
    let mut i: usize = 0;
    let mut expected: Option<String> = None;
    assert(lv.skip(0) =~= lv);
    while i < lines.len() && expected.is_none()
        invariant
            i <= lines.len(),
            lv == lines@.map_values(|l: Vec<char>| l@),
            lv == lines_of(sums@),
            match expected {
                None => expected_checksum(lv, archive_name@) == expected_checksum(lv.skip(i as int), archive_name@),
                Some(h) => expected_checksum(lv, archive_name@) == Some(h@),
            },
        decreases lines.len() - i,
    {
        assert(lv.skip(i as int)[0] == lines@[i as int]@);
        assert(lv.skip(i as int).drop_first() =~= lv.skip(i + 1));
        expected = line_checksum_exec(&lines[i], archive_name);
        i = i + 1;
    }
    let e = match expected {
        None => {
            proof {
                assert(lv.skip(i as int).len() == 0);
            }
            let mut msg: Vec<char> = Vec::new();
            append_str(&mut msg, "no checksum entry for ");
            append_str(&mut msg, archive_name);
            return Err(string_of(&msg));
        },
        Some(e) => e,
    };
    if crate::text::str_eq(actual, e.as_str()) {
        Ok(())
    } else {
        let mut msg: Vec<char> = Vec::new();
        append_str(&mut msg, "checksum mismatch: expected ");
        append_str(&mut msg, e.as_str());
        append_str(&mut msg, ", got ");
        append_str(&mut msg, actual);
        Err(string_of(&msg))
    }
}

/// The SHA-256 digest of some bytes, as lower-case hex.
pub uninterp spec fn sha256_hex(data: Seq<u8>) -> Seq<char>;

/// `sha2::Sha256::digest`, formatted as lower-case hex (`{:x}`).
#[verifier::external_body]
fn sha256_digest_hex(data: &[u8]) -> (res: String)
    ensures
        res@ == sha256_hex(data@),
{
    format!("{:x}", sha2::Sha256::digest(data))
}

/// Checks a downloaded archive against the `SHA256SUMS` entry for
/// `archive_name`.
///
/// # Errors
/// A message when `sums` has no line for the archive, or the archive's
/// SHA-256 differs from it.
pub fn verify_checksum(archive: &[u8], sums: &str, archive_name: &str) -> (res: Result<(), String>)
    ensures
        match res {
            Ok(()) => checksum_error(sha256_hex(archive@), sums@, archive_name@) is None,
            Err(e) => checksum_error(sha256_hex(archive@), sums@, archive_name@) == Some(e@),
        },
{
    let actual = sha256_digest_hex(archive);
    checksum_verdict(actual.as_str(), sums, archive_name)
}

/// The name of the executable inside a release archive.
pub open spec fn binary_name() -> Seq<char> {
    "omny"@
}

/// Whether an archive entry with file name `name` is the executable.
pub fn is_binary_entry(name: &str) -> (res: bool)
    ensures
        res == (name@ == binary_name()),
{
    str_eq(name, "omny")
}

/// The entries of the gzip-compressed tar archive `archive`, in order, each
/// as its file name (when it has one in UTF-8) and its contents; `None`
/// when the archive cannot be read to the end.
pub uninterp spec fn tar_gz_entries(archive: Seq<u8>) -> Option<Seq<(Option<Seq<char>>, Seq<u8>)>>;

/// The file names and contents of a list of archive entries.
pub open spec fn entries_view(es: Seq<(Option<String>, Vec<u8>)>) -> Seq<(Option<Seq<char>>, Seq<u8>)> {
    es.map_values(|e: (Option<String>, Vec<u8>)| (opt_view(e.0), e.1@))
}

/// Lists a gzip-compressed tar archive with `flate2::read::GzDecoder` and
/// `tar::Archive::entries`: each entry's file name (`Path::file_name` of its
/// path, when that is UTF-8) and its contents, read in full. The list is
/// named `tar_gz_entries`; a read error comes as its message.
#[verifier::external_body]
fn read_tar_gz(archive: &[u8]) -> (res: Result<Vec<(Option<String>, Vec<u8>)>, String>)
    ensures
        match res {
            Ok(es) => tar_gz_entries(archive@) == Some(entries_view(es@)),
            Err(_) => tar_gz_entries(archive@) is None,
        },
{
    let mut tar = tar::Archive::new(flate2::read::GzDecoder::new(archive));
    let entries = tar.entries().map_err(|e| format!("invalid tar archive: {e}"))?;
    entries.map(|entry| {
        let mut entry = entry.map_err(|e| format!("invalid tar entry: {e}"))?;
        let name = entry.path().ok().and_then(|p| p.file_name().and_then(|n| n.to_str()).map(|n| n.to_owned()));
        let mut buf = Vec::new();
        std::io::Read::read_to_end(&mut entry, &mut buf).map_err(|e| format!("failed to read entry: {e}"))?;
        Ok((name, buf))
    }).collect()
}

/// The update offered at startup, given what the release check `found`:
/// none when checks are off, none for the version the user chose to skip,
/// else the update found.
pub fn startup_offer(config: &UpdateConfig, found: Option<UpdateInfo>) -> (res: Option<UpdateInfo>)
    ensures
        res == if config.check_on_startup {
            match found {
                Some(i) => if i.latest@ == config.skip_version@ {
                    None
                } else {
                    Some(i)
                },
                None => None,
            }
        } else {
            None
        },
{
    if !config.check_on_startup {
        return None;
    }
    match found {
        Some(i) => {
            if str_eq(i.latest.as_str(), config.skip_version.as_str()) {
                None
            } else {
                Some(i)
            }
        },
        None => None,
    }
}

/// The contents of the first entry named `omny`, if any.
pub open spec fn first_binary_of(es: Seq<(Option<Seq<char>>, Seq<u8>)>) -> Option<Seq<u8>>
    decreases es.len(),
{
    if es.len() == 0 {
        None
    } else if es[0].0 == Some(binary_name()) {
        Some(es[0].1)
    } else {
        first_binary_of(es.drop_first())
    }
}

/// A copy of some bytes.
fn copy_bytes(b: &Vec<u8>) -> (res: Vec<u8>)
    ensures
        res@ == b@,
{
    let mut out: Vec<u8> = Vec::new();
    let mut i: usize = 0;
    while i < b.len()
        invariant
            i <= b.len(),
            out@ == b@.take(i as int),
        decreases b.len() - i,
    {
        out.push(b[i]);
        assert(b@.take(i + 1) =~= b@.take(i as int).push(b@[i as int]));
        i = i + 1;
    }
    assert(b@.take(b.len() as int) =~= b@);
    out
}

/// The contents of the first entry whose file name is `omny`, if any.
pub fn first_binary(entries: &[(Option<String>, Vec<u8>)]) -> (res: Option<Vec<u8>>)
    ensures
        match first_binary_of(entries_view(entries@)) {
            Some(b) => res matches Some(v) && v@ == b,
            None => res is None,
        },
{
    let ghost ev = entries_view(entries@);
    let mut i: usize = 0;
    assert(ev.skip(0) =~= ev);
    while i < entries.len()
        invariant
            i <= entries.len(),
            ev == entries_view(entries@),
            first_binary_of(ev) == first_binary_of(ev.skip(i as int)),
        decreases entries.len() - i,
    {
        assert(ev.skip(i as int)[0] == ev[i as int]);
        assert(ev.skip(i as int).drop_first() =~= ev.skip(i + 1));
        let named = match &entries[i].0 {
            Some(n) => is_binary_entry(n.as_str()),
            None => false,
        };
        if named {
            return Some(copy_bytes(&entries[i].1));
        }
        i = i + 1;
    }
    None
}

/// Extracts the `omny` binary from a gzip-compressed tar archive: the
/// contents of its first entry named `omny`.
///
/// # Errors
/// When the archive cannot be read or holds no `omny` file.
pub fn extract_binary(archive: &[u8]) -> (res: Result<Vec<u8>, String>)
    ensures
        match tar_gz_entries(archive@) {
            Some(es) => match first_binary_of(es) {
                Some(b) => res matches Ok(v) && v@ == b,
                None => res matches Err(e) && e@ == "archive does not contain the omny binary"@,
            },
            None => res is Err,
        },
{
    match read_tar_gz(archive) {
        Ok(es) => match first_binary(&es) {
            Some(b) => Ok(b),
            None => Err(owned("archive does not contain the omny binary")),
        },
        Err(e) => Err(e),
    }
}

/// A button of the update popup; they are laid out in `UPDATE_BUTTONS` order.
#[derive(Debug, Clone, Copy, PartialEq, Eq, Structural)]
pub enum UpdateButton {
    /// Install the update, or, when the application cannot update itself,
    /// dismiss the popup until the next launch.
    Primary,
    /// Never offer this version again.
    Skip,
    /// Turn update checks off.
    Disable,
}

/// The update popup's buttons, in display order.
pub const UPDATE_BUTTONS: [UpdateButton; 3] = [UpdateButton::Primary, UpdateButton::Skip, UpdateButton::Disable];

/// The phase of the update popup.
#[derive(Debug, Clone)]
pub enum UpdatePopupPhase {
    /// Waiting for a choice; `selected` is the highlighted button.
    Prompt { selected: usize },
    /// Downloading and installing.
    Installing,
    /// Finished, with a message and whether it succeeded.
    Done { message: String, ok: bool },
}

/// The "update available" popup.
#[derive(Debug, Clone)]
pub struct UpdatePopup {
    /// The release the popup offers.
    pub info: UpdateInfo,
    pub phase: UpdatePopupPhase,
}

impl UpdatePopup {
    /// Moves the highlighted button by `delta`, wrapping around; does
    /// nothing outside the prompt.
    pub fn move_selection(&mut self, delta: i32)
        requires
            old(self).phase matches UpdatePopupPhase::Prompt { selected } ==> selected < 3,
        ensures
            match old(self).phase {
                UpdatePopupPhase::Prompt { selected } => final(self).phase == UpdatePopupPhase::Prompt {
                    selected: ((selected + delta) % 3) as usize,
                },
                _ => final(self).phase == old(self).phase,
            },
            final(self).info == old(self).info,
    {
        match self.phase {
            UpdatePopupPhase::Prompt { selected } => {
                let shifted: i64 = selected as i64 + delta as i64 + 6442450944;
                let r: u64 = (shifted as u64) % 3;
                assert(r == (selected + delta) % 3) by (nonlinear_arith)
                    requires
                        shifted == selected + delta + 6442450944,
                        shifted >= 0,
                        r == shifted % 3,
                ;
                self.phase = UpdatePopupPhase::Prompt { selected: r as usize };
            },
            _ => {},
        }
    }
}


/// What the application does after a key on the update popup.
#[derive(Debug, Clone, Copy, PartialEq, Eq, Structural)]
pub enum UpdateEffect {
    /// Nothing more.
    Nothing,
    /// Download and install the offered release.
    Install,
    /// Save the changed update preferences.
    Persist,
}

/// The button chosen by index `i` of `UPDATE_BUTTONS`.
pub open spec fn button_at(i: usize) -> UpdateButton {
    if i == 0 {
        UpdateButton::Primary
    } else if i == 1 {
        UpdateButton::Skip
    } else {
        UpdateButton::Disable
    }
}

/// Handles a key on the update popup. In the prompt, Left/`h` and
/// Right/`l`/Tab move the highlight, Esc closes, and Enter carries out the
/// highlighted button: install (when the application can update itself) or
/// close; skip this version; or turn the checks off. While installing keys
/// do nothing; when done, Enter or Esc closes.
pub fn update_popup_key(popup: &mut Option<UpdatePopup>, config: &mut UpdateConfig, key: KeyEvent) -> (res: UpdateEffect)
    requires
        *old(popup) matches Some(p) ==> (p.phase matches UpdatePopupPhase::Prompt { selected } ==> selected < 3),
    ensures
        match *old(popup) {
            None => res == UpdateEffect::Nothing && *final(popup) == *old(popup) && *final(config) == *old(config),
            Some(p) => match p.phase {
                UpdatePopupPhase::Prompt { selected } => if key.code == KeyCode::Left || key.code == KeyCode::Char('h') {
                    &&& res == UpdateEffect::Nothing && *final(config) == *old(config)
                    &&& *final(popup) == Some(UpdatePopup { info: p.info, phase: UpdatePopupPhase::Prompt { selected: ((selected - 1) % 3) as usize } })
                } else if key.code == KeyCode::Right || key.code == KeyCode::Char('l') || key.code == KeyCode::Tab {
                    &&& res == UpdateEffect::Nothing && *final(config) == *old(config)
                    &&& *final(popup) == Some(UpdatePopup { info: p.info, phase: UpdatePopupPhase::Prompt { selected: ((selected + 1) % 3) as usize } })
                } else if key.code == KeyCode::Esc {
                    res == UpdateEffect::Nothing && *final(popup) is None && *final(config) == *old(config)
                } else if key.code == KeyCode::Enter {
                    match button_at(selected) {
                        UpdateButton::Primary => if p.info.can_self_update {
                            &&& res == UpdateEffect::Install && *final(config) == *old(config)
                            &&& *final(popup) == Some(UpdatePopup { info: p.info, phase: UpdatePopupPhase::Installing })
                        } else {
                            res == UpdateEffect::Nothing && *final(popup) is None && *final(config) == *old(config)
                        },
                        UpdateButton::Skip => {
                            &&& res == UpdateEffect::Persist && *final(popup) is None
                            &&& final(config).skip_version@ == p.info.latest@
                            &&& final(config).check_on_startup == old(config).check_on_startup
                        },
                        UpdateButton::Disable => {
                            &&& res == UpdateEffect::Persist && *final(popup) is None
                            &&& !final(config).check_on_startup
                            &&& final(config).skip_version == old(config).skip_version
                        },
                    }
                } else {
                    res == UpdateEffect::Nothing && *final(popup) == *old(popup) && *final(config) == *old(config)
                },
                UpdatePopupPhase::Installing => res == UpdateEffect::Nothing && *final(popup) == *old(popup)
                    && *final(config) == *old(config),
                UpdatePopupPhase::Done { .. } => {
                    &&& res == UpdateEffect::Nothing && *final(config) == *old(config)
                    &&& if key.code == KeyCode::Enter || key.code == KeyCode::Esc {
                        *final(popup) is None
                    } else {
                        *final(popup) == *old(popup)
                    }
                },
            },
        },
{
    let mut p = match popup.take() {
        None => {
            return UpdateEffect::Nothing;
        },
        Some(p) => p,
    };
    match p.phase {
        UpdatePopupPhase::Prompt { selected } => {
            if key.code == KeyCode::Left || key.code == KeyCode::Char('h') {
                p.move_selection(-1);
                *popup = Some(p);
                UpdateEffect::Nothing
            } else if key.code == KeyCode::Right || key.code == KeyCode::Char('l') || key.code == KeyCode::Tab {
                p.move_selection(1);
                *popup = Some(p);
                UpdateEffect::Nothing
            } else if key.code == KeyCode::Esc {
                UpdateEffect::Nothing
            } else if key.code == KeyCode::Enter {
                let button = if selected == 0 {
                    UpdateButton::Primary
                } else if selected == 1 {
                    UpdateButton::Skip
                } else {
                    UpdateButton::Disable
                };
                match button {
                    UpdateButton::Primary => {
                        if p.info.can_self_update {
                            p.phase = UpdatePopupPhase::Installing;
                            *popup = Some(p);
                            UpdateEffect::Install
                        } else {
                            UpdateEffect::Nothing
                        }
                    },
                    UpdateButton::Skip => {
                        config.skip_version = p.info.latest.clone();
                        UpdateEffect::Persist
                    },
                    UpdateButton::Disable => {
                        config.check_on_startup = false;
                        UpdateEffect::Persist
                    },
                }
            } else {
                *popup = Some(p);
                UpdateEffect::Nothing
            }
        },
        UpdatePopupPhase::Installing => {
            *popup = Some(p);
            UpdateEffect::Nothing
        },
        UpdatePopupPhase::Done { .. } => {
            if !(key.code == KeyCode::Enter || key.code == KeyCode::Esc) {
                *popup = Some(p);
            }
            UpdateEffect::Nothing
        },
    }
}

} // verus!
