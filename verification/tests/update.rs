use omnyssh::update::{
    checksum_verdict, extract_binary, first_binary, is_newer, startup_offer, update_for_release, verify_checksum, InstallMethod, UpdateButton,
    UpdateInfo, UpdatePopup, UpdatePopupPhase, UPDATE_BUTTONS,
};
use sha2::{Digest, Sha256};

#[test]
fn detects_install_method_from_path() {
    let cases = [
        ("/home/u/.cargo/bin/omny", InstallMethod::Cargo),
        (
            "/opt/homebrew/Cellar/omnyssh/1.0.1/bin/omny",
            InstallMethod::Homebrew,
        ),
        ("/usr/local/homebrew/bin/omny", InstallMethod::Homebrew),
        ("/nix/store/abc-omnyssh-1.0.1/bin/omny", InstallMethod::Nix),
        ("/usr/local/bin/omny", InstallMethod::Manual),
        ("/home/u/bin/omny", InstallMethod::Manual),
    ];
    for (path, expected) in cases {
        assert_eq!(InstallMethod::from_path(path), expected, "{path}");
    }
}

#[test]
fn upgrade_command_only_for_package_managers() {
    assert!(InstallMethod::Manual.upgrade_command().is_none());
    assert!(InstallMethod::Homebrew.upgrade_command().is_some());
    assert!(InstallMethod::Cargo.upgrade_command().is_some());
    assert!(InstallMethod::Nix.upgrade_command().is_some());
}

#[test]
fn upgrade_command_texts() {
    assert_eq!(
        InstallMethod::Homebrew.upgrade_command(),
        Some("brew upgrade omnyssh")
    );
    assert_eq!(
        InstallMethod::Cargo.upgrade_command(),
        Some("cargo install omnyssh --force")
    );
    assert_eq!(
        InstallMethod::Nix.upgrade_command(),
        Some("nix profile upgrade omnyssh")
    );
}

#[test]
fn is_newer_compares_semver() {
    assert!(is_newer("1.0.2", "1.0.1"));
    assert!(is_newer("1.1.0", "1.0.9"));
    assert!(is_newer("2.0.0", "1.9.9"));
    assert!(!is_newer("1.0.1", "1.0.1"));
    assert!(!is_newer("1.0.0", "1.0.1"));
    assert!(!is_newer("not-a-version", "1.0.1"));
    assert!(!is_newer("1.0.2", "garbage"));
}

#[test]
fn is_newer_orders_prereleases_and_numbers() {
    assert!(is_newer("1.0.0", "1.0.0-rc.1"));
    assert!(!is_newer("1.0.0-rc.1", "1.0.0"));
    assert!(is_newer("1.10.0", "1.9.0"));
    assert!(!is_newer("01.0.0", "0.9.0"));
    assert!(!is_newer("v1.0.2", "1.0.1"));
}

#[test]
fn checksum_verification() {
    let archive = b"release archive contents";
    let mut hasher = Sha256::new();
    hasher.update(archive);
    let digest = format!("{:x}", hasher.finalize());

    let sums = format!("{digest}  omny-x86_64-apple-darwin.tar.gz\nffff  omny-other.tar.gz\n");
    assert!(verify_checksum(archive, &sums, "omny-x86_64-apple-darwin.tar.gz").is_ok());
    assert!(verify_checksum(b"tampered", &sums, "omny-x86_64-apple-darwin.tar.gz").is_err());
    assert!(verify_checksum(archive, &sums, "omny-missing.tar.gz").is_err());
}

#[test]
fn checksum_messages() {
    let sums = "ABCD  a.tar.gz\r\nffff  b.tar.gz\n";
    assert_eq!(checksum_verdict("abcd", sums, "a.tar.gz"), Ok(()));
    assert_eq!(
        checksum_verdict("0000", sums, "b.tar.gz"),
        Err("checksum mismatch: expected ffff, got 0000".to_string())
    );
    assert_eq!(
        checksum_verdict("0000", sums, "c.tar.gz"),
        Err("no checksum entry for c.tar.gz".to_string())
    );
    assert_eq!(
        checksum_verdict("x", "x a.tar.gz\n", "a.tar.gz"),
        Err("no checksum entry for a.tar.gz".to_string())
    );
}

#[test]
fn verify_checksum_hashes_the_archive() {
    let sums = "e3b0c44298fc1c149afbf4c8996fb92427ae41e4649b934ca495991b7852b855  empty.tar.gz\n";
    assert!(verify_checksum(b"", sums, "empty.tar.gz").is_ok());
    assert!(verify_checksum(b"x", sums, "empty.tar.gz").is_err());
}

fn info() -> UpdateInfo {
    UpdateInfo {
        current: "1.0.1".to_string(),
        latest: "1.0.2".to_string(),
        tag: "v1.0.2".to_string(),
        method: InstallMethod::Manual,
        can_self_update: true,
    }
}

#[test]
fn release_url_points_at_the_tag() {
    assert_eq!(
        info().release_url(),
        "https://github.com/timhartmann7/omnyssh/releases/tag/v1.0.2"
    );
}

#[test]
fn update_offered_only_for_newer_release() {
    let u = update_for_release("v1.0.2", "1.0.1", InstallMethod::Manual, true, true).unwrap();
    assert_eq!(u.latest, "1.0.2");
    assert_eq!(u.tag, "v1.0.2");
    assert!(u.can_self_update);
    let u = update_for_release("v1.0.2", "1.0.1", InstallMethod::Homebrew, true, true).unwrap();
    assert!(!u.can_self_update);
    assert!(update_for_release("v1.0.1", "1.0.1", InstallMethod::Manual, true, true).is_none());
    assert!(update_for_release("latest", "1.0.1", InstallMethod::Manual, true, true).is_none());
}

#[test]
fn popup_selection_wraps_both_ways() {
    assert_eq!(
        UPDATE_BUTTONS,
        [UpdateButton::Primary, UpdateButton::Skip, UpdateButton::Disable]
    );
    let mut p = UpdatePopup {
        info: info(),
        phase: UpdatePopupPhase::Prompt { selected: 0 },
    };
    p.move_selection(-1);
    assert!(matches!(p.phase, UpdatePopupPhase::Prompt { selected: 2 }));
    p.move_selection(1);
    assert!(matches!(p.phase, UpdatePopupPhase::Prompt { selected: 0 }));
    p.move_selection(4);
    assert!(matches!(p.phase, UpdatePopupPhase::Prompt { selected: 1 }));
    p.phase = UpdatePopupPhase::Installing;
    p.move_selection(1);
    assert!(matches!(p.phase, UpdatePopupPhase::Installing));
}

fn make_targz(files: &[(&str, &[u8])]) -> Vec<u8> {
    let mut builder = tar::Builder::new(flate2::write::GzEncoder::new(
        Vec::new(),
        flate2::Compression::fast(),
    ));
    for (name, data) in files {
        let mut header = tar::Header::new_gnu();
        header.set_size(data.len() as u64);
        header.set_mode(0o755);
        header.set_cksum();
        builder.append_data(&mut header, name, *data).unwrap();
    }
    builder.into_inner().unwrap().finish().unwrap()
}

#[test]
fn extracts_omny_binary_from_archive() {
    let archive = make_targz(&[("omny", b"fake-binary-bytes")]);
    let binary = extract_binary(&archive).expect("extract");
    assert_eq!(binary, b"fake-binary-bytes");
}

#[test]
fn extract_fails_when_binary_absent() {
    let archive = make_targz(&[("readme.txt", b"hello")]);
    assert!(extract_binary(&archive).is_err());
}

#[test]
fn extract_takes_the_first_omny_entry_in_a_directory() {
    let archive = make_targz(&[("readme.txt", b"hello"), ("dist/omny", b"one"), ("omny", b"two")]);
    assert_eq!(extract_binary(&archive).unwrap(), b"one");
    assert_eq!(
        extract_binary(&make_targz(&[("readme.txt", b"x")])).unwrap_err(),
        "archive does not contain the omny binary"
    );
    assert!(extract_binary(b"not an archive").is_err());
}

fn release_info(latest: &str) -> UpdateInfo {
    UpdateInfo {
        current: "1.0.0".into(),
        latest: latest.into(),
        tag: format!("v{latest}"),
        method: InstallMethod::Manual,
        can_self_update: true,
    }
}

#[test]
fn startup_offer_respects_skip_and_disable() {
    let mut config = omnyssh::config::UpdateConfig { check_on_startup: true, skip_version: "1.2.0".into() };
    assert!(startup_offer(&config, Some(release_info("1.2.0"))).is_none());
    assert_eq!(startup_offer(&config, Some(release_info("1.3.0"))).unwrap().latest, "1.3.0");
    assert!(startup_offer(&config, None).is_none());
    config.check_on_startup = false;
    assert!(startup_offer(&config, Some(release_info("1.3.0"))).is_none());
}

#[test]
fn first_binary_picks_the_first_omny_entry() {
    let entries = vec![
        (Some("readme".to_string()), b"r".to_vec()),
        (None, b"x".to_vec()),
        (Some("omny".to_string()), b"one".to_vec()),
        (Some("omny".to_string()), b"two".to_vec()),
    ];
    assert_eq!(first_binary(&entries), Some(b"one".to_vec()));
    assert_eq!(first_binary(&entries[..2]), None);
}
