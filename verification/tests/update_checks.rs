use stassh::install::{
    prompt_for, startup_key_action, startup_title, InstallPhase, InstallProgress, PromptKeyOutcome,
    StartupKeyAction, UpdateInstallStatus,
};
use stassh::input::KeyCode;
use stassh::update::{
    check_for_updates, parse_version, release_outcome, select_archive_asset, select_checksum_asset,
    version_from_tag, LatestRelease, ReleaseAsset, UpdateCheckStatus,
};
use stassh::version::{self, describe_update_status, version_status_of, VersionCheckStatus};

const TARGET: &str = "x86_64-unknown-linux-gnu";

fn asset(name: &str) -> ReleaseAsset {
    ReleaseAsset {
        name: name.to_string(),
        browser_download_url: format!("https://example.invalid/{name}"),
    }
}

fn release(tag: &str, draft: bool, prerelease: bool, assets: Vec<ReleaseAsset>) -> LatestRelease {
    LatestRelease {
        tag_name: tag.to_string(),
        html_url: "https://example.invalid/release".to_string(),
        prerelease,
        draft,
        assets,
    }
}

fn full_assets() -> Vec<ReleaseAsset> {
    vec![
        asset("stassh-aarch64-apple-darwin.tar.gz"),
        asset("stassh-x86_64-unknown-linux-gnu.zip"),
        asset("stassh-x86_64-unknown-linux-gnu.tar.gz"),
        asset("SHA256SUMS"),
    ]
}

#[test]
fn version_text_round_trips_through_display() {
    let v = parse_version("1.2.3-rc.1+build.5").unwrap();
    assert_eq!(v.to_text(), "1.2.3-rc.1+build.5");
    assert_eq!((v.major(), v.minor(), v.patch()), (1, 2, 3));
    assert_eq!(version_from_tag("v0.10.0").unwrap().to_text(), "0.10.0");
    assert_eq!(version_from_tag("2.0.1").unwrap().to_text(), "2.0.1");
}

#[test]
fn unparsable_versions_are_errors() {
    assert!(parse_version("1.0").is_err());
    assert!(version_from_tag("vv1.0.0").is_err());
    assert!(parse_version("01.0.0").is_err());
}

#[test]
fn newer_compares_numbers_then_prerelease() {
    let a = parse_version("1.10.0").unwrap();
    let b = parse_version("1.9.9").unwrap();
    assert!(a.is_newer_than(&b));
    assert!(!b.is_newer_than(&a));
    assert!(!a.is_newer_than(&a.duplicate()));
    let rel = parse_version("2.0.0").unwrap();
    let pre = parse_version("2.0.0-alpha").unwrap();
    assert!(rel.is_newer_than(&pre));
    assert!(!pre.is_newer_than(&rel));
}

#[test]
fn archive_asset_is_first_matching_tarball() {
    let picked = select_archive_asset(&full_assets(), TARGET).unwrap();
    assert_eq!(picked.name, "stassh-x86_64-unknown-linux-gnu.tar.gz");
    let err = select_archive_asset(&full_assets(), "riscv64gc-unknown-linux-gnu").unwrap_err();
    assert_eq!(err, "no matching update asset for target riscv64gc-unknown-linux-gnu");
    assert_eq!(select_checksum_asset(&full_assets()).unwrap().name, "SHA256SUMS");
    assert!(select_checksum_asset(&[asset("notes.txt")]).is_none());
    assert_eq!(
        select_checksum_asset(&[asset("stassh-checksums.txt"), asset("SHA256SUMS")]).unwrap().name,
        "stassh-checksums.txt"
    );
}

#[test]
fn newer_published_release_offers_update() {
    let status = check_for_updates("1.0.0", Ok(release("v1.1.0", false, false, full_assets())), TARGET).unwrap();
    match status {
        UpdateCheckStatus::UpdateAvailable { current, latest, release_url, asset, checksum_asset } => {
            assert_eq!(current.to_text(), "1.0.0");
            assert_eq!(latest.to_text(), "1.1.0");
            assert_eq!(release_url, "https://example.invalid/release");
            assert_eq!(asset.name, "stassh-x86_64-unknown-linux-gnu.tar.gz");
            assert_eq!(checksum_asset.unwrap().name, "SHA256SUMS");
        }
        other => panic!("unexpected {other:?}"),
    }
}

#[test]
fn drafts_prereleases_and_older_releases_offer_nothing() {
    for (tag, draft, pre) in [("v1.1.0", true, false), ("v1.1.0", false, true), ("v1.0.0", false, false), ("v0.9.0", false, false)] {
        let status = check_for_updates("1.0.0", Ok(release(tag, draft, pre, full_assets())), TARGET).unwrap();
        assert!(matches!(status, UpdateCheckStatus::NoUpdate { .. }), "{tag} {draft} {pre}");
    }
}

#[test]
fn update_check_errors() {
    let err = check_for_updates("not-a-version", Ok(release("v1.1.0", false, false, full_assets())), TARGET).unwrap_err();
    assert_eq!(err, "invalid current version: not-a-version");
    let err = check_for_updates("1.0.0", Err("network down".to_string()), TARGET).unwrap_err();
    assert_eq!(err, "network down");
    let err = check_for_updates("1.0.0", Ok(release("v1.1.0", false, false, vec![asset("SHA256SUMS")])), TARGET).unwrap_err();
    assert_eq!(err, format!("no matching update asset for target {TARGET}"));
    assert!(check_for_updates("1.0.0", Ok(release("latest", false, false, full_assets())), TARGET).is_err());
}

#[test]
fn release_outcome_takes_the_comparison_as_given() {
    let current = parse_version("3.0.0").unwrap();
    let latest = parse_version("1.0.0").unwrap();
    let rel = release("v1.0.0", false, false, full_assets());
    let status = release_outcome(current, latest, true, &rel, TARGET).unwrap();
    assert!(matches!(status, UpdateCheckStatus::UpdateAvailable { .. }));
    let current = parse_version("3.0.0").unwrap();
    let latest = parse_version("4.0.0").unwrap();
    let status = release_outcome(current, latest, false, &rel, TARGET).unwrap();
    assert!(matches!(status, UpdateCheckStatus::NoUpdate { .. }));
}

#[test]
fn version_check_statuses() {
    let up = version::check_for_updates("1.2.0", Ok(release("v1.3.0", false, false, vec![]))).unwrap();
    assert_eq!(describe_update_status(&up), "new release 1.3.0 available (https://example.invalid/release)");
    let same = version::check_for_updates("1.2.0", Ok(release("v1.2.0", false, false, vec![]))).unwrap();
    assert_eq!(describe_update_status(&same), "up to date (1.2.0)");
    let draft = version::check_for_updates("1.2.0", Ok(release("garbage", true, false, vec![]))).unwrap();
    assert!(matches!(draft, VersionCheckStatus::UpToDate { .. }));
    let err = version::check_for_updates("1.2.0", Ok(release("garbage", false, false, vec![]))).unwrap_err();
    assert_eq!(err, "invalid release tag: garbage");
    assert_eq!(describe_update_status(&VersionCheckStatus::Idle), "idle (update check pending)");
    assert_eq!(describe_update_status(&VersionCheckStatus::Checking), "checking for updates...");
    assert_eq!(
        describe_update_status(&VersionCheckStatus::Error("boom".to_string())),
        "error checking updates: boom"
    );
}

#[test]
fn check_result_maps_to_status_and_prompt() {
    let status = check_for_updates("1.0.0", Ok(release("v2.0.0", false, false, full_assets())), TARGET).unwrap();
    let shown = version_status_of(&status);
    assert_eq!(describe_update_status(&shown), "new release 2.0.0 available (https://example.invalid/release)");
    let mut prompt = prompt_for(&status).unwrap();
    assert_eq!(prompt.current_version, "1.0.0");
    assert_eq!(prompt.latest_version, "2.0.0");
    assert!(prompt.choice.selected);
    assert_eq!(stassh::install::handle_update_prompt_key(&mut prompt, KeyCode::Right), PromptKeyOutcome::Stay);
    assert!(!prompt.choice.selected);
    assert_eq!(stassh::install::handle_update_prompt_key(&mut prompt, KeyCode::Enter), PromptKeyOutcome::Dismiss);
    assert_eq!(stassh::install::handle_update_prompt_key(&mut prompt, KeyCode::Char('y')), PromptKeyOutcome::Install);
    assert_eq!(stassh::install::handle_update_prompt_key(&mut prompt, KeyCode::Esc), PromptKeyOutcome::Dismiss);
    let none = check_for_updates("1.0.0", Ok(release("v0.1.0", false, false, full_assets())), TARGET).unwrap();
    assert!(prompt_for(&none).is_none());
    let err = UpdateCheckStatus::Error("x".to_string());
    assert!(matches!(version_status_of(&err), VersionCheckStatus::Error(ref e) if e == "x"));
}

#[test]
fn install_progress_follows_reports() {
    let mut p = InstallProgress::downloading();
    assert!(!p.apply_install_status(UpdateInstallStatus::Downloading { downloaded: 10, total: Some(100) }));
    assert_eq!((p.downloaded, p.total), (10, Some(100)));
    assert!(!p.apply_install_status(UpdateInstallStatus::Verifying));
    assert_eq!(p.phase, InstallPhase::Verifying);
    assert!(!p.apply_install_status(UpdateInstallStatus::Failed("disk full".to_string())));
    assert_eq!(p.phase, InstallPhase::Failed);
    assert_eq!(p.message.as_deref(), Some("disk full"));
    assert!(p.apply_install_status(UpdateInstallStatus::Done));
    assert_eq!(p.phase, InstallPhase::Done);
    p.spinner_frame = usize::MAX;
    p.advance_spinner();
    assert_eq!(p.spinner_frame, 0);
}

#[test]
fn startup_screen_keys_and_title() {
    assert_eq!(startup_key_action(InstallPhase::Prompt, KeyCode::Enter), StartupKeyAction::StartInstall);
    assert_eq!(startup_key_action(InstallPhase::Prompt, KeyCode::Char('s')), StartupKeyAction::Skip);
    assert_eq!(startup_key_action(InstallPhase::Failed, KeyCode::Enter), StartupKeyAction::Skip);
    assert_eq!(startup_key_action(InstallPhase::Downloading, KeyCode::Esc), StartupKeyAction::Nothing);
    assert_eq!(startup_title(InstallPhase::Downloading, 1), "\\ Downloading update...");
    assert_eq!(startup_title(InstallPhase::Verifying, 6), "| Verifying download...");
    assert_eq!(startup_title(InstallPhase::Done, 3), "Update installed");
}

#[test]
fn build_target_for_platforms() {
    let t = stassh::update::target_triple;
    assert_eq!(t(Some("riscv64gc-unknown-linux-gnu"), "linux", "x86_64"), "riscv64gc-unknown-linux-gnu");
    assert_eq!(t(Some(""), "linux", "x86_64"), "x86_64-unknown-linux-gnu");
    assert_eq!(t(None, "linux", "aarch64"), "aarch64-unknown-linux-gnu");
    assert_eq!(t(None, "macos", "x86_64"), "x86_64-apple-darwin");
    assert_eq!(t(None, "macos", "aarch64"), "aarch64-apple-darwin");
    assert_eq!(t(None, "windows", "x86_64"), "");
}
