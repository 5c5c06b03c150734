use greycat_zed::install::{
    binary_path, installed_path, find_asset_url, join_path, prune_targets, should_prune, version_dir, Action, Event, InstallStatus,
    Installer, Phase, Release, ReleaseAsset,
};
use greycat_zed::platform::{Architecture, Os};
use greycat_zed::sidecar::LastCheck;

const DAY: u128 = 86_400_000;
const WORK_DIR: &str = "/ext/greycat";
const LINUX_ZIP: &str = "greycat-analyzer-x86_64-unknown-linux-gnu.zip";

fn linux() -> (Installer, Action) {
    Installer::start(Os::Linux, Architecture::X8664, WORK_DIR.to_string()).unwrap()
}

fn step(inst: Installer, event: Event) -> (Installer, Action) {
    assert!(inst.accepts_event(&event));
    inst.step(event)
}

fn release(version: &str, assets: &[(&str, &str)]) -> Release {
    Release {
        version: version.to_string(),
        assets: assets
            .iter()
            .map(|(n, u)| ReleaseAsset { name: n.to_string(), download_url: u.to_string() })
            .collect(),
    }
}

fn cached(tag: &str, at_ms: u128) -> Option<LastCheck> {
    Some(LastCheck { tag: Some(tag.to_string()), at_ms })
}

#[test]
fn paths_follow_the_release_tag() {
    assert_eq!(version_dir("v0.1.4"), "greycat-analyzer-v0.1.4");
    assert_eq!(binary_path("v0.1.4", "greycat-analyzer"), "greycat-analyzer-v0.1.4/greycat-analyzer");
    assert_eq!(join_path("dir/", "bin"), "dir/bin");
    assert_eq!(join_path("dir", "bin"), "dir/bin");
    assert_eq!(
        installed_path("/ext/greycat", "v0.1.4", "greycat-analyzer"),
        "/ext/greycat/greycat-analyzer-v0.1.4/greycat-analyzer"
    );
    assert_eq!(installed_path("/", "v1", "greycat-analyzer.exe"), "/greycat-analyzer-v1/greycat-analyzer.exe");
}

#[test]
fn unsupported_platform_fails_before_any_work() {
    assert!(Installer::start(Os::Mac, Architecture::X8664, WORK_DIR.to_string()).is_err());
}

#[test]
fn fresh_cache_is_used_without_network() {
    let (inst, action) = linux();
    assert_eq!(action, Action::ReadCache);
    let (inst, action) = step(inst, Event::CacheLoaded { cached: cached("v1", 1_000), now_ms: 1_000 + DAY });
    assert_eq!(action, Action::CheckExists("greycat-analyzer-v1/greycat-analyzer".to_string()));
    let (inst, action) = step(inst, Event::Exists(true));
    assert_eq!(action, Action::Finish(Ok("/ext/greycat/greycat-analyzer-v1/greycat-analyzer".to_string())));
    assert_eq!(inst.phase, Phase::Finished);
    assert!(!inst.accepts_event(&Event::Done));
}

#[test]
fn fresh_cache_with_missing_binary_checks_for_update() {
    let (inst, _) = linux();
    let (inst, _) = step(inst, Event::CacheLoaded { cached: cached("v1", 1_000), now_ms: 2_000 });
    let (inst, action) = step(inst, Event::Exists(false));
    assert_eq!(action, Action::SetStatus(InstallStatus::CheckingForUpdate));
    let (_, action) = step(inst, Event::Done);
    assert_eq!(action, Action::FetchRelease);
}

#[test]
fn stale_or_missing_cache_checks_for_update() {
    for (c, now) in [
        (cached("v1", 1_000), 1_001 + DAY),
        (cached("v1", 5_000), 4_000),
        (Some(LastCheck { tag: None, at_ms: 1_000 }), 1_000),
        (None, 0),
    ] {
        let (inst, _) = linux();
        let (inst, action) = step(inst, Event::CacheLoaded { cached: c, now_ms: now });
        assert_eq!(action, Action::SetStatus(InstallStatus::CheckingForUpdate));
        let (_, action) = step(inst, Event::Done);
        assert_eq!(action, Action::FetchRelease);
    }
}

fn at_release_lookup(c: Option<LastCheck>) -> Installer {
    let (inst, _) = linux();
    let (inst, _) = step(inst, Event::CacheLoaded { cached: c, now_ms: 10 * DAY });
    let (inst, action) = step(inst, Event::Done);
    assert_eq!(action, Action::FetchRelease);
    inst
}

#[test]
fn offline_falls_back_to_cached_binary() {
    let inst = at_release_lookup(cached("v1", 0));
    let (inst, action) = step(inst, Event::Fetched(Err("offline".to_string())));
    assert_eq!(action, Action::CheckExists("greycat-analyzer-v1/greycat-analyzer".to_string()));
    let (inst, action) = step(inst, Event::Exists(true));
    assert_eq!(action, Action::SetStatus(InstallStatus::Idle));
    let (inst, action) = step(inst, Event::Done);
    assert_eq!(action, Action::Log("[greycat] update check failed (offline); using cached binary v1".to_string()));
    let (_, action) = step(inst, Event::Done);
    assert_eq!(action, Action::Finish(Ok("/ext/greycat/greycat-analyzer-v1/greycat-analyzer".to_string())));
}

#[test]
fn offline_without_cached_binary_fails() {
    let inst = at_release_lookup(cached("v1", 0));
    let (inst, _) = step(inst, Event::Fetched(Err("offline".to_string())));
    let (inst, action) = step(inst, Event::Exists(false));
    assert_eq!(action, Action::SetStatus(InstallStatus::Failed("could not fetch latest release: offline".to_string())));
    let (_, action) = step(inst, Event::Done);
    assert_eq!(action, Action::Finish(Err("greycat-analyzer install failed: offline".to_string())));

    let inst = at_release_lookup(None);
    let (inst, action) = step(inst, Event::Fetched(Err("503".to_string())));
    assert_eq!(action, Action::SetStatus(InstallStatus::Failed("could not fetch latest release: 503".to_string())));
    let (_, action) = step(inst, Event::Done);
    assert_eq!(action, Action::Finish(Err("greycat-analyzer install failed: 503".to_string())));
}

#[test]
fn present_release_is_not_downloaded_again() {
    let inst = at_release_lookup(None);
    let (inst, action) = step(inst, Event::Fetched(Ok(release("v2", &[(LINUX_ZIP, "https://x/linux.zip")]))));
    assert_eq!(action, Action::CheckExists("greycat-analyzer-v2/greycat-analyzer".to_string()));
    let (inst, action) = step(inst, Event::Exists(true));
    assert_eq!(action, Action::RecordCheck("v2".to_string()));
    let (inst, action) = step(inst, Event::Done);
    assert_eq!(action, Action::SetStatus(InstallStatus::Idle));
    let (_, action) = step(inst, Event::Done);
    assert_eq!(action, Action::Finish(Ok("/ext/greycat/greycat-analyzer-v2/greycat-analyzer".to_string())));
}

#[test]
fn new_release_is_downloaded_and_installed() {
    let inst = at_release_lookup(cached("v1", 0));
    let rel = release("v2", &[("other.zip", "https://x/other.zip"), (LINUX_ZIP, "https://x/linux.zip")]);
    let (inst, _) = step(inst, Event::Fetched(Ok(rel)));
    let (inst, action) = step(inst, Event::Exists(false));
    assert_eq!(action, Action::SetStatus(InstallStatus::Downloading));
    let (inst, action) = step(inst, Event::Done);
    assert_eq!(
        action,
        Action::Download { url: "https://x/linux.zip".to_string(), dir: "greycat-analyzer-v2".to_string() }
    );
    let (inst, action) = step(inst, Event::Completed(Ok(())));
    assert_eq!(action, Action::CheckExists("greycat-analyzer-v2/greycat-analyzer".to_string()));
    let (inst, action) = step(inst, Event::Exists(true));
    assert_eq!(action, Action::MakeExecutable("greycat-analyzer-v2/greycat-analyzer".to_string()));
    let (inst, action) = step(inst, Event::Completed(Ok(())));
    assert_eq!(action, Action::Prune("v2".to_string()));
    let (inst, action) = step(inst, Event::Done);
    assert_eq!(action, Action::RecordCheck("v2".to_string()));
    let (inst, action) = step(inst, Event::Done);
    assert_eq!(action, Action::SetStatus(InstallStatus::Idle));
    let (inst, action) = step(inst, Event::Done);
    assert_eq!(action, Action::Finish(Ok("/ext/greycat/greycat-analyzer-v2/greycat-analyzer".to_string())));
    assert_eq!(inst.phase, Phase::Finished);
}

#[test]
fn release_without_platform_archive_fails() {
    let inst = at_release_lookup(None);
    let rel = release("v3", &[("a.zip", "u1"), ("b.zip", "u2")]);
    let (inst, _) = step(inst, Event::Fetched(Ok(rel)));
    let (_, action) = step(inst, Event::Exists(false));
    assert_eq!(
        action,
        Action::Finish(Err(format!(
            "release v3 does not contain expected asset `{LINUX_ZIP}`. Available: a.zip, b.zip"
        )))
    );
}

fn at_download() -> Installer {
    let inst = at_release_lookup(None);
    let (inst, _) = step(inst, Event::Fetched(Ok(release("v2", &[(LINUX_ZIP, "https://x/l.zip")]))));
    let (inst, _) = step(inst, Event::Exists(false));
    let (inst, _) = step(inst, Event::Done);
    inst
}

#[test]
fn failed_download_is_reported() {
    let (_, action) = step(at_download(), Event::Completed(Err("timeout".to_string())));
    assert_eq!(action, Action::Finish(Err("download of https://x/l.zip failed: timeout".to_string())));
}

#[test]
fn archive_without_binary_is_reported() {
    let (inst, _) = step(at_download(), Event::Completed(Ok(())));
    let (_, action) = step(inst, Event::Exists(false));
    assert_eq!(
        action,
        Action::Finish(Err(format!("zip `{LINUX_ZIP}` did not contain expected binary `greycat-analyzer`")))
    );
}

#[test]
fn binary_that_cannot_be_made_executable_is_reported() {
    let (inst, _) = step(at_download(), Event::Completed(Ok(())));
    let (inst, _) = step(inst, Event::Exists(true));
    let (_, action) = step(inst, Event::Completed(Err("EPERM".to_string())));
    assert_eq!(
        action,
        Action::Finish(Err("could not mark greycat-analyzer-v2/greycat-analyzer executable: EPERM".to_string()))
    );
}

#[test]
fn windows_installs_exe() {
    let (inst, _) = Installer::start(Os::Windows, Architecture::X8664, WORK_DIR.to_string()).unwrap();
    let (inst, action) = step(inst, Event::CacheLoaded { cached: cached("v1", 0), now_ms: 0 });
    assert_eq!(action, Action::CheckExists("greycat-analyzer-v1/greycat-analyzer.exe".to_string()));
    assert!(!inst.accepts_event(&Event::Done));
}

#[test]
fn first_matching_asset_is_chosen() {
    let rel = release("v1", &[("a", "1"), ("b", "2"), ("b", "3")]);
    assert_eq!(find_asset_url(&rel.assets, "b"), Some("2".to_string()));
    assert_eq!(find_asset_url(&rel.assets, "c"), None);
}

#[test]
fn pruning_keeps_current_version() {
    let names: Vec<String> = [
        "greycat-analyzer-v1",
        "greycat-analyzer-v2",
        ".last-check.json",
        "greycat-analyzer-v0",
        "other",
    ]
    .iter()
    .map(|s| s.to_string())
    .collect();
    assert_eq!(
        prune_targets(&names, "v2"),
        vec!["greycat-analyzer-v1".to_string(), "greycat-analyzer-v0".to_string()]
    );
    assert!(!should_prune("greycat-analyzer-v2", "v2"));
    assert!(should_prune("greycat-analyzer-", "v2"));
    assert!(!should_prune("greycat-analyze", "v2"));
}
