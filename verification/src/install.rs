//! The managed install of the analyzer, as a state machine.
//!
//! The install interleaves work that only the editor host can do (reading the
//! sidecar, asking GitHub for the latest release, downloading, marking files
//! executable) with decisions. The decisions live here: `Installer::step`
//! takes what the last piece of work reported and names the next piece of
//! work. The caller performs each `Action` and reports back the matching
//! `Event`, until the action is `Finish`.
//!
//! What the machine does, in order:
//! - Read the sidecar. If it names a tag and the lookup is less than a day
//!   old, and that tag's binary is still on disk, use it without any network.
//! - Otherwise announce "checking for update" and ask for the latest release.
//! - If that fails and the sidecar names a tag whose binary is on disk, fall
//!   back to it (the user keeps a working server offline); otherwise fail.
//! - If the latest release's binary is already on disk, use it. Otherwise find
//!   this platform's archive among the release's assets, download it into
//!   `greycat-analyzer-<tag>/`, check the binary is there, mark it executable
//!   and remove the other versions' directories.
//! - Record the lookup in the sidecar, clear the status, and use the binary.

use vstd::prelude::*;
use crate::platform::{
    asset_filename_for_platform, binary_filename, spec_asset_name, spec_binary_filename,
    spec_unsupported_platform_message, Architecture, Os,
};
use crate::sidecar::{is_stale, spec_is_stale, LastCheck};
use crate::text::{join_strings, opt_text, spec_join, str_equal};

verus! {

/// Repository on github.com that publishes the analyzer's releases.
pub const ANALYZER_REPO: &'static str = "maxleiko/greycat-analyzer";

/// Prefix of every directory that holds a downloaded analyzer version.
pub const VERSION_DIR_PREFIX: &'static str = "greycat-analyzer-";

// ---------------------------------------------------------------------------
// Paths
// ---------------------------------------------------------------------------

/// Directory of a downloaded version: `greycat-analyzer-<tag>`, the tag kept
/// as GitHub spells it (often with a `v` prefix).
pub open spec fn spec_version_dir(tag: Seq<char>) -> Seq<char> {
    VERSION_DIR_PREFIX@ + tag
}

/// `name` inside directory `dir`, with one `/` between them.
pub open spec fn spec_join_path(dir: Seq<char>, name: Seq<char>) -> Seq<char> {
    if dir.len() > 0 && dir.last() == '/' {
        dir + name
    } else {
        dir + "/"@ + name
    }
}

/// Where a version's binary lives, relative to the extension's working directory.
pub open spec fn spec_binary_path(tag: Seq<char>, binary: Seq<char>) -> Seq<char> {
    spec_join_path(spec_version_dir(tag), binary)
}

/// The path an install returns: the version's binary inside the extension's
/// working directory `work_dir`, so absolute when `work_dir` is.
pub open spec fn spec_installed_path(work_dir: Seq<char>, tag: Seq<char>, binary: Seq<char>) -> Seq<char> {
    spec_join_path(work_dir, spec_binary_path(tag, binary))
}

/// Whether a path is absolute: it starts at the root, `/`.
pub open spec fn is_absolute(path: Seq<char>) -> bool {
    path.len() > 0 && path[0] == '/'
}

/// Directory of a downloaded version.
pub fn version_dir(tag: &str) -> (res: String)
    ensures
        res@ == spec_version_dir(tag@),
{
    let mut dir = String::from_str(VERSION_DIR_PREFIX);
    dir.append(tag);
    dir
}

fn ends_with_slash(s: &str) -> (res: bool)
    ensures
        res == (s@.len() > 0 && s@.last() == '/'),
{
    let n = s.unicode_len();
    n > 0 && s.get_char(n - 1) == '/'
}

/// `name` inside directory `dir`.
pub fn join_path(dir: &str, name: &str) -> (res: String)
    ensures
        res@ == spec_join_path(dir@, name@),
{
    let mut path = String::from_str(dir);
    if !ends_with_slash(dir) {
        path.append("/");
    }
    path.append(name);
    path
}

/// Where a version's binary lives, relative to the extension's working directory.
pub fn binary_path(tag: &str, binary: &str) -> (res: String)
    ensures
        res@ == spec_binary_path(tag@, binary@),
{
    let dir = version_dir(tag);
    join_path(dir.as_str(), binary)
}

/// The path an install returns for a version's binary.
pub fn installed_path(work_dir: &str, tag: &str, binary: &str) -> (res: String)
    ensures
        res@ == spec_installed_path(work_dir@, tag@, binary@),
{
    let relative = binary_path(tag, binary);
    join_path(work_dir, relative.as_str())
}

// ---------------------------------------------------------------------------
// Pruning
// ---------------------------------------------------------------------------

/// Whether `s` starts with `prefix`.
pub open spec fn has_prefix(s: Seq<char>, prefix: Seq<char>) -> bool {
    prefix.len() <= s.len() && s.subrange(0, prefix.len() as int) == prefix
}

/// Whether `s` starts with `prefix`.
pub fn starts_with(s: &str, prefix: &str) -> (res: bool)
    ensures
        res == has_prefix(s@, prefix@),
{
    let n = prefix.unicode_len();
    if s.unicode_len() < n {
        return false;
    }
    let mut i: usize = 0;
    while i < n
        invariant
            n == prefix@.len(),
            n <= s@.len(),
            i <= n,
            forall|j: int| 0 <= j < i ==> s@[j] == prefix@[j],
        decreases n - i,
    {
        if s.get_char(i) != prefix.get_char(i) {
            return false;
        }
        i = i + 1;
    }
    assert(s@.subrange(0, n as int) =~= prefix@);
    true
}

/// Whether a directory entry is another version's directory, to remove when
/// `keep` is installed: it is named `greycat-analyzer-*` and is not `keep`'s.
pub open spec fn spec_should_prune(name: Seq<char>, keep: Seq<char>) -> bool {
    has_prefix(name, VERSION_DIR_PREFIX@) && name != spec_version_dir(keep)
}

/// Whether a directory entry is another version's directory.
pub fn should_prune(name: &str, keep: &str) -> (res: bool)
    ensures
        res == spec_should_prune(name@, keep@),
{
    let keep_name = version_dir(keep);
    starts_with(name, VERSION_DIR_PREFIX) && !str_equal(name, keep_name.as_str())
}

/// The entries of the working directory to remove once `keep` is installed,
/// in their order. The kept version's directory is never among them.
pub fn prune_targets(names: &Vec<String>, keep: &str) -> (res: Vec<String>)
    ensures
        res.deep_view() == names.deep_view().filter(|n: Seq<char>| spec_should_prune(n, keep@)),
        !res.deep_view().contains(spec_version_dir(keep@)),
{
    let ghost all = names.deep_view();
    let ghost pred = |n: Seq<char>| spec_should_prune(n, keep@);
    let mut out: Vec<String> = Vec::new();
    let mut i: usize = 0;
    while i < names.len()
        invariant
            i <= names.len(),
            all == names.deep_view(),
            pred == (|n: Seq<char>| spec_should_prune(n, keep@)),
            out.deep_view() == all.take(i as int).filter(pred),
        decreases names.len() - i,
    {
        proof {
            reveal_with_fuel(Seq::<_>::filter, 1);
            assert(all.take(i + 1).drop_last() =~= all.take(i as int));
        }
        if should_prune(names[i].as_str(), keep) {
            let ghost before = out.deep_view();
            let name = names[i].clone();
            out.push(name);
            assert(out.deep_view() =~= before.push(all[i as int]));
        }
        i = i + 1;
    }
    proof {
        assert(all.take(names.len() as int) =~= all);
        let kept = spec_version_dir(keep@);
        if out.deep_view().contains(kept) {
            let j = choose|j: int| 0 <= j < all.filter(pred).len() && all.filter(pred)[j] == kept;
            all.lemma_filter_pred(pred, j);
        }
    }
    out
}

// ---------------------------------------------------------------------------
// Releases
// ---------------------------------------------------------------------------

/// A file attached to a release.
#[derive(Clone, Debug, PartialEq, Eq)]
pub struct ReleaseAsset {
    pub name: String,
    pub download_url: String,
}

/// A GitHub release: its version (the tag) and its files.
#[derive(Clone, Debug, PartialEq, Eq)]
pub struct Release {
    pub version: String,
    pub assets: Vec<ReleaseAsset>,
}

/// An asset, as the contracts speak of it.
pub struct AssetModel {
    pub name: Seq<char>,
    pub url: Seq<char>,
}

/// A release, as the contracts speak of it.
pub struct ReleaseModel {
    pub version: Seq<char>,
    pub assets: Seq<AssetModel>,
}

impl View for ReleaseAsset {
    type V = AssetModel;

    open spec fn view(&self) -> AssetModel {
        AssetModel { name: self.name@, url: self.download_url@ }
    }
}

impl View for Release {
    type V = ReleaseModel;

    open spec fn view(&self) -> ReleaseModel {
        ReleaseModel { version: self.version@, assets: self.assets@.map_values(|a: ReleaseAsset| a@) }
    }
}

/// Download address of the first asset called `name`, if there is one.
pub open spec fn spec_find_asset(assets: Seq<AssetModel>, name: Seq<char>) -> Option<Seq<char>>
    decreases assets.len(),
{
    if assets.len() == 0 {
        None
    } else if assets[0].name == name {
        Some(assets[0].url)
    } else {
        spec_find_asset(assets.drop_first(), name)
    }
}

/// The names of the assets, in order.
pub open spec fn asset_names(assets: Seq<AssetModel>) -> Seq<Seq<char>> {
    assets.map_values(|a: AssetModel| a.name)
}

/// Download address of the first asset called `name`.
pub fn find_asset_url(assets: &Vec<ReleaseAsset>, name: &str) -> (res: Option<String>)
    ensures
        opt_text(res) == spec_find_asset(assets@.map_values(|a: ReleaseAsset| a@), name@),
{
    let ghost all = assets@.map_values(|a: ReleaseAsset| a@);
    let mut i: usize = 0;
    assert(all.skip(0) =~= all);
    while i < assets.len()
        invariant
            i <= assets.len(),
            all == assets@.map_values(|a: ReleaseAsset| a@),
            spec_find_asset(all, name@) == spec_find_asset(all.skip(i as int), name@),
        decreases assets.len() - i,
    {
        assert(all.skip(i as int)[0] == assets@[i as int]@);
        if str_equal(assets[i].name.as_str(), name) {
            return Some(assets[i].download_url.clone());
        }
        assert(all.skip(i as int).drop_first() =~= all.skip(i + 1));
        i = i + 1;
    }
    assert(all.skip(i as int).len() == 0);
    None
}

/// The names of a release's assets.
pub fn asset_name_list(assets: &Vec<ReleaseAsset>) -> (res: Vec<String>)
    ensures
        res.deep_view() == asset_names(assets@.map_values(|a: ReleaseAsset| a@)),
{
    let ghost all = assets@.map_values(|a: ReleaseAsset| a@);
    let mut names: Vec<String> = Vec::new();
    let mut i: usize = 0;
    while i < assets.len()
        invariant
            i <= assets.len(),
            all == assets@.map_values(|a: ReleaseAsset| a@),
            names.deep_view() =~= asset_names(all).take(i as int),
        decreases assets.len() - i,
    {
        let name = assets[i].name.clone();
        assert(name@ == asset_names(all)[i as int]);
        let ghost before = names.deep_view();
        names.push(name);
        assert(names.deep_view() =~= before.push(name@));
        assert(asset_names(all).take(i + 1) =~= asset_names(all).take(i as int).push(name@));
        i = i + 1;
    }
    assert(asset_names(all).take(assets.len() as int) =~= asset_names(all));
    names
}

// ---------------------------------------------------------------------------
// Messages
// ---------------------------------------------------------------------------

/// Status shown when the release lookup failed.
pub open spec fn spec_fetch_failed_status(err: Seq<char>) -> Seq<char> {
    "could not fetch latest release: "@ + err
}

/// Error returned when the release lookup failed and no cached binary is usable.
pub open spec fn spec_install_failed(err: Seq<char>) -> Seq<char> {
    "greycat-analyzer install failed: "@ + err
}

/// Log line written when falling back to the cached binary.
pub open spec fn spec_fallback_log(err: Seq<char>, tag: Seq<char>) -> Seq<char> {
    "[greycat] update check failed ("@ + err + "); using cached binary "@ + tag
}

/// Error returned when the release has no archive for this platform.
pub open spec fn spec_missing_asset(tag: Seq<char>, asset: Seq<char>, names: Seq<Seq<char>>) -> Seq<char> {
    "release "@ + tag + " does not contain expected asset `"@ + asset + "`. Available: "@
        + spec_join(names, ", "@)
}

/// Error returned when the download failed.
pub open spec fn spec_download_failed(url: Seq<char>, err: Seq<char>) -> Seq<char> {
    "download of "@ + url + " failed: "@ + err
}

/// Error returned when the archive did not hold the binary.
pub open spec fn spec_missing_binary(asset: Seq<char>, binary: Seq<char>) -> Seq<char> {
    "zip `"@ + asset + "` did not contain expected binary `"@ + binary + "`"@
}

/// Error returned when the binary could not be made executable.
pub open spec fn spec_not_executable(path: Seq<char>, err: Seq<char>) -> Seq<char> {
    "could not mark "@ + path + " executable: "@ + err
}

fn fetch_failed_status(err: &str) -> (res: String)
    ensures
        res@ == spec_fetch_failed_status(err@),
{
    let mut m = String::from_str("could not fetch latest release: ");
    m.append(err);
    m
}

fn install_failed(err: &str) -> (res: String)
    ensures
        res@ == spec_install_failed(err@),
{
    let mut m = String::from_str("greycat-analyzer install failed: ");
    m.append(err);
    m
}

fn fallback_log(err: &str, tag: &str) -> (res: String)
    ensures
        res@ == spec_fallback_log(err@, tag@),
{
    let mut m = String::from_str("[greycat] update check failed (");
    m.append(err);
    m.append("); using cached binary ");
    m.append(tag);
    m
}

fn missing_asset(tag: &str, asset: &str, assets: &Vec<ReleaseAsset>) -> (res: String)
    ensures
        res@ == spec_missing_asset(tag@, asset@, asset_names(assets@.map_values(|a: ReleaseAsset| a@))),
{
    let names = asset_name_list(assets);
    let mut m = String::from_str("release ");
    m.append(tag);
    m.append(" does not contain expected asset `");
    m.append(asset);
    m.append("`. Available: ");
    m.append(join_strings(&names, ", ").as_str());
    m
}

fn download_failed(url: &str, err: &str) -> (res: String)
    ensures
        res@ == spec_download_failed(url@, err@),
{
    let mut m = String::from_str("download of ");
    m.append(url);
    m.append(" failed: ");
    m.append(err);
    m
}

fn missing_binary(asset: &str, binary: &str) -> (res: String)
    ensures
        res@ == spec_missing_binary(asset@, binary@),
{
    let mut m = String::from_str("zip `");
    m.append(asset);
    m.append("` did not contain expected binary `");
    m.append(binary);
    m.append("`");
    m
}

fn not_executable(path: &str, err: &str) -> (res: String)
    ensures
        res@ == spec_not_executable(path@, err@),
{
    let mut m = String::from_str("could not mark ");
    m.append(path);
    m.append(" executable: ");
    m.append(err);
    m
}

// ---------------------------------------------------------------------------
// The machine
// ---------------------------------------------------------------------------

/// The installation status shown by the editor.
#[derive(Clone, Debug, PartialEq, Eq)]
pub enum InstallStatus {
    /// No status shown.
    Idle,
    Downloading,
    CheckingForUpdate,
    Failed(String),
}

/// A status, as the contracts speak of it.
pub enum StatusModel {
    Idle,
    Downloading,
    CheckingForUpdate,
    Failed(Seq<char>),
}

impl View for InstallStatus {
    type V = StatusModel;

    open spec fn view(&self) -> StatusModel {
        match self {
            InstallStatus::Idle => StatusModel::Idle,
            InstallStatus::Downloading => StatusModel::Downloading,
            InstallStatus::CheckingForUpdate => StatusModel::CheckingForUpdate,
            InstallStatus::Failed(m) => StatusModel::Failed(m@),
        }
    }
}

/// The next piece of work for the caller.
#[derive(Debug, PartialEq, Eq)]
pub enum Action {
    /// Read and parse the sidecar, and read the clock; report `CacheLoaded`.
    ReadCache,
    /// Report whether a file exists at the path: `Exists`.
    CheckExists(String),
    /// Show the status; report `Done`.
    SetStatus(InstallStatus),
    /// Ask GitHub for the latest release of `ANALYZER_REPO` (assets required,
    /// no pre-releases); report `Fetched`.
    FetchRelease,
    /// Write the line to the error log; report `Done`.
    Log(String),
    /// Download the zip archive at `url` and extract it into `dir`; report `Completed`.
    Download { url: String, dir: String },
    /// Make the file at the path executable; report `Completed`.
    MakeExecutable(String),
    /// Remove the other versions' directories (see `prune_targets`); report `Done`.
    Prune(String),
    /// Write the sidecar with this tag and the current time; report `Done`.
    RecordCheck(String),
    /// The install is over: the binary's path, or why there is none.
    Finish(Result<String, String>),
}

/// An action, as the contracts speak of it.
pub enum ActionModel {
    ReadCache,
    CheckExists(Seq<char>),
    SetStatus(StatusModel),
    FetchRelease,
    Log(Seq<char>),
    Download { url: Seq<char>, dir: Seq<char> },
    MakeExecutable(Seq<char>),
    Prune(Seq<char>),
    RecordCheck(Seq<char>),
    Finish(Result<Seq<char>, Seq<char>>),
}

impl View for Action {
    type V = ActionModel;

    open spec fn view(&self) -> ActionModel {
        match self {
            Action::ReadCache => ActionModel::ReadCache,
            Action::CheckExists(p) => ActionModel::CheckExists(p@),
            Action::SetStatus(s) => ActionModel::SetStatus(s@),
            Action::FetchRelease => ActionModel::FetchRelease,
            Action::Log(m) => ActionModel::Log(m@),
            Action::Download { url, dir } => ActionModel::Download { url: url@, dir: dir@ },
            Action::MakeExecutable(p) => ActionModel::MakeExecutable(p@),
            Action::Prune(t) => ActionModel::Prune(t@),
            Action::RecordCheck(t) => ActionModel::RecordCheck(t@),
            Action::Finish(Ok(p)) => ActionModel::Finish(Ok(p@)),
            Action::Finish(Err(e)) => ActionModel::Finish(Err(e@)),
        }
    }
}

/// What the last piece of work reported.
pub enum Event {
    /// The sidecar (`None` when missing or unreadable) and the clock, in
    /// milliseconds since the Unix epoch.
    CacheLoaded { cached: Option<LastCheck>, now_ms: u128 },
    /// Whether the file exists.
    Exists(bool),
    /// The work is done.
    Done,
    /// The latest release, or why it could not be had.
    Fetched(Result<Release, String>),
    /// Whether the work succeeded.
    Completed(Result<(), String>),
}

/// An event, as the contracts speak of it. The sidecar is its tag and time.
pub enum EventModel {
    CacheLoaded { cached: Option<(Option<Seq<char>>, int)>, now_ms: int },
    Exists(bool),
    Done,
    Fetched(Result<ReleaseModel, Seq<char>>),
    Completed(Result<(), Seq<char>>),
}

impl View for Event {
    type V = EventModel;

    open spec fn view(&self) -> EventModel {
        match self {
            Event::CacheLoaded { cached, now_ms } => EventModel::CacheLoaded {
                cached: match cached {
                    Some(c) => Some((opt_text(c.tag), c.at_ms as int)),
                    None => None,
                },
                now_ms: *now_ms as int,
            },
            Event::Exists(b) => EventModel::Exists(*b),
            Event::Done => EventModel::Done,
            Event::Fetched(Ok(r)) => EventModel::Fetched(Ok(r@)),
            Event::Fetched(Err(e)) => EventModel::Fetched(Err(e@)),
            Event::Completed(Ok(())) => EventModel::Completed(Ok(())),
            Event::Completed(Err(e)) => EventModel::Completed(Err(e@)),
        }
    }
}

/// Where the install stands.
#[derive(Clone, Debug, PartialEq, Eq)]
pub enum Phase {
    /// Waiting for the sidecar.
    AwaitCache,
    /// The sidecar's lookup is fresh: waiting to hear whether its binary exists.
    FastCheck { tag: String },
    /// Showing "checking for update"; the sidecar's tag is kept for a fallback.
    AnnounceCheck { cached_tag: Option<String> },
    /// Waiting for the latest release.
    AwaitRelease { cached_tag: Option<String> },
    /// The lookup failed: waiting to hear whether the cached binary exists.
    FallbackCheck { tag: String, err: String },
    /// Falling back: clearing the status.
    FallbackStatus { tag: String, err: String },
    /// Falling back: logging why.
    FallbackLog { tag: String },
    /// Failing: showing why.
    ReportFailure { err: String },
    /// Waiting to hear whether the latest release's binary exists.
    ReleaseCheck { release: Release },
    /// Showing "downloading".
    AnnounceDownload { tag: String, url: String },
    /// Waiting for the download.
    Downloading { tag: String, url: String },
    /// Waiting to hear whether the archive held the binary.
    Unpacked { tag: String },
    /// Waiting for the binary to be made executable.
    MarkExecutable { tag: String },
    /// Waiting for the other versions to be removed.
    Pruning { tag: String },
    /// Waiting for the sidecar to be written.
    Recording { tag: String },
    /// Clearing the status.
    Settling { tag: String },
    /// Over.
    Finished,
}

/// A phase, as the contracts speak of it.
pub enum PhaseModel {
    AwaitCache,
    FastCheck { tag: Seq<char> },
    AnnounceCheck { cached_tag: Option<Seq<char>> },
    AwaitRelease { cached_tag: Option<Seq<char>> },
    FallbackCheck { tag: Seq<char>, err: Seq<char> },
    FallbackStatus { tag: Seq<char>, err: Seq<char> },
    FallbackLog { tag: Seq<char> },
    ReportFailure { err: Seq<char> },
    ReleaseCheck { release: ReleaseModel },
    AnnounceDownload { tag: Seq<char>, url: Seq<char> },
    Downloading { tag: Seq<char>, url: Seq<char> },
    Unpacked { tag: Seq<char> },
    MarkExecutable { tag: Seq<char> },
    Pruning { tag: Seq<char> },
    Recording { tag: Seq<char> },
    Settling { tag: Seq<char> },
    Finished,
}

impl View for Phase {
    type V = PhaseModel;

    open spec fn view(&self) -> PhaseModel {
        match self {
            Phase::AwaitCache => PhaseModel::AwaitCache,
            Phase::FastCheck { tag } => PhaseModel::FastCheck { tag: tag@ },
            Phase::AnnounceCheck { cached_tag } => PhaseModel::AnnounceCheck { cached_tag: opt_text(*cached_tag) },
            Phase::AwaitRelease { cached_tag } => PhaseModel::AwaitRelease { cached_tag: opt_text(*cached_tag) },
            Phase::FallbackCheck { tag, err } => PhaseModel::FallbackCheck { tag: tag@, err: err@ },
            Phase::FallbackStatus { tag, err } => PhaseModel::FallbackStatus { tag: tag@, err: err@ },
            Phase::FallbackLog { tag } => PhaseModel::FallbackLog { tag: tag@ },
            Phase::ReportFailure { err } => PhaseModel::ReportFailure { err: err@ },
            Phase::ReleaseCheck { release } => PhaseModel::ReleaseCheck { release: release@ },
            Phase::AnnounceDownload { tag, url } => PhaseModel::AnnounceDownload { tag: tag@, url: url@ },
            Phase::Downloading { tag, url } => PhaseModel::Downloading { tag: tag@, url: url@ },
            Phase::Unpacked { tag } => PhaseModel::Unpacked { tag: tag@ },
            Phase::MarkExecutable { tag } => PhaseModel::MarkExecutable { tag: tag@ },
            Phase::Pruning { tag } => PhaseModel::Pruning { tag: tag@ },
            Phase::Recording { tag } => PhaseModel::Recording { tag: tag@ },
            Phase::Settling { tag } => PhaseModel::Settling { tag: tag@ },
            Phase::Finished => PhaseModel::Finished,
        }
    }
}

/// The install of one platform's analyzer: the archive to look for, the
/// binary inside it, the extension's working directory (where versions are
/// downloaded), and where the install stands.
pub struct Installer {
    pub asset_name: &'static str,
    pub binary_name: &'static str,
    pub work_dir: String,
    pub phase: Phase,
}

/// Whether `event` is the report that `phase` waits for.
pub open spec fn accepts(phase: PhaseModel, event: EventModel) -> bool {
    match phase {
        PhaseModel::AwaitCache => event is CacheLoaded,
        PhaseModel::FastCheck { .. } | PhaseModel::FallbackCheck { .. }
        | PhaseModel::ReleaseCheck { .. } | PhaseModel::Unpacked { .. } => event is Exists,
        PhaseModel::AwaitRelease { .. } => event is Fetched,
        PhaseModel::Downloading { .. } | PhaseModel::MarkExecutable { .. } => event is Completed,
        PhaseModel::Finished => false,
        _ => event is Done,
    }
}

/// The sidecar's tag, whatever its age.
pub open spec fn cached_tag_of(cached: Option<(Option<Seq<char>>, int)>) -> Option<Seq<char>> {
    match cached {
        Some((tag, _)) => tag,
        None => None,
    }
}

/// The sidecar's tag, if its lookup is still fresh at `now_ms`.
pub open spec fn fresh_tag(cached: Option<(Option<Seq<char>>, int)>, now_ms: int) -> Option<Seq<char>> {
    match cached {
        Some((Some(tag), at_ms)) => if !spec_is_stale(at_ms, now_ms) { Some(tag) } else { None },
        _ => None,
    }
}

/// The transition table: from the archive and binary names, the working
/// directory, the phase and the event, the next phase and the next action.
pub open spec fn spec_step(
    asset: Seq<char>,
    binary: Seq<char>,
    work_dir: Seq<char>,
    phase: PhaseModel,
    event: EventModel,
) -> (PhaseModel, ActionModel) {
    match phase {
        PhaseModel::AwaitCache => match event {
            EventModel::CacheLoaded { cached, now_ms } => match fresh_tag(cached, now_ms) {
                Some(tag) => (PhaseModel::FastCheck { tag }, ActionModel::CheckExists(spec_binary_path(tag, binary))),
                None => (
                    PhaseModel::AnnounceCheck { cached_tag: cached_tag_of(cached) },
                    ActionModel::SetStatus(StatusModel::CheckingForUpdate),
                ),
            },
            _ => (phase, ActionModel::ReadCache),
        },
        PhaseModel::FastCheck { tag } => if event == EventModel::Exists(true) {
            (PhaseModel::Finished, ActionModel::Finish(Ok(spec_installed_path(work_dir, tag, binary))))
        } else {
            (PhaseModel::AnnounceCheck { cached_tag: Some(tag) }, ActionModel::SetStatus(StatusModel::CheckingForUpdate))
        },
        PhaseModel::AnnounceCheck { cached_tag } => (PhaseModel::AwaitRelease { cached_tag }, ActionModel::FetchRelease),
        PhaseModel::AwaitRelease { cached_tag } => match event {
            EventModel::Fetched(Ok(release)) => (
                PhaseModel::ReleaseCheck { release },
                ActionModel::CheckExists(spec_binary_path(release.version, binary)),
            ),
            EventModel::Fetched(Err(err)) => match cached_tag {
                Some(tag) => (PhaseModel::FallbackCheck { tag, err }, ActionModel::CheckExists(spec_binary_path(tag, binary))),
                None => (
                    PhaseModel::ReportFailure { err },
                    ActionModel::SetStatus(StatusModel::Failed(spec_fetch_failed_status(err))),
                ),
            },
            _ => (phase, ActionModel::FetchRelease),
        },
        PhaseModel::FallbackCheck { tag, err } => if event == EventModel::Exists(true) {
            (PhaseModel::FallbackStatus { tag, err }, ActionModel::SetStatus(StatusModel::Idle))
        } else {
            (PhaseModel::ReportFailure { err }, ActionModel::SetStatus(StatusModel::Failed(spec_fetch_failed_status(err))))
        },
        PhaseModel::FallbackStatus { tag, err } => (PhaseModel::FallbackLog { tag }, ActionModel::Log(spec_fallback_log(err, tag))),
        PhaseModel::FallbackLog { tag } => (PhaseModel::Finished, ActionModel::Finish(Ok(spec_installed_path(work_dir, tag, binary)))),
        PhaseModel::ReportFailure { err } => (PhaseModel::Finished, ActionModel::Finish(Err(spec_install_failed(err)))),
        PhaseModel::ReleaseCheck { release } => if event == EventModel::Exists(true) {
            (PhaseModel::Recording { tag: release.version }, ActionModel::RecordCheck(release.version))
        } else {
            match spec_find_asset(release.assets, asset) {
                Some(url) => (PhaseModel::AnnounceDownload { tag: release.version, url }, ActionModel::SetStatus(StatusModel::Downloading)),
                None => (
                    PhaseModel::Finished,
                    ActionModel::Finish(Err(spec_missing_asset(release.version, asset, asset_names(release.assets)))),
                ),
            }
        },
        PhaseModel::AnnounceDownload { tag, url } => (
            PhaseModel::Downloading { tag, url },
            ActionModel::Download { url, dir: spec_version_dir(tag) },
        ),
        PhaseModel::Downloading { tag, url } => match event {
            EventModel::Completed(Err(err)) => (PhaseModel::Finished, ActionModel::Finish(Err(spec_download_failed(url, err)))),
            _ => (PhaseModel::Unpacked { tag }, ActionModel::CheckExists(spec_binary_path(tag, binary))),
        },
        PhaseModel::Unpacked { tag } => if event == EventModel::Exists(true) {
            (PhaseModel::MarkExecutable { tag }, ActionModel::MakeExecutable(spec_binary_path(tag, binary)))
        } else {
            (PhaseModel::Finished, ActionModel::Finish(Err(spec_missing_binary(asset, binary))))
        },
        PhaseModel::MarkExecutable { tag } => match event {
            EventModel::Completed(Err(err)) => (
                PhaseModel::Finished,
                ActionModel::Finish(Err(spec_not_executable(spec_binary_path(tag, binary), err))),
            ),
            _ => (PhaseModel::Pruning { tag }, ActionModel::Prune(tag)),
        },
        PhaseModel::Pruning { tag } => (PhaseModel::Recording { tag }, ActionModel::RecordCheck(tag)),
        PhaseModel::Recording { tag } => (PhaseModel::Settling { tag }, ActionModel::SetStatus(StatusModel::Idle)),
        PhaseModel::Settling { tag } => (PhaseModel::Finished, ActionModel::Finish(Ok(spec_installed_path(work_dir, tag, binary)))),
        PhaseModel::Finished => (phase, ActionModel::Finish(Err(Seq::empty()))),
    }
}

/// An installer, as the contracts speak of it.
pub struct InstallerModel {
    pub asset: Seq<char>,
    pub binary: Seq<char>,
    pub work_dir: Seq<char>,
    pub phase: PhaseModel,
}

impl View for Installer {
    type V = InstallerModel;

    open spec fn view(&self) -> InstallerModel {
        InstallerModel { asset: self.asset_name@, binary: self.binary_name@, work_dir: self.work_dir@, phase: self.phase@ }
    }
}

impl Installer {
    /// Begins the install for a platform, in the extension's working
    /// directory `work_dir`. A platform without a prebuilt archive is refused
    /// at once, before any work; otherwise the first action is to read the
    /// sidecar.
    pub fn start(os: Os, arch: Architecture, work_dir: String) -> (res: Result<(Installer, Action), String>)
        ensures
            match res {
                Ok((inst, action)) => {
                    &&& spec_asset_name(os, arch) == Some(inst@.asset)
                    &&& inst@.binary == spec_binary_filename(os)
                    &&& inst@.work_dir == work_dir@
                    &&& inst@.phase == PhaseModel::AwaitCache
                    &&& action@ == ActionModel::ReadCache
                },
                Err(msg) => spec_asset_name(os, arch) is None
                    && msg@ == spec_unsupported_platform_message(os, arch),
            },
    {
        let asset_name = match asset_filename_for_platform(os, arch) {
            Ok(name) => name,
            Err(msg) => return Err(msg),
        };
        let binary_name = binary_filename(os);
        Ok((Installer { asset_name, binary_name, work_dir, phase: Phase::AwaitCache }, Action::ReadCache))
    }

    /// Whether `event` is the report that the current phase waits for.
    pub fn accepts_event(&self, event: &Event) -> (res: bool)
        ensures
            res == accepts(self@.phase, event@),
    {
        match (&self.phase, event) {
            (Phase::AwaitCache, Event::CacheLoaded { .. }) => true,
            (Phase::FastCheck { .. }, Event::Exists(_)) => true,
            (Phase::FallbackCheck { .. }, Event::Exists(_)) => true,
            (Phase::ReleaseCheck { .. }, Event::Exists(_)) => true,
            (Phase::Unpacked { .. }, Event::Exists(_)) => true,
            (Phase::AwaitRelease { .. }, Event::Fetched(_)) => true,
            (Phase::Downloading { .. }, Event::Completed(_)) => true,
            (Phase::MarkExecutable { .. }, Event::Completed(_)) => true,
            (Phase::AnnounceCheck { .. }, Event::Done) => true,
            (Phase::FallbackStatus { .. }, Event::Done) => true,
            (Phase::FallbackLog { .. }, Event::Done) => true,
            (Phase::ReportFailure { .. }, Event::Done) => true,
            (Phase::AnnounceDownload { .. }, Event::Done) => true,
            (Phase::Pruning { .. }, Event::Done) => true,
            (Phase::Recording { .. }, Event::Done) => true,
            (Phase::Settling { .. }, Event::Done) => true,
            _ => false,
        }
    }

    /// Takes the report of the last piece of work and names the next one
    /// (see `spec_step`).
    pub fn step(self, event: Event) -> (res: (Installer, Action))
        requires
            accepts(self@.phase, event@),
        ensures
            res.0@.asset == self@.asset,
            res.0@.binary == self@.binary,
            res.0@.work_dir == self@.work_dir,
            (res.0@.phase, res.1@) == spec_step(self@.asset, self@.binary, self@.work_dir, self@.phase, event@),
    {
        let asset_name = self.asset_name;
        let binary_name = self.binary_name;
        let work_dir = self.work_dir;
        let (phase, action) = match self.phase {
            Phase::AwaitCache => match event {
                Event::CacheLoaded { cached, now_ms } => {
                    let ghost model = event@;
                    let mut fresh: Option<String> = None;
                    let mut cached_tag: Option<String> = None;
                    if let Some(c) = cached {
                        let at_ms = c.at_ms;
                        if let Some(t) = c.tag {
                            if !is_stale(at_ms, now_ms) {
                                fresh = Some(t);
                            } else {
                                cached_tag = Some(t);
                            }
                        }
                    }
                    match fresh {
                        Some(tag) => {
                            let path = binary_path(tag.as_str(), binary_name);
                            (Phase::FastCheck { tag }, Action::CheckExists(path))
                        },
                        None => (
                            Phase::AnnounceCheck { cached_tag },
                            Action::SetStatus(InstallStatus::CheckingForUpdate),
                        ),
                    }
                },
                _ => (Phase::AwaitCache, Action::ReadCache),
            },
            Phase::FastCheck { tag } => match event {
                Event::Exists(true) => {
                    let path = installed_path(work_dir.as_str(), tag.as_str(), binary_name);
                    (Phase::Finished, Action::Finish(Ok(path)))
                },
                _ => (Phase::AnnounceCheck { cached_tag: Some(tag) }, Action::SetStatus(InstallStatus::CheckingForUpdate)),
            },
            Phase::AnnounceCheck { cached_tag } => (Phase::AwaitRelease { cached_tag }, Action::FetchRelease),
            Phase::AwaitRelease { cached_tag } => match event {
                Event::Fetched(Ok(release)) => {
                    let path = binary_path(release.version.as_str(), binary_name);
                    (Phase::ReleaseCheck { release }, Action::CheckExists(path))
                },
                Event::Fetched(Err(err)) => match cached_tag {
                    Some(tag) => {
                        let path = binary_path(tag.as_str(), binary_name);
                        (Phase::FallbackCheck { tag, err }, Action::CheckExists(path))
                    },
                    None => {
                        let status = fetch_failed_status(err.as_str());
                        (Phase::ReportFailure { err }, Action::SetStatus(InstallStatus::Failed(status)))
                    },
                },
                _ => (Phase::AwaitRelease { cached_tag }, Action::FetchRelease),
            },
            Phase::FallbackCheck { tag, err } => match event {
                Event::Exists(true) => (Phase::FallbackStatus { tag, err }, Action::SetStatus(InstallStatus::Idle)),
                _ => {
                    let status = fetch_failed_status(err.as_str());
                    (Phase::ReportFailure { err }, Action::SetStatus(InstallStatus::Failed(status)))
                },
            },
            Phase::FallbackStatus { tag, err } => {
                let line = fallback_log(err.as_str(), tag.as_str());
                (Phase::FallbackLog { tag }, Action::Log(line))
            },
            Phase::FallbackLog { tag } => {
                let path = installed_path(work_dir.as_str(), tag.as_str(), binary_name);
                (Phase::Finished, Action::Finish(Ok(path)))
            },
            Phase::ReportFailure { err } => (Phase::Finished, Action::Finish(Err(install_failed(err.as_str())))),
            Phase::ReleaseCheck { release } => match event {
                Event::Exists(true) => {
                    let tag = release.version;
                    let recorded = tag.clone();
                    (Phase::Recording { tag }, Action::RecordCheck(recorded))
                },
                _ => match find_asset_url(&release.assets, asset_name) {
                    Some(url) => (
                        Phase::AnnounceDownload { tag: release.version, url },
                        Action::SetStatus(InstallStatus::Downloading),
                    ),
                    None => {
                        let msg = missing_asset(release.version.as_str(), asset_name, &release.assets);
                        (Phase::Finished, Action::Finish(Err(msg)))
                    },
                },
            },
            Phase::AnnounceDownload { tag, url } => {
                let dir = version_dir(tag.as_str());
                let target = url.clone();
                (Phase::Downloading { tag, url }, Action::Download { url: target, dir })
            },
            Phase::Downloading { tag, url } => match event {
                Event::Completed(Err(err)) => (
                    Phase::Finished,
                    Action::Finish(Err(download_failed(url.as_str(), err.as_str()))),
                ),
                _ => {
                    let path = binary_path(tag.as_str(), binary_name);
                    (Phase::Unpacked { tag }, Action::CheckExists(path))
                },
            },
            Phase::Unpacked { tag } => match event {
                Event::Exists(true) => {
                    let path = binary_path(tag.as_str(), binary_name);
                    (Phase::MarkExecutable { tag }, Action::MakeExecutable(path))
                },
                _ => (Phase::Finished, Action::Finish(Err(missing_binary(asset_name, binary_name)))),
            },
            Phase::MarkExecutable { tag } => match event {
                Event::Completed(Err(err)) => {
                    let path = binary_path(tag.as_str(), binary_name);
                    (Phase::Finished, Action::Finish(Err(not_executable(path.as_str(), err.as_str()))))
                },
                _ => {
                    let keep = tag.clone();
                    (Phase::Pruning { tag }, Action::Prune(keep))
                },
            },
            Phase::Pruning { tag } => {
                let recorded = tag.clone();
                (Phase::Recording { tag }, Action::RecordCheck(recorded))
            },
            Phase::Recording { tag } => (Phase::Settling { tag }, Action::SetStatus(InstallStatus::Idle)),
            Phase::Settling { tag } => {
                let path = installed_path(work_dir.as_str(), tag.as_str(), binary_name);
                (Phase::Finished, Action::Finish(Ok(path)))
            },
            Phase::Finished => (Phase::Finished, Action::Finish(Err(String::new()))),
        };
        (Installer { asset_name, binary_name, work_dir, phase }, action)
    }
}

} // verus!
