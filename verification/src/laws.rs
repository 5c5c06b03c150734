//! Properties of the managed install that span several steps of the machine.

use vstd::prelude::*;
use crate::install::{
    accepts, cached_tag_of, is_absolute, spec_binary_path, spec_installed_path, spec_fallback_log, spec_fetch_failed_status, spec_find_asset,
    spec_install_failed, spec_step, spec_version_dir, ActionModel, EventModel, PhaseModel, ReleaseModel,
    StatusModel, VERSION_DIR_PREFIX,
};
use crate::sidecar::spec_is_stale;

verus! {

/// Steps left at most before the install is over, from a phase.
pub open spec fn steps_left(phase: PhaseModel) -> nat {
    match phase {
        PhaseModel::AwaitCache => 16,
        PhaseModel::FastCheck { .. } => 15,
        PhaseModel::AnnounceCheck { .. } => 14,
        PhaseModel::AwaitRelease { .. } => 13,
        PhaseModel::FallbackCheck { .. } => 12,
        PhaseModel::ReleaseCheck { .. } => 12,
        PhaseModel::FallbackStatus { .. } => 11,
        PhaseModel::FallbackLog { .. } => 10,
        PhaseModel::ReportFailure { .. } => 9,
        PhaseModel::AnnounceDownload { .. } => 8,
        PhaseModel::Downloading { .. } => 7,
        PhaseModel::Unpacked { .. } => 6,
        PhaseModel::MarkExecutable { .. } => 5,
        PhaseModel::Pruning { .. } => 4,
        PhaseModel::Recording { .. } => 3,
        PhaseModel::Settling { .. } => 2,
        PhaseModel::Finished => 0,
    }
}

/// The install always ends: every accepted report moves it strictly closer
/// to the end, it is over exactly when it has named `Finish`, and once over
/// it accepts no further report.
pub proof fn law_install_terminates(asset: Seq<char>, binary: Seq<char>,
    work_dir: Seq<char>, phase: PhaseModel, event: EventModel)
    requires
        accepts(phase, event),
    ensures
        steps_left(spec_step(asset, binary, work_dir, phase, event).0) < steps_left(phase),
        (spec_step(asset, binary, work_dir, phase, event).0 is Finished) <==> (spec_step(asset, binary, work_dir, phase, event).1 is Finish),
        forall|e: EventModel| !accepts(PhaseModel::Finished, e),
{
}

/// A fresh sidecar (less than a day old, clock not gone backwards) whose
/// binary is still on disk is used as it is: the install checks the binary
/// and ends with its path, with no release lookup, no status and no download.
pub proof fn law_fresh_cache_skips_network(
    asset: Seq<char>,
    binary: Seq<char>,
    work_dir: Seq<char>,
    tag: Seq<char>,
    at_ms: int,
    now_ms: int,
)
    requires
        !spec_is_stale(at_ms, now_ms),
    ensures
        ({
            let path = spec_binary_path(tag, binary);
            let loaded = EventModel::CacheLoaded { cached: Some((Some(tag), at_ms)), now_ms };
            let (p1, a1) = spec_step(asset, binary, work_dir, PhaseModel::AwaitCache, loaded);
            let (p2, a2) = spec_step(asset, binary, work_dir, p1, EventModel::Exists(true));
            &&& a1 == ActionModel::CheckExists(path)
            &&& accepts(p1, EventModel::Exists(true))
            &&& p2 == PhaseModel::Finished
            &&& a2 == ActionModel::Finish(Ok(spec_installed_path(work_dir, tag, binary)))
        }),
{
}

/// A stale sidecar, or one without a tag, or none at all, leads to a
/// release lookup: "checking for update" is shown, then the lookup is made,
/// and the sidecar's tag is kept for a fallback.
pub proof fn law_stale_cache_checks_for_update(
    asset: Seq<char>,
    binary: Seq<char>,
    work_dir: Seq<char>,
    cached: Option<(Option<Seq<char>>, int)>,
    now_ms: int,
)
    requires
        match cached {
            Some((Some(_), at_ms)) => spec_is_stale(at_ms, now_ms),
            _ => true,
        },
    ensures
        ({
            let loaded = EventModel::CacheLoaded { cached, now_ms };
            let (p1, a1) = spec_step(asset, binary, work_dir, PhaseModel::AwaitCache, loaded);
            let (p2, a2) = spec_step(asset, binary, work_dir, p1, EventModel::Done);
            &&& a1 == ActionModel::SetStatus(StatusModel::CheckingForUpdate)
            &&& accepts(p1, EventModel::Done)
            &&& a2 == ActionModel::FetchRelease
            &&& p2 == PhaseModel::AwaitRelease { cached_tag: cached_tag_of(cached) }
        }),
{
}

/// When the release lookup fails but the sidecar names a tag whose binary is
/// on disk, the install falls back to it: the status is cleared, the failure
/// is logged, and the cached binary's path is returned.
pub proof fn law_offline_fallback(asset: Seq<char>, binary: Seq<char>,
    work_dir: Seq<char>, tag: Seq<char>, err: Seq<char>)
    ensures
        ({
            let path = spec_binary_path(tag, binary);
            let (p1, a1) = spec_step(asset, binary, work_dir, PhaseModel::AwaitRelease { cached_tag: Some(tag) }, EventModel::Fetched(Err(err)));
            let (p2, a2) = spec_step(asset, binary, work_dir, p1, EventModel::Exists(true));
            let (p3, a3) = spec_step(asset, binary, work_dir, p2, EventModel::Done);
            let (p4, a4) = spec_step(asset, binary, work_dir, p3, EventModel::Done);
            &&& a1 == ActionModel::CheckExists(path)
            &&& accepts(p1, EventModel::Exists(true))
            &&& a2 == ActionModel::SetStatus(StatusModel::Idle)
            &&& accepts(p2, EventModel::Done)
            &&& a3 == ActionModel::Log(spec_fallback_log(err, tag))
            &&& accepts(p3, EventModel::Done)
            &&& a4 == ActionModel::Finish(Ok(spec_installed_path(work_dir, tag, binary)))
            &&& p4 == PhaseModel::Finished
        }),
{
}

/// When the release lookup fails and no cached binary is usable, the failure
/// is shown and the install fails with it.
pub proof fn law_lookup_failure_without_cache(
    asset: Seq<char>,
    binary: Seq<char>,
    work_dir: Seq<char>,
    cached_tag: Option<Seq<char>>,
    err: Seq<char>,
)
    ensures
        ({
            let (p1, a1) = spec_step(asset, binary, work_dir, PhaseModel::AwaitRelease { cached_tag }, EventModel::Fetched(Err(err)));
            let (p2, a2) = match cached_tag {
                Some(_) => spec_step(asset, binary, work_dir, p1, EventModel::Exists(false)),
                None => (p1, a1),
            };
            let (p3, a3) = spec_step(asset, binary, work_dir, p2, EventModel::Done);
            &&& a2 == ActionModel::SetStatus(StatusModel::Failed(spec_fetch_failed_status(err)))
            &&& accepts(p2, EventModel::Done)
            &&& a3 == ActionModel::Finish(Err(spec_install_failed(err)))
        }),
{
}

/// A release whose binary is already on disk is not downloaded again: the
/// lookup is recorded, the status cleared, and that binary used.
pub proof fn law_present_release_not_downloaded(asset: Seq<char>, binary: Seq<char>,
    work_dir: Seq<char>, release: ReleaseModel)
    ensures
        ({
            let path = spec_binary_path(release.version, binary);
            let (p1, a1) = spec_step(asset, binary, work_dir, PhaseModel::ReleaseCheck { release }, EventModel::Exists(true));
            let (p2, a2) = spec_step(asset, binary, work_dir, p1, EventModel::Done);
            let (p3, a3) = spec_step(asset, binary, work_dir, p2, EventModel::Done);
            &&& a1 == ActionModel::RecordCheck(release.version)
            &&& a2 == ActionModel::SetStatus(StatusModel::Idle)
            &&& a3 == ActionModel::Finish(Ok(spec_installed_path(work_dir, release.version, binary)))
            &&& p3 == PhaseModel::Finished
        }),
{
}

/// A missing release binary is installed from the first asset named like
/// this platform's archive: "downloading" is shown, the archive is extracted
/// into the version's directory, the binary is checked and made executable,
/// the other versions are removed, the lookup is recorded, the status cleared,
/// and the new binary's path returned.
pub proof fn law_install_from_release(asset: Seq<char>, binary: Seq<char>,
    work_dir: Seq<char>, release: ReleaseModel, url: Seq<char>)
    requires
        spec_find_asset(release.assets, asset) == Some(url),
    ensures
        ({
            let tag = release.version;
            let path = spec_binary_path(tag, binary);
            let (p1, a1) = spec_step(asset, binary, work_dir, PhaseModel::ReleaseCheck { release }, EventModel::Exists(false));
            let (p2, a2) = spec_step(asset, binary, work_dir, p1, EventModel::Done);
            let (p3, a3) = spec_step(asset, binary, work_dir, p2, EventModel::Completed(Ok(())));
            let (p4, a4) = spec_step(asset, binary, work_dir, p3, EventModel::Exists(true));
            let (p5, a5) = spec_step(asset, binary, work_dir, p4, EventModel::Completed(Ok(())));
            let (p6, a6) = spec_step(asset, binary, work_dir, p5, EventModel::Done);
            let (p7, a7) = spec_step(asset, binary, work_dir, p6, EventModel::Done);
            let (p8, a8) = spec_step(asset, binary, work_dir, p7, EventModel::Done);
            &&& a1 == ActionModel::SetStatus(StatusModel::Downloading)
            &&& a2 == ActionModel::Download { url, dir: spec_version_dir(tag) }
            &&& a3 == ActionModel::CheckExists(path)
            &&& a4 == ActionModel::MakeExecutable(path)
            &&& a5 == ActionModel::Prune(tag)
            &&& a6 == ActionModel::RecordCheck(tag)
            &&& a7 == ActionModel::SetStatus(StatusModel::Idle)
            &&& a8 == ActionModel::Finish(Ok(spec_installed_path(work_dir, tag, binary)))
            &&& p8 == PhaseModel::Finished
        }),
{
}

/// Whatever happens, a successful install names the binary inside some
/// version's directory within the working directory, so an absolute path
/// whenever the working directory is absolute; and a download always goes
/// into the directory of the version being installed.
pub proof fn law_results_are_version_binaries(asset: Seq<char>, binary: Seq<char>,
    work_dir: Seq<char>, phase: PhaseModel, event: EventModel)
    requires
        accepts(phase, event),
    ensures
        spec_step(asset, binary, work_dir, phase, event).1 matches ActionModel::Finish(Ok(path))
            ==> (exists|tag: Seq<char>| path == spec_installed_path(work_dir, tag, binary))
                && (is_absolute(work_dir) ==> is_absolute(path)),
        spec_step(asset, binary, work_dir, phase, event).1 matches ActionModel::Download { url, dir }
            ==> phase matches PhaseModel::AnnounceDownload { tag, .. } && dir == spec_version_dir(tag),
{
    let action = spec_step(asset, binary, work_dir, phase, event).1;
    if let ActionModel::Finish(Ok(path)) = action {
        let tag = match phase {
            PhaseModel::FastCheck { tag } => tag,
            PhaseModel::FallbackLog { tag } => tag,
            PhaseModel::Settling { tag } => tag,
            _ => Seq::empty(),
        };
        assert(path == spec_installed_path(work_dir, tag, binary));
        if is_absolute(work_dir) {
            let rel = spec_binary_path(tag, binary);
            if work_dir.last() == '/' {
                assert((work_dir + rel)[0] == work_dir[0]);
            } else {
                assert((work_dir + "/"@ + rel)[0] == work_dir[0]);
            }
        }
    }
}

/// What reply an action asks for: the sidecar for `ReadCache`, whether the
/// file exists for `CheckExists`, the release for `FetchRelease`, the outcome
/// for `Download` and `MakeExecutable`, and plain completion for the rest.
/// `Finish` asks for nothing.
pub open spec fn answers(action: ActionModel, event: EventModel) -> bool {
    match action {
        ActionModel::ReadCache => event is CacheLoaded,
        ActionModel::CheckExists(_) => event is Exists,
        ActionModel::FetchRelease => event is Fetched,
        ActionModel::Download { .. } | ActionModel::MakeExecutable(_) => event is Completed,
        ActionModel::Finish(_) => false,
        _ => event is Done,
    }
}

/// The protocol between the machine and whoever performs its work holds:
/// the first action's reply is accepted, and after any accepted step, every
/// reply of the kind the new action asks for is accepted by the new phase.
/// So a caller that answers each action in kind is never refused.
pub proof fn law_replies_are_accepted(asset: Seq<char>, binary: Seq<char>,
    work_dir: Seq<char>, phase: PhaseModel, event: EventModel, reply: EventModel)
    ensures
        answers(ActionModel::ReadCache, reply) ==> accepts(PhaseModel::AwaitCache, reply),
        accepts(phase, event) && answers(spec_step(asset, binary, work_dir, phase, event).1, reply)
            ==> accepts(spec_step(asset, binary, work_dir, phase, event).0, reply),
{
}

/// After a successful release lookup, the binary checked for is the fetched
/// release's own, whatever tag the sidecar held: the install never takes an
/// older cached binary for the new release.
pub proof fn law_release_check_uses_fetched_version(
    asset: Seq<char>,
    binary: Seq<char>,
    work_dir: Seq<char>,
    cached_tag: Option<Seq<char>>,
    release: ReleaseModel,
)
    ensures
        ({
            let (p1, a1) = spec_step(asset, binary, work_dir, PhaseModel::AwaitRelease { cached_tag }, EventModel::Fetched(Ok(release)));
            &&& a1 == ActionModel::CheckExists(VERSION_DIR_PREFIX@ + release.version + (if (VERSION_DIR_PREFIX@ + release.version).last() == '/' { Seq::empty() } else { "/"@ }) + binary)
            &&& p1 == PhaseModel::ReleaseCheck { release }
        }),
{
    reveal_strlit("greycat-analyzer-");
    let dir = VERSION_DIR_PREFIX@ + release.version;
    assert(dir.len() > 0);
    if dir.last() == '/' {
        assert(dir + Seq::<char>::empty() + binary =~= dir + binary);
    }
}

} // verus!
