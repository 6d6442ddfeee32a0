//! What holds of every run of the pipeline, whatever is observed.

use crate::error::{
    extraction_verification_failed_error, invalid_rootfs_format_error, protected_path_error,
    target_not_empty_error, RecErrorView,
};
use crate::constants::MIN_REQUIRED_BYTES;
use crate::helpers::{
    dir_is_empty, free_bytes, ignorable_entry, is_protected, lemma_table_is_protected,
    mount_point, protected_path_at, DeviceIds,
};
use crate::path::path_starts_with;
use crate::pipeline::{
    copy_failure_error, initial, mount_failure_error, next, outcome, pending, replay, succeeded,
    unsupported_extension_error, Action, Event, FileKind, Phase, PipelineView, ProcessOutcome,
    Request,
};
use crate::rootfs::{
    dir_present, essential_name, lemma_missing_dirs_complete, magic_matches,
    magic_mismatch_detail, missing_dirs, rootfs_type_of, RootfsType,
};
use crate::text::{contains, string_views};
use vstd::prelude::*;

verus! {

/// Actions that write to the target or change the system. All others
/// only look.
pub open spec fn changes_system(a: Action) -> bool {
    ||| a == Action::ProbeWrite
    ||| a == Action::LoadErofsModule
    ||| a == Action::UnmountStale
    ||| a == Action::RemoveStale
    ||| a == Action::CreateMountDir
    ||| a == Action::Mount
    ||| a == Action::Copy
    ||| a == Action::Unmount
    ||| a == Action::RemoveMountDir
    ||| a == Action::Unsquashfs
}

/// Actions of the extraction itself.
pub open spec fn extracts(a: Action) -> bool {
    ||| a == Action::StatMountDir
    ||| a == Action::UnmountStale
    ||| a == Action::RemoveStale
    ||| a == Action::CreateMountDir
    ||| a == Action::Mount
    ||| a == Action::Copy
    ||| a == Action::Unmount
    ||| a == Action::RemoveMountDir
    ||| a == Action::Unsquashfs
}

/// Phases of the mount-and-copy extraction and of the checks that are
/// made for EROFS images only.
pub open spec fn erofs_only(p: Phase) -> bool {
    ||| p == Phase::KernelSupport
    ||| p == Phase::ModuleLoad
    ||| p == Phase::KernelSupportRetry
    ||| p == Phase::StaleMountDir
    ||| p == Phase::StaleUnmount
    ||| p == Phase::StaleRemove
    ||| p == Phase::CreateMountDir
    ||| p == Phase::Mount
    ||| p == Phase::Copy
    ||| p == Phase::Unmount
    ||| p == Phase::RemoveMountDir
}

/// Phases that are gone through for squashfs images only.
pub open spec fn squashfs_only(p: Phase) -> bool {
    p == Phase::ToolAvailable || p == Phase::Unsquashfs
}

/// Phases that come after the pre-flight validation.
pub open spec fn after_preflight(p: Phase) -> bool {
    ||| p == Phase::StaleMountDir
    ||| p == Phase::StaleUnmount
    ||| p == Phase::StaleRemove
    ||| p == Phase::CreateMountDir
    ||| p == Phase::Mount
    ||| p == Phase::Copy
    ||| p == Phase::Unmount
    ||| p == Phase::RemoveMountDir
    ||| p == Phase::Unsquashfs
    ||| p == Phase::EssentialDirs
}

/// Phases in which the image has been placed and named.
pub open spec fn source_judged(p: Phase) -> bool {
    ||| p == Phase::Signature
    ||| p == Phase::KernelSupport
    ||| p == Phase::ModuleLoad
    ||| p == Phase::KernelSupportRetry
    ||| p == Phase::ToolAvailable
    ||| after_preflight(p)
}

/// Phases in which the canonical target is known and has passed the
/// protected-path check.
pub open spec fn target_cleared(p: Phase) -> bool {
    ||| p == Phase::WriteProbe
    ||| p == Phase::MountPoint
    ||| p == Phase::Emptiness
    ||| p == Phase::Space
    ||| p == Phase::SourceSearch
    ||| p == Phase::SourceKind
    ||| p == Phase::SourceCanonical
    ||| p == Phase::Readable
    ||| source_judged(p)
}

/// The place of a phase in the fixed order of a run.
pub open spec fn rank(p: Phase) -> nat {
    match p {
        Phase::Privilege => 0,
        Phase::TargetKind => 1,
        Phase::TargetCanonical => 2,
        Phase::WriteProbe => 3,
        Phase::MountPoint => 4,
        Phase::Emptiness => 5,
        Phase::Space => 6,
        Phase::SourceSearch => 7,
        Phase::SourceKind => 8,
        Phase::SourceCanonical => 9,
        Phase::Readable => 10,
        Phase::Signature => 11,
        Phase::KernelSupport => 12,
        Phase::ModuleLoad => 13,
        Phase::KernelSupportRetry => 14,
        Phase::ToolAvailable => 15,
        Phase::StaleMountDir => 16,
        Phase::StaleUnmount => 17,
        Phase::StaleRemove => 18,
        Phase::CreateMountDir => 19,
        Phase::Mount => 20,
        Phase::Copy => 21,
        Phase::Unmount => 22,
        Phase::RemoveMountDir => 23,
        Phase::Unsquashfs => 24,
        Phase::EssentialDirs => 25,
        Phase::Finished => 26,
    }
}

/// A run only moves forward: an observation either changes nothing or
/// takes the run to a later phase. No check is made twice, nothing is
/// retried, and the checks are gone through in one fixed order.
pub proof fn lemma_runs_move_forward(v: PipelineView, e: Event)
    ensures
        next(v, e) == v || rank(next(v, e).phase) > rank(v.phase),
{
}

/// However long the record, a run never falls back behind the phase it
/// has reached.
pub proof fn lemma_replay_moves_forward(v: PipelineView, events: Seq<Event>)
    ensures
        rank(replay(v, events).phase) >= rank(v.phase),
    decreases events.len(),
{
    if events.len() > 0 {
        lemma_runs_move_forward(v, events.first());
        lemma_replay_moves_forward(next(v, events.first()), events.drop_first());
    }
}

/// What the mount guard must be in each phase.
pub open spec fn guard_fits(p: Phase, guard: Option<bool>) -> bool {
    if p == Phase::Mount {
        guard == Some(false)
    } else if p == Phase::Copy || p == Phase::Unmount {
        guard == Some(true)
    } else if p == Phase::RemoveMountDir {
        guard.is_some()
    } else {
        guard.is_none()
    }
}

/// What holds of every state that a run can reach.
pub open spec fn sound(v: PipelineView) -> bool {
    let ended_well = v.phase == Phase::Finished && v.failure.is_none();
    &&& target_cleared(v.phase) || ended_well ==> !is_protected(v.target)
    &&& source_judged(v.phase) || ended_well ==> !path_starts_with(v.rootfs, v.target)
        && rootfs_type_of(v.rootfs) == Some(v.kind)
    &&& after_preflight(v.phase) ==> !v.check_only
    &&& v.phase == Phase::MountPoint || v.phase == Phase::Emptiness ==> !v.force
    &&& erofs_only(v.phase) ==> v.kind == RootfsType::Erofs
    &&& squashfs_only(v.phase) ==> v.kind == RootfsType::Squashfs
    &&& guard_fits(v.phase, v.guard)
    &&& v.failure.is_some() ==> v.phase == Phase::Unmount || v.phase == Phase::RemoveMountDir
        || v.phase == Phase::Finished
}

/// A run starts in a sound state.
pub proof fn lemma_initial_sound(req: Request)
    ensures
        sound(initial(req)),
{
}

/// No observation takes a run out of the sound states.
pub proof fn lemma_next_sound(v: PipelineView, e: Event)
    requires
        sound(v),
    ensures
        sound(next(v, e)),
{
}

/// Every state of every run is sound.
pub proof fn lemma_replay_sound(req: Request, events: Seq<Event>)
    ensures
        sound(replay(initial(req), events)),
{
    lemma_initial_sound(req);
    lemma_replay_keeps_sound(initial(req), events);
}

proof fn lemma_replay_keeps_sound(v: PipelineView, events: Seq<Event>)
    requires
        sound(v),
    ensures
        sound(replay(v, events)),
    decreases events.len(),
{
    if events.len() > 0 {
        lemma_next_sound(v, events.first());
        lemma_replay_keeps_sound(next(v, events.first()), events.drop_first());
    }
}

/// A target whose canonical path is protected ends the run at once with
/// the protected-path error, whatever was asked for: `force` does not
/// change it. What leads to the canonical path, a symbolic link or the
/// path itself, makes no difference, as only the canonical path is judged.
pub proof fn lemma_protected_target_refused(v: PipelineView, path: String)
    requires
        v.phase == Phase::TargetCanonical,
        is_protected(path@),
    ensures
        outcome(next(v, Event::Resolved(Ok(path)))) == Some(
            Err::<(), RecErrorView>(protected_path_error(path@)),
        ),
{
}

/// Each path of the protected table, once it is the canonical target,
/// ends the run with the protected-path error.
pub proof fn lemma_protected_table_refused(v: PipelineView, path: String, k: int)
    requires
        v.phase == Phase::TargetCanonical,
        0 <= k < 18,
        path@ == protected_path_at(k),
    ensures
        outcome(next(v, Event::Resolved(Ok(path)))) == Some(
            Err::<(), RecErrorView>(protected_path_error(path@)),
        ),
{
    lemma_table_is_protected(k);
}

/// A run as root on an existing directory whose canonical path is
/// protected ends with the protected-path error, whatever the request and
/// whatever is observed after that.
pub proof fn lemma_protected_run_refused(req: Request, path: String, rest: Seq<Event>)
    requires
        is_protected(path@),
    ensures
        outcome(
            replay(
                initial(req),
                seq![
                    Event::Euid(0),
                    Event::Kind(FileKind::Directory),
                    Event::Resolved(Ok(path)),
                ] + rest,
            ),
        ) == Some(Err::<(), RecErrorView>(protected_path_error(path@))),
{
    let e0 = Event::Euid(0);
    let e1 = Event::Kind(FileKind::Directory);
    let e2 = Event::Resolved(Ok(path));
    let v0 = initial(req);
    let v1 = next(v0, e0);
    let v2 = next(v1, e1);
    let v3 = next(v2, e2);
    let r2 = seq![e2] + rest;
    let r1 = seq![e1] + r2;
    assert(seq![e0, e1, e2] + rest =~= seq![e0] + r1);
    lemma_replay_first(v0, e0, r1);
    lemma_replay_first(v1, e1, r2);
    lemma_replay_first(v2, e2, rest);
    lemma_finished_is_final(v3, rest);
}

/// Nothing is written and nothing is changed before the target is known
/// not to be protected: up to the protected-path check the run only looks.
pub proof fn lemma_no_change_to_protected_target(v: PipelineView)
    requires
        sound(v),
        changes_system(pending(v.phase)),
    ensures
        !is_protected(v.target),
        v.phase != Phase::Privilege,
        v.phase != Phase::TargetKind,
        v.phase != Phase::TargetCanonical,
{
}

/// Extraction starts only for an image that lies outside the target and
/// whose extension names the format that is extracted.
pub proof fn lemma_extraction_is_guarded(v: PipelineView)
    requires
        sound(v),
        extracts(pending(v.phase)),
    ensures
        !is_protected(v.target),
        !path_starts_with(v.rootfs, v.target),
        rootfs_type_of(v.rootfs) == Some(v.kind),
        !v.check_only,
{
}

/// A check-only run asks for no action of the extraction.
pub proof fn lemma_check_only_extracts_nothing(req: Request, events: Seq<Event>)
    requires
        req.check_only,
    ensures
        !extracts(pending(replay(initial(req), events).phase)),
{
    lemma_replay_sound(req, events);
    lemma_replay_keeps_flags(initial(req), events);
}

proof fn lemma_replay_keeps_flags(v: PipelineView, events: Seq<Event>)
    ensures
        replay(v, events).check_only == v.check_only,
        replay(v, events).force == v.force,
    decreases events.len(),
{
    if events.len() > 0 {
        lemma_replay_keeps_flags(next(v, events.first()), events.drop_first());
    }
}

/// A run that is over stays as it is: what is observed after the end
/// changes neither the state nor the outcome.
pub proof fn lemma_finished_is_final(v: PipelineView, events: Seq<Event>)
    requires
        v.phase == Phase::Finished,
    ensures
        replay(v, events) == v,
    decreases events.len(),
{
    if events.len() > 0 {
        lemma_finished_is_final(v, events.drop_first());
    }
}

/// Whether two tool outcomes say the same.
pub open spec fn outcomes_alike(a: ProcessOutcome, b: ProcessOutcome) -> bool {
    match (a, b) {
        (ProcessOutcome::NotStarted(x), ProcessOutcome::NotStarted(y)) => x@ == y@,
        (ProcessOutcome::Exited(x), ProcessOutcome::Exited(y)) => x == y,
        (ProcessOutcome::Signaled, ProcessOutcome::Signaled) => true,
        _ => false,
    }
}

/// Whether two events report the same observation: the same kind of
/// answer with the same content.
pub open spec fn alike(a: Event, b: Event) -> bool {
    match (a, b) {
        (Event::Euid(x), Event::Euid(y)) => x == y,
        (Event::Kind(x), Event::Kind(y)) => x == y,
        (Event::Resolved(Ok(x)), Event::Resolved(Ok(y))) => x@ == y@,
        (Event::Resolved(Err(x)), Event::Resolved(Err(y))) => x@ == y@,
        (Event::Probe(x), Event::Probe(y)) => x == y,
        (Event::Devices(x), Event::Devices(y)) => x == y,
        (Event::Entries(None), Event::Entries(None)) => true,
        (Event::Entries(Some(x)), Event::Entries(Some(y))) => string_views(x@) == string_views(
            y@,
        ),
        (Event::Space(x), Event::Space(y)) => x == y,
        (Event::SearchHits(x), Event::SearchHits(y)) => x@ == y@,
        (Event::ImageStart(Ok(x)), Event::ImageStart(Ok(y))) => x@ == y@,
        (Event::ImageStart(Err(x)), Event::ImageStart(Err(y))) => x@ == y@,
        (Event::Filesystems(None), Event::Filesystems(None)) => true,
        (Event::Filesystems(Some(x)), Event::Filesystems(Some(y))) => x@ == y@,
        (Event::Done, Event::Done) => true,
        (Event::Created(Ok(_)), Event::Created(Ok(_))) => true,
        (Event::Created(Err(x)), Event::Created(Err(y))) => x@ == y@,
        (Event::Exit(x), Event::Exit(y)) => outcomes_alike(x, y),
        (Event::EssentialDirs(x), Event::EssentialDirs(y)) => x@ == y@,
        _ => false,
    }
}

/// Whether two records report the same observations in the same order.
pub open spec fn records_alike(a: Seq<Event>, b: Seq<Event>) -> bool {
    a.len() == b.len() && forall|i: int| 0 <= i < a.len() ==> alike(#[trigger] a[i], b[i])
}

/// The next state depends on what was observed and on nothing else.
pub proof fn lemma_alike_events_same_state(v: PipelineView, a: Event, b: Event)
    requires
        alike(a, b),
    ensures
        next(v, a) == next(v, b),
{
}

/// Running twice with nothing changed in between ends alike: two runs
/// that start alike and observe the same reach the same state, and so
/// the same outcome. This holds of check-only runs as of all others.
pub proof fn lemma_same_observations_same_outcome(
    first: Request,
    second: Request,
    a: Seq<Event>,
    b: Seq<Event>,
)
    requires
        initial(first) == initial(second),
        records_alike(a, b),
    ensures
        outcome(replay(initial(first), a)) == outcome(replay(initial(second), b)),
{
    lemma_alike_records_same_state(initial(first), a, b);
}

proof fn lemma_alike_records_same_state(v: PipelineView, a: Seq<Event>, b: Seq<Event>)
    requires
        records_alike(a, b),
    ensures
        replay(v, a) == replay(v, b),
    decreases a.len(),
{
    if a.len() > 0 {
        assert(alike(a[0], b[0]));
        lemma_alike_events_same_state(v, a.first(), b.first());
        let ta = a.drop_first();
        let tb = b.drop_first();
        assert forall|i: int| 0 <= i < ta.len() implies alike(#[trigger] ta[i], tb[i]) by {
            assert(alike(a[i + 1], b[i + 1]));
        }
        lemma_alike_records_same_state(next(v, a.first()), ta, tb);
    }
}

/// When the mount fails, no copy is asked for: the mount directory is
/// removed, without an unmount, and the run ends with the mount's error.
pub proof fn lemma_failed_mount_is_released(v: PipelineView, o: ProcessOutcome)
    requires
        sound(v),
        v.phase == Phase::Mount,
        !succeeded(o),
    ensures
        ({
            let cleaning = next(v, Event::Exit(o));
            let ended = next(cleaning, Event::Done);
            &&& pending(cleaning.phase) == Action::RemoveMountDir
            &&& outcome(ended) == Some(Err::<(), RecErrorView>(mount_failure_error(o)))
            &&& ended.guard.is_none()
        }),
{
}

/// When the copy fails after a mount that succeeded, the image is still
/// unmounted and the mount directory removed, and the run ends with the
/// copy's error.
pub proof fn lemma_failed_copy_is_unmounted(v: PipelineView, o: ProcessOutcome)
    requires
        sound(v),
        v.phase == Phase::Copy,
        !succeeded(o),
    ensures
        ({
            let unmounting = next(v, Event::Exit(o));
            let removing = next(unmounting, Event::Done);
            let ended = next(removing, Event::Done);
            &&& pending(unmounting.phase) == Action::Unmount
            &&& pending(removing.phase) == Action::RemoveMountDir
            &&& outcome(ended) == Some(Err::<(), RecErrorView>(copy_failure_error(o)))
            &&& ended.guard.is_none()
        }),
{
}

/// The emptiness check is made only without `force`. A target that holds
/// an entry other than the two ignored ones fails it.
pub proof fn lemma_foreign_entry_fails_emptiness(v: PipelineView, names: Vec<String>, i: int)
    requires
        sound(v),
        v.phase == Phase::Emptiness,
        0 <= i < names@.len(),
        !ignorable_entry(names@[i]@),
    ensures
        !v.force,
        outcome(next(v, Event::Entries(Some(names)))) == Some(
            Err::<(), RecErrorView>(target_not_empty_error(v.target)),
        ),
{
    assert(string_views(names@)[i] == names@[i]@);
}

/// A target that holds nothing but the two ignored entries passes the
/// emptiness check: the run goes on to the space check.
pub proof fn lemma_ignored_entries_pass_emptiness(v: PipelineView, names: Vec<String>)
    requires
        v.phase == Phase::Emptiness,
        forall|i: int| 0 <= i < names@.len() ==> ignorable_entry(#[trigger] names@[i]@),
    ensures
        pending(next(v, Event::Entries(Some(names))).phase) == Action::QuerySpace,
{
    assert forall|i: int| 0 <= i < string_views(names@).len() implies ignorable_entry(
        #[trigger] string_views(names@)[i],
    ) by {
        assert(string_views(names@)[i] == names@[i]@);
    }
}

/// An image whose extension names no known format ends the run before
/// its signature is asked for.
pub proof fn lemma_unknown_extension_fails_unread(v: PipelineView)
    requires
        v.phase == Phase::Readable,
        !path_starts_with(v.rootfs, v.target),
        rootfs_type_of(v.rootfs).is_none(),
    ensures
        outcome(next(v, Event::Probe(true))) == Some(
            Err::<(), RecErrorView>(unsupported_extension_error(v.rootfs)),
        ),
{
}

/// The signature is asked for only of an image whose extension names
/// the format that is then checked.
pub proof fn lemma_signature_read_of_named_format(v: PipelineView)
    requires
        sound(v),
        pending(v.phase) == Action::ReadImageStart,
    ensures
        rootfs_type_of(v.rootfs) == Some(v.kind),
{
}

/// An image without the signature of its format fails the format
/// validation, with the detail that names the observed and the expected
/// value; an image with it goes on to the check of the tools.
pub proof fn lemma_signature_decides(v: PipelineView, bytes: Vec<u8>)
    requires
        v.phase == Phase::Signature,
    ensures
        !magic_matches(bytes@, v.kind) ==> outcome(next(v, Event::ImageStart(Ok(bytes))))
            == Some(
            Err::<(), RecErrorView>(
                invalid_rootfs_format_error(v.rootfs, magic_mismatch_detail(bytes@, v.kind)),
            ),
        ),
        magic_matches(bytes@, v.kind) ==> outcome(next(v, Event::ImageStart(Ok(bytes)))).is_none()
            && (pending(next(v, Event::ImageStart(Ok(bytes))).phase) == Action::ReadFilesystems
            || pending(next(v, Event::ImageStart(Ok(bytes))).phase) == Action::ProbeUnsquashfs),
{
}

/// When essential directories are missing after the extraction, the run
/// ends with one error whose list holds the name of each of them.
pub proof fn lemma_every_missing_dir_reported(v: PipelineView, is_dir: Vec<bool>, i: int)
    requires
        v.phase == Phase::EssentialDirs,
        0 <= i < 6,
        !dir_present(is_dir@, i),
    ensures
        outcome(next(v, Event::EssentialDirs(is_dir))) == Some(
            Err::<(), RecErrorView>(extraction_verification_failed_error(missing_dirs(is_dir@))),
        ),
        missing_dirs(is_dir@).contains(essential_name(i)),
{
    lemma_missing_dirs_complete(is_dir@, 6);
    let k = choose|k: int|
        0 <= k < missing_dirs(is_dir@).len() && missing_dirs(is_dir@)[k] == essential_name(i);
    assert(missing_dirs(is_dir@).len() > 0);
}

/// A record is gone through one observation after the other: the state
/// after an event and the rest of a record is the state that the rest
/// leads to from the next state.
pub proof fn lemma_replay_first(v: PipelineView, e: Event, rest: Seq<Event>)
    ensures
        replay(v, seq![e] + rest) == replay(next(v, e), rest),
{
    let all = seq![e] + rest;
    assert(all.first() == e);
    assert(all.drop_first() =~= rest);
}

/// When every check passes, the validation passes: a run as root, for a
/// named EROFS image and without `force`, on a target that is a
/// directory, not protected, writable, a mount point, empty and roomy
/// enough, with an image that is a readable regular file outside the
/// target, named and signed as EROFS, on a kernel that lists EROFS. A
/// check-only run then ends well; any other run goes on to the extraction.
pub proof fn lemma_passing_checks_pass(
    req: Request,
    target: String,
    ids: DeviceIds,
    names: Vec<String>,
    blocks: u64,
    fragment: u64,
    image: String,
    start: Vec<u8>,
    filesystems: String,
)
    requires
        req.rootfs.is_some(),
        !req.force,
        !is_protected(target@),
        mount_point(ids),
        dir_is_empty(string_views(names@)),
        free_bytes(blocks, fragment) >= MIN_REQUIRED_BYTES,
        !path_starts_with(image@, target@),
        rootfs_type_of(image@) == Some(RootfsType::Erofs),
        magic_matches(start@, RootfsType::Erofs),
        contains(filesystems@, "erofs"@),
    ensures
        ({
            let v1 = next(initial(req), Event::Euid(0));
            let v2 = next(v1, Event::Kind(FileKind::Directory));
            let v3 = next(v2, Event::Resolved(Ok(target)));
            let v4 = next(v3, Event::Probe(true));
            let v5 = next(v4, Event::Devices(Some(ids)));
            let v6 = next(v5, Event::Entries(Some(names)));
            let v7 = next(v6, Event::Space(Some((blocks, fragment))));
            let v8 = next(v7, Event::Kind(FileKind::File));
            let v9 = next(v8, Event::Resolved(Ok(image)));
            let v10 = next(v9, Event::Probe(true));
            let v11 = next(v10, Event::ImageStart(Ok(start)));
            let end = next(v11, Event::Filesystems(Some(filesystems)));
            &&& req.check_only ==> outcome(end) == Some(Ok::<(), RecErrorView>(()))
            &&& !req.check_only ==> pending(end.phase) == Action::StatMountDir
            &&& end.target == target@
            &&& end.rootfs == image@
        }),
{
    lemma_target_checks_pass(req, target, ids, names);
    let v6 = next(
        next(
            next(
                next(
                    next(next(initial(req), Event::Euid(0)), Event::Kind(FileKind::Directory)),
                    Event::Resolved(Ok(target)),
                ),
                Event::Probe(true),
            ),
            Event::Devices(Some(ids)),
        ),
        Event::Entries(Some(names)),
    );
    lemma_source_checks_pass(v6, blocks, fragment, image, start, filesystems);
}

proof fn lemma_target_checks_pass(req: Request, target: String, ids: DeviceIds, names: Vec<String>)
    requires
        !req.force,
        !is_protected(target@),
        mount_point(ids),
        dir_is_empty(string_views(names@)),
    ensures
        ({
            let v1 = next(initial(req), Event::Euid(0));
            let v2 = next(v1, Event::Kind(FileKind::Directory));
            let v3 = next(v2, Event::Resolved(Ok(target)));
            let v4 = next(v3, Event::Probe(true));
            let v5 = next(v4, Event::Devices(Some(ids)));
            let v6 = next(v5, Event::Entries(Some(names)));
            v6 == (PipelineView { phase: Phase::Space, target: target@, ..initial(req) })
        }),
{
    let v0 = initial(req);
    let v1 = next(v0, Event::Euid(0));
    assert(v1 == PipelineView { phase: Phase::TargetKind, ..v0 });
    let v2 = next(v1, Event::Kind(FileKind::Directory));
    assert(v2 == PipelineView { phase: Phase::TargetCanonical, ..v0 });
    let v3 = next(v2, Event::Resolved(Ok(target)));
    assert(v3 == PipelineView { phase: Phase::WriteProbe, target: target@, ..v0 });
    let v4 = next(v3, Event::Probe(true));
    assert(v4 == PipelineView { phase: Phase::MountPoint, target: target@, ..v0 });
    let v5 = next(v4, Event::Devices(Some(ids)));
    assert(v5 == PipelineView { phase: Phase::Emptiness, target: target@, ..v0 });
}

proof fn lemma_source_checks_pass(
    v: PipelineView,
    blocks: u64,
    fragment: u64,
    image: String,
    start: Vec<u8>,
    filesystems: String,
)
    requires
        v.phase == Phase::Space,
        v.given,
        v.failure.is_none(),
        free_bytes(blocks, fragment) >= MIN_REQUIRED_BYTES,
        !path_starts_with(image@, v.target),
        rootfs_type_of(image@) == Some(RootfsType::Erofs),
        magic_matches(start@, RootfsType::Erofs),
        contains(filesystems@, "erofs"@),
    ensures
        ({
            let v7 = next(v, Event::Space(Some((blocks, fragment))));
            let v8 = next(v7, Event::Kind(FileKind::File));
            let v9 = next(v8, Event::Resolved(Ok(image)));
            let v10 = next(v9, Event::Probe(true));
            let v11 = next(v10, Event::ImageStart(Ok(start)));
            let end = next(v11, Event::Filesystems(Some(filesystems)));
            &&& v.check_only ==> outcome(end) == Some(Ok::<(), RecErrorView>(()))
            &&& !v.check_only ==> pending(end.phase) == Action::StatMountDir
            &&& end.target == v.target
            &&& end.rootfs == image@
        }),
{
    let v7 = next(v, Event::Space(Some((blocks, fragment))));
    assert(v7 == PipelineView { phase: Phase::SourceKind, ..v });
    let v8 = next(v7, Event::Kind(FileKind::File));
    assert(v8 == PipelineView { phase: Phase::SourceCanonical, ..v });
    let v9 = next(v8, Event::Resolved(Ok(image)));
    assert(v9 == PipelineView { phase: Phase::Readable, rootfs: image@, ..v });
    let v10 = next(v9, Event::Probe(true));
    assert(v10 == PipelineView {
        phase: Phase::Signature,
        rootfs: image@,
        kind: RootfsType::Erofs,
        ..v
    });
    let v11 = next(v10, Event::ImageStart(Ok(start)));
    assert(v11 == PipelineView {
        phase: Phase::KernelSupport,
        rootfs: image@,
        kind: RootfsType::Erofs,
        ..v
    });
}

/// On a run that has passed the validation of an EROFS image, an
/// extraction in which every step succeeds and which leaves all essential
/// directories behind ends well, and gives the mount directory back.
pub proof fn lemma_clean_extraction_succeeds(v: PipelineView, is_dir: Vec<bool>)
    requires
        v.phase == Phase::StaleMountDir,
        v.guard.is_none(),
        v.failure.is_none(),
        missing_dirs(is_dir@).len() == 0,
    ensures
        ({
            let v1 = next(v, Event::Probe(false));
            let v2 = next(v1, Event::Created(Ok(())));
            let v3 = next(v2, Event::Exit(ProcessOutcome::Exited(0)));
            let v4 = next(v3, Event::Exit(ProcessOutcome::Exited(0)));
            let v5 = next(v4, Event::Done);
            let v6 = next(v5, Event::Done);
            let end = next(v6, Event::EssentialDirs(is_dir));
            &&& pending(v1.phase) == Action::CreateMountDir
            &&& pending(v2.phase) == Action::Mount
            &&& pending(v3.phase) == Action::Copy
            &&& pending(v4.phase) == Action::Unmount
            &&& pending(v5.phase) == Action::RemoveMountDir
            &&& pending(v6.phase) == Action::ProbeEssentialDirs
            &&& outcome(end) == Some(Ok::<(), RecErrorView>(()))
            &&& end.guard.is_none()
        }),
{
    let v1 = next(v, Event::Probe(false));
    assert(v1 == PipelineView { phase: Phase::CreateMountDir, ..v });
    let v2 = next(v1, Event::Created(Ok(())));
    assert(v2 == PipelineView { phase: Phase::Mount, guard: Some(false), ..v });
    let v3 = next(v2, Event::Exit(ProcessOutcome::Exited(0)));
    assert(v3 == PipelineView { phase: Phase::Copy, guard: Some(true), ..v });
    let v4 = next(v3, Event::Exit(ProcessOutcome::Exited(0)));
    assert(v4 == PipelineView { phase: Phase::Unmount, guard: Some(true), ..v });
    let v5 = next(v4, Event::Done);
    assert(v5 == PipelineView { phase: Phase::RemoveMountDir, guard: Some(true), ..v });
    let v6 = next(v5, Event::Done);
    assert(v6 == PipelineView { phase: Phase::EssentialDirs, ..v });
}

/// A copy is asked for only while the image is mounted, and a run never
/// ends while it holds the mount directory.
pub proof fn lemma_guard_is_kept(v: PipelineView)
    requires
        sound(v),
    ensures
        v.phase == Phase::Copy ==> v.guard == Some(true),
        v.phase == Phase::Finished ==> v.guard.is_none(),
        v.guard == Some(true) ==> pending(v.phase) == Action::Copy || pending(v.phase)
            == Action::Unmount || pending(v.phase) == Action::RemoveMountDir,
{
}

} // verus!
