//! The pipeline as a state machine.
//!
//! The machine never touches the system. In every state it names one
//! [`Action`] that its caller is to perform, and [`Pipeline::step`] takes
//! what the caller observed, as an [`Event`], to the next state. The
//! checks run in a fixed order, the first failure ends the run, and no
//! action that changes the system is asked for before the checks that
//! guard it have passed.

use crate::constants::{MIB, MIN_REQUIRED_BYTES, MOUNT_DIR_NAME, ROOTFS_SEARCH_PATHS};
use crate::error::{
    erofs_not_supported_error, error_of, extraction_failed_error,
    extraction_verification_failed_error, insufficient_space_error, invalid_rootfs_format_error,
    not_a_directory_error, not_mount_point_error, not_root_error, not_writable_error,
    protected_path_error, rootfs_inside_target_error, rootfs_not_file_error,
    rootfs_not_found_error, rootfs_not_readable_error, target_not_empty_error,
    target_not_found_error, unsquashfs_not_installed_error, ErrorCode, RecError, RecErrorView,
};
use crate::helpers::{
    available_space, dir_is_empty, erofs_supported, find_rootfs, found_rootfs, free_bytes,
    has_enough_space, is_dir_empty, is_mount_point, is_protected, is_protected_path, is_root,
    is_rootfs_inside_target, mount_point, DeviceIds,
};
use crate::path::path_starts_with;
use crate::safety::{changes_system, extracts, lemma_initial_sound, lemma_next_sound, sound};
use crate::rootfs::{
    cleanup_plan, magic_matches, magic_mismatch_detail, missing_dirs, rootfs_type_of,
    validate_rootfs_magic, verify_extraction, CleanupStep, MountGuard, RootfsType,
};
use crate::text::{
    contains, signed_decimal, signed_decimal_string, string_views, views,
};
use vstd::prelude::*;
use vstd::string::*;

verus! {

/// What a path was found to be.
#[derive(Debug, Clone, Copy, PartialEq, Eq, Structural)]
pub enum FileKind {
    /// Nothing exists at the path.
    Missing,
    /// A directory.
    Directory,
    /// A regular file.
    File,
    /// Anything else: a device, a socket, a pipe.
    Other,
}

/// How an external tool ended.
#[derive(Debug)]
pub enum ProcessOutcome {
    /// The tool could not be started; the text says why.
    NotStarted(String),
    /// The tool ran and exited with this status.
    Exited(i32),
    /// The tool was ended by a signal.
    Signaled,
}

/// What the operator asks for.
#[derive(Debug)]
pub struct Request {
    /// The target directory, as given.
    pub target: String,
    /// The image, if one was named; else the well-known locations are searched.
    pub rootfs: Option<String>,
    /// Skip the mount-point check and the emptiness check.
    pub force: bool,
    /// Run every validation, then stop without extracting.
    pub check_only: bool,
}

/// What the caller is asked to do next.
#[derive(Debug, Clone, Copy, PartialEq, Eq, Structural)]
pub enum Action {
    /// Report the effective user id, as [`Event::Euid`].
    QueryPrivilege,
    /// Report what the target path, as given, is: [`Event::Kind`].
    StatTarget,
    /// Resolve the target to its canonical absolute path: [`Event::Resolved`].
    ResolveTarget,
    /// Write the sentinel file into the target and remove it again: [`Event::Probe`].
    ProbeWrite,
    /// Report the device identifiers of the target and of its parent: [`Event::Devices`].
    QueryDevices,
    /// List the names of the target's entries: [`Event::Entries`].
    ListTarget,
    /// Report blocks available and fragment size of the target's filesystem: [`Event::Space`].
    QuerySpace,
    /// Report which search paths exist: [`Event::SearchHits`].
    ProbeSearchPaths,
    /// Report what the source candidate is: [`Event::Kind`].
    StatSource,
    /// Resolve the source candidate to its canonical absolute path: [`Event::Resolved`].
    ResolveSource,
    /// Read the first few bytes of the image: [`Event::Probe`].
    ProbeRead,
    /// Read the leading bytes of the image, as many as the signature check
    /// needs or as the image holds: [`Event::ImageStart`].
    ReadImageStart,
    /// Read the kernel's list of filesystems: [`Event::Filesystems`].
    ReadFilesystems,
    /// Try to load the EROFS kernel module: [`Event::Done`].
    LoadErofsModule,
    /// Report whether the squashfs extraction tool can be run: [`Event::Probe`].
    ProbeUnsquashfs,
    /// Report whether the temporary mount directory exists: [`Event::Probe`].
    StatMountDir,
    /// Try to unmount a mount left over on the temporary mount directory: [`Event::Done`].
    UnmountStale,
    /// Try to remove the left-over temporary mount directory: [`Event::Done`].
    RemoveStale,
    /// Create the temporary mount directory: [`Event::Created`].
    CreateMountDir,
    /// Mount the image read-only on the temporary mount directory: [`Event::Exit`].
    Mount,
    /// Copy the mounted tree into the target, keeping all attributes: [`Event::Exit`].
    Copy,
    /// Unmount the image: [`Event::Done`].
    Unmount,
    /// Remove the temporary mount directory: [`Event::Done`].
    RemoveMountDir,
    /// Run the squashfs extraction tool into the target: [`Event::Exit`].
    Unsquashfs,
    /// Report which essential directories exist under the target: [`Event::EssentialDirs`].
    ProbeEssentialDirs,
    /// Nothing: the run is over.
    Finish,
}

/// What the caller observed when it performed an action.
#[derive(Debug)]
pub enum Event {
    /// The effective user id.
    Euid(u32),
    /// What a path is.
    Kind(FileKind),
    /// A canonical absolute path, or why the path could not be resolved.
    Resolved(Result<String, String>),
    /// Whether a probe succeeded.
    Probe(bool),
    /// Device identifiers, or `None` when they could not be had.
    Devices(Option<DeviceIds>),
    /// The names of a directory's entries, or `None` when it could not be read.
    Entries(Option<Vec<String>>),
    /// Blocks available and fragment size, or `None` when the query failed.
    Space(Option<(u64, u64)>),
    /// For each search path, whether it exists.
    SearchHits(Vec<bool>),
    /// The leading bytes of the image, or why it could not be read.
    ImageStart(Result<Vec<u8>, String>),
    /// The kernel's list of filesystems, or `None` when it could not be read.
    Filesystems(Option<String>),
    /// An action whose outcome does not matter was performed.
    Done,
    /// A directory was created, or why it could not be.
    Created(Result<(), String>),
    /// How an external tool ended.
    Exit(ProcessOutcome),
    /// For each essential directory, whether it exists as a directory.
    EssentialDirs(Vec<bool>),
}

/// Where a run stands: the observation it waits for.
#[derive(Debug, Clone, Copy, PartialEq, Eq, Structural)]
pub enum Phase {
    /// Waits for the effective user id.
    Privilege,
    /// Waits for what the target, as given, is.
    TargetKind,
    /// Waits for the canonical path of the target.
    TargetCanonical,
    /// Waits for the outcome of the write probe.
    WriteProbe,
    /// Waits for the device identifiers of the target and its parent.
    MountPoint,
    /// Waits for the entries of the target.
    Emptiness,
    /// Waits for the free space of the target's filesystem.
    Space,
    /// Waits for which search paths exist.
    SourceSearch,
    /// Waits for what the source candidate is.
    SourceKind,
    /// Waits for the canonical path of the image.
    SourceCanonical,
    /// Waits for the outcome of the read probe.
    Readable,
    /// Waits for the leading bytes of the image.
    Signature,
    /// Waits for the kernel's list of filesystems, for the first time.
    KernelSupport,
    /// Waits for the attempt to load the EROFS module.
    ModuleLoad,
    /// Waits for the kernel's list of filesystems, for the second time.
    KernelSupportRetry,
    /// Waits for whether the squashfs extraction tool is there.
    ToolAvailable,
    /// Waits for whether a mount directory is left over.
    StaleMountDir,
    /// Waits for the unmount of the left-over mount directory.
    StaleUnmount,
    /// Waits for the removal of the left-over mount directory.
    StaleRemove,
    /// Waits for the creation of the mount directory.
    CreateMountDir,
    /// Waits for the mount.
    Mount,
    /// Waits for the copy.
    Copy,
    /// Waits for the unmount.
    Unmount,
    /// Waits for the removal of the mount directory.
    RemoveMountDir,
    /// Waits for the squashfs extraction tool.
    Unsquashfs,
    /// Waits for which essential directories exist.
    EssentialDirs,
    /// The run is over.
    Finished,
}

/// The state of a run.
pub struct PipelineView {
    pub phase: Phase,
    pub force: bool,
    pub check_only: bool,
    /// The target as given.
    pub raw_target: Seq<char>,
    /// Whether the operator named an image.
    pub given: bool,
    /// The canonical target, once known.
    pub target: Seq<char>,
    /// The image path before it is resolved.
    pub candidate: Seq<char>,
    /// The canonical image path, once known.
    pub rootfs: Seq<char>,
    /// The image format, once known.
    pub kind: RootfsType,
    /// `Some` while a temporary mount directory is held; the flag says
    /// whether the image is mounted on it.
    pub guard: Option<bool>,
    /// The error that ends the run, once there is one.
    pub failure: Option<RecErrorView>,
}

/// The run goes on in `phase`.
pub open spec fn goto(v: PipelineView, phase: Phase) -> PipelineView {
    PipelineView { phase, ..v }
}

/// The run ends with `e`.
pub open spec fn fail(v: PipelineView, e: RecErrorView) -> PipelineView {
    PipelineView { phase: Phase::Finished, failure: Some(e), ..v }
}

/// Whether a tool ran and reported success.
pub open spec fn succeeded(o: ProcessOutcome) -> bool {
    o matches ProcessOutcome::Exited(c) && c == 0
}

/// The exit status as it is reported: -1 when there is none.
pub open spec fn exit_number(o: ProcessOutcome) -> int {
    match o {
        ProcessOutcome::Exited(c) => c as int,
        _ => -1,
    }
}

/// The error of a mount that did not succeed: that the tool could not be
/// run, or its exit status.
pub open spec fn mount_failure_error(o: ProcessOutcome) -> RecErrorView {
    match o {
        ProcessOutcome::NotStarted(why) => error_of(
            ErrorCode::ExtractionFailed,
            "failed to run mount: "@ + why@,
        ),
        _ => error_of(
            ErrorCode::ExtractionFailed,
            "mount failed (exit "@ + signed_decimal(exit_number(o))
                + "). Is the kernel EROFS module loaded?"@,
        ),
    }
}

/// The error of a copy that did not succeed: that the tool could not be
/// run, or its exit status.
pub open spec fn copy_failure_error(o: ProcessOutcome) -> RecErrorView {
    match o {
        ProcessOutcome::NotStarted(why) => error_of(
            ErrorCode::ExtractionFailed,
            "failed to run cp: "@ + why@,
        ),
        _ => error_of(
            ErrorCode::ExtractionFailed,
            "cp failed (exit "@ + signed_decimal(exit_number(o)) + ")"@,
        ),
    }
}

/// The error of an extraction tool that did not succeed: that it could
/// not be run, its exit status, or that a signal ended it.
pub open spec fn unsquashfs_failure_error(o: ProcessOutcome) -> RecErrorView {
    match o {
        ProcessOutcome::NotStarted(why) => error_of(
            ErrorCode::ExtractionFailed,
            "failed to run unsquashfs: "@ + why@,
        ),
        ProcessOutcome::Exited(c) => extraction_failed_error(
            "unsquashfs exit code "@ + signed_decimal(c as int),
        ),
        ProcessOutcome::Signaled => extraction_failed_error("unsquashfs exit code signal"@),
    }
}

/// The error of a mount directory that could not be created.
pub open spec fn create_failure_error(why: Seq<char>) -> RecErrorView {
    error_of(ErrorCode::ExtractionFailed, "failed to create mount point: "@ + why)
}

/// The error of an image whose extension names no known format.
pub open spec fn unsupported_extension_error(rootfs: Seq<char>) -> RecErrorView {
    invalid_rootfs_format_error(
        rootfs,
        "unsupported file extension (expected .erofs or .squashfs)"@,
    )
}

/// The state in which a run starts.
pub open spec fn initial(req: Request) -> PipelineView {
    PipelineView {
        phase: Phase::Privilege,
        force: req.force,
        check_only: req.check_only,
        raw_target: req.target@,
        given: req.rootfs.is_some(),
        target: Seq::empty(),
        candidate: match req.rootfs {
            Some(p) => p@,
            None => Seq::empty(),
        },
        rootfs: Seq::empty(),
        kind: RootfsType::Erofs,
        guard: None,
        failure: None,
    }
}

/// The action that a run in phase `phase` waits for.
pub open spec fn pending(phase: Phase) -> Action {
    match phase {
        Phase::Privilege => Action::QueryPrivilege,
        Phase::TargetKind => Action::StatTarget,
        Phase::TargetCanonical => Action::ResolveTarget,
        Phase::WriteProbe => Action::ProbeWrite,
        Phase::MountPoint => Action::QueryDevices,
        Phase::Emptiness => Action::ListTarget,
        Phase::Space => Action::QuerySpace,
        Phase::SourceSearch => Action::ProbeSearchPaths,
        Phase::SourceKind => Action::StatSource,
        Phase::SourceCanonical => Action::ResolveSource,
        Phase::Readable => Action::ProbeRead,
        Phase::Signature => Action::ReadImageStart,
        Phase::KernelSupport => Action::ReadFilesystems,
        Phase::ModuleLoad => Action::LoadErofsModule,
        Phase::KernelSupportRetry => Action::ReadFilesystems,
        Phase::ToolAvailable => Action::ProbeUnsquashfs,
        Phase::StaleMountDir => Action::StatMountDir,
        Phase::StaleUnmount => Action::UnmountStale,
        Phase::StaleRemove => Action::RemoveStale,
        Phase::CreateMountDir => Action::CreateMountDir,
        Phase::Mount => Action::Mount,
        Phase::Copy => Action::Copy,
        Phase::Unmount => Action::Unmount,
        Phase::RemoveMountDir => Action::RemoveMountDir,
        Phase::Unsquashfs => Action::Unsquashfs,
        Phase::EssentialDirs => Action::ProbeEssentialDirs,
        Phase::Finished => Action::Finish,
    }
}

/// The target checks are over; the source comes next.
pub open spec fn to_source(v: PipelineView) -> PipelineView {
    if v.given {
        goto(v, Phase::SourceKind)
    } else {
        goto(v, Phase::SourceSearch)
    }
}

/// Every validation has passed.
pub open spec fn preflight_passed(v: PipelineView) -> PipelineView {
    if v.check_only {
        goto(v, Phase::Finished)
    } else {
        match v.kind {
            RootfsType::Erofs => goto(v, Phase::StaleMountDir),
            RootfsType::Squashfs => goto(v, Phase::Unsquashfs),
        }
    }
}

/// Nothing is held any more: the run ends if it failed, else the
/// extracted tree is checked.
pub open spec fn released(v: PipelineView) -> PipelineView {
    if v.failure.is_some() {
        PipelineView { phase: Phase::Finished, guard: None, ..v }
    } else {
        PipelineView { phase: Phase::EssentialDirs, guard: None, ..v }
    }
}

/// The mount-and-copy extraction is over, well or badly: what is held is
/// given back, the mount first if there is one.
pub open spec fn release(v: PipelineView) -> PipelineView {
    match v.guard {
        Some(mounted) => match cleanup_plan(mounted).first() {
            CleanupStep::Unmount => goto(v, Phase::Unmount),
            CleanupStep::RemoveDir => goto(v, Phase::RemoveMountDir),
        },
        None => released(v),
    }
}

/// The source was read; now its place and its name are judged.
pub open spec fn judge_source(v: PipelineView) -> PipelineView {
    if path_starts_with(v.rootfs, v.target) {
        fail(v, rootfs_inside_target_error(v.rootfs, v.target))
    } else {
        match rootfs_type_of(v.rootfs) {
            Some(kind) => PipelineView { phase: Phase::Signature, kind, ..v },
            None => fail(v, unsupported_extension_error(v.rootfs)),
        }
    }
}

/// The privilege check: only root may go on.
pub open spec fn on_privilege(v: PipelineView, e: Event) -> PipelineView {
    match e {
        Event::Euid(euid) => if euid == 0 {
            goto(v, Phase::TargetKind)
        } else {
            fail(v, not_root_error())
        },
        _ => v,
    }
}

/// The target must exist and be a directory.
pub open spec fn on_target_kind(v: PipelineView, e: Event) -> PipelineView {
    match e {
        Event::Kind(kind) => match kind {
            FileKind::Missing => fail(v, target_not_found_error(v.raw_target)),
            FileKind::Directory => goto(v, Phase::TargetCanonical),
            _ => fail(v, not_a_directory_error(v.raw_target)),
        },
        _ => v,
    }
}

/// The canonical target must not be a protected path. From here on the
/// canonical target stands for the target.
pub open spec fn on_target_canonical(v: PipelineView, e: Event) -> PipelineView {
    match e {
        Event::Resolved(resolved) => match resolved {
            Ok(path) => if is_protected(path@) {
                fail(v, protected_path_error(path@))
            } else {
                PipelineView { phase: Phase::WriteProbe, target: path@, ..v }
            },
            Err(why) => fail(v, error_of(ErrorCode::TargetNotFound, why@)),
        },
        _ => v,
    }
}

/// The target must be writable. With `force`, the mount-point check and
/// the emptiness check are skipped.
pub open spec fn on_write_probe(v: PipelineView, e: Event) -> PipelineView {
    match e {
        Event::Probe(ok) => if !ok {
            fail(v, not_writable_error(v.target))
        } else if v.force {
            goto(v, Phase::Space)
        } else {
            goto(v, Phase::MountPoint)
        },
        _ => v,
    }
}

/// The target must be a mount point; device identifiers that could not
/// be had count against it.
pub open spec fn on_mount_point(v: PipelineView, e: Event) -> PipelineView {
    match e {
        Event::Devices(devices) => match devices {
            Some(ids) => if mount_point(ids) {
                goto(v, Phase::Emptiness)
            } else {
                fail(v, not_mount_point_error(v.target))
            },
            None => fail(v, not_mount_point_error(v.target)),
        },
        _ => v,
    }
}

/// The target must be empty; a listing that could not be had counts
/// against it.
pub open spec fn on_emptiness(v: PipelineView, e: Event) -> PipelineView {
    match e {
        Event::Entries(entries) => match entries {
            Some(names) => if dir_is_empty(string_views(names@)) {
                goto(v, Phase::Space)
            } else {
                fail(v, target_not_empty_error(v.target))
            },
            None => fail(v, target_not_empty_error(v.target)),
        },
        _ => v,
    }
}

/// The target's filesystem must have room; a query that failed does not
/// stop the run.
pub open spec fn on_space(v: PipelineView, e: Event) -> PipelineView {
    match e {
        Event::Space(space) => match space {
            Some((blocks, fragment)) => if free_bytes(blocks, fragment) >= MIN_REQUIRED_BYTES {
                to_source(v)
            } else {
                fail(
                    v,
                    insufficient_space_error(
                        (MIN_REQUIRED_BYTES / MIB) as nat,
                        (free_bytes(blocks, fragment) / MIB) as nat,
                    ),
                )
            },
            None => to_source(v),
        },
        _ => v,
    }
}

/// Without a named image, the first search path that exists is taken.
pub open spec fn on_source_search(v: PipelineView, e: Event) -> PipelineView {
    match e {
        Event::SearchHits(hits) => match found_rootfs(hits@) {
            Some(path) => PipelineView { phase: Phase::SourceKind, candidate: path, ..v },
            None => fail(v, rootfs_not_found_error(views(ROOTFS_SEARCH_PATHS@))),
        },
        _ => v,
    }
}

/// The image must exist and be a regular file.
pub open spec fn on_source_kind(v: PipelineView, e: Event) -> PipelineView {
    match e {
        Event::Kind(kind) => match kind {
            FileKind::File => goto(v, Phase::SourceCanonical),
            FileKind::Missing => if v.given {
                fail(v, rootfs_not_found_error(seq![v.candidate]))
            } else {
                fail(v, rootfs_not_file_error(v.candidate))
            },
            _ => fail(v, rootfs_not_file_error(v.candidate)),
        },
        _ => v,
    }
}

/// From here on the canonical image path stands for the image.
pub open spec fn on_source_canonical(v: PipelineView, e: Event) -> PipelineView {
    match e {
        Event::Resolved(resolved) => match resolved {
            Ok(path) => PipelineView { phase: Phase::Readable, rootfs: path@, ..v },
            Err(why) => fail(v, error_of(ErrorCode::RootfsNotFound, why@)),
        },
        _ => v,
    }
}

/// The image must be readable, lie outside the target, and have a known
/// extension: no signature is read of an image without one.
pub open spec fn on_readable(v: PipelineView, e: Event) -> PipelineView {
    match e {
        Event::Probe(ok) => if ok {
            judge_source(v)
        } else {
            fail(v, rootfs_not_readable_error(v.rootfs))
        },
        _ => v,
    }
}

/// The image must carry the signature of the format that its extension claims.
pub open spec fn on_signature(v: PipelineView, e: Event) -> PipelineView {
    match e {
        Event::ImageStart(start) => match start {
            Ok(bytes) => if magic_matches(bytes@, v.kind) {
                match v.kind {
                    RootfsType::Erofs => goto(v, Phase::KernelSupport),
                    RootfsType::Squashfs => goto(v, Phase::ToolAvailable),
                }
            } else {
                fail(
                    v,
                    invalid_rootfs_format_error(v.rootfs, magic_mismatch_detail(bytes@, v.kind)),
                )
            },
            Err(why) => fail(v, invalid_rootfs_format_error(v.rootfs, why@)),
        },
        _ => v,
    }
}

/// Whether the kernel's list of filesystems was read and names EROFS.
pub open spec fn lists_erofs(list: Option<String>) -> bool {
    match list {
        Some(text) => contains(text@, "erofs"@),
        None => false,
    }
}

/// The kernel must support EROFS. At the first look, a kernel without it
/// gets the module loaded and a second look; at the second, it fails.
pub open spec fn on_kernel_support(v: PipelineView, e: Event, second: bool) -> PipelineView {
    match e {
        Event::Filesystems(list) => if lists_erofs(list) {
            preflight_passed(v)
        } else if second {
            fail(v, erofs_not_supported_error())
        } else {
            goto(v, Phase::ModuleLoad)
        },
        _ => v,
    }
}

/// The squashfs extraction tool must be there.
pub open spec fn on_tool_available(v: PipelineView, e: Event) -> PipelineView {
    match e {
        Event::Probe(ok) => if ok {
            preflight_passed(v)
        } else {
            fail(v, unsquashfs_not_installed_error())
        },
        _ => v,
    }
}

/// A mount directory left over from an interrupted run is unmounted and
/// removed before a fresh one is made.
pub open spec fn on_stale_mount_dir(v: PipelineView, e: Event) -> PipelineView {
    match e {
        Event::Probe(exists) => if exists {
            goto(v, Phase::StaleUnmount)
        } else {
            goto(v, Phase::CreateMountDir)
        },
        _ => v,
    }
}

/// Once the mount directory is made, it is held until it is removed.
pub open spec fn on_create_mount_dir(v: PipelineView, e: Event) -> PipelineView {
    match e {
        Event::Created(created) => match created {
            Ok(_) => PipelineView { phase: Phase::Mount, guard: Some(false), ..v },
            Err(why) => fail(v, create_failure_error(why@)),
        },
        _ => v,
    }
}

/// A mount that failed is followed by no copy, only by the release.
pub open spec fn on_mount(v: PipelineView, e: Event) -> PipelineView {
    match e {
        Event::Exit(outcome) => if succeeded(outcome) {
            PipelineView { phase: Phase::Copy, guard: Some(true), ..v }
        } else {
            release(PipelineView { failure: Some(mount_failure_error(outcome)), ..v })
        },
        _ => v,
    }
}

/// After the copy, well or badly, comes the release.
pub open spec fn on_copy(v: PipelineView, e: Event) -> PipelineView {
    match e {
        Event::Exit(outcome) => if succeeded(outcome) {
            release(v)
        } else {
            release(PipelineView { failure: Some(copy_failure_error(outcome)), ..v })
        },
        _ => v,
    }
}

/// The extraction tool must report success.
pub open spec fn on_unsquashfs(v: PipelineView, e: Event) -> PipelineView {
    match e {
        Event::Exit(outcome) => if succeeded(outcome) {
            goto(v, Phase::EssentialDirs)
        } else {
            fail(v, unsquashfs_failure_error(outcome))
        },
        _ => v,
    }
}

/// The extracted tree must hold every essential directory.
pub open spec fn on_essential_dirs(v: PipelineView, e: Event) -> PipelineView {
    match e {
        Event::EssentialDirs(is_dir) => if missing_dirs(is_dir@).len() == 0 {
            goto(v, Phase::Finished)
        } else {
            fail(v, extraction_verification_failed_error(missing_dirs(is_dir@)))
        },
        _ => v,
    }
}

/// An action whose outcome does not matter was performed: on to `then`.
pub open spec fn on_done(v: PipelineView, e: Event, then: Phase) -> PipelineView {
    match e {
        Event::Done => goto(v, then),
        _ => v,
    }
}

/// The last step of the release.
pub open spec fn on_remove_mount_dir(v: PipelineView, e: Event) -> PipelineView {
    match e {
        Event::Done => released(v),
        _ => v,
    }
}

/// The state after `e` was observed in state `v`. An event that does not
/// answer the pending action changes nothing: the action is still pending.
pub open spec fn next(v: PipelineView, e: Event) -> PipelineView {
    match v.phase {
        Phase::Privilege => on_privilege(v, e),
        Phase::TargetKind => on_target_kind(v, e),
        Phase::TargetCanonical => on_target_canonical(v, e),
        Phase::WriteProbe => on_write_probe(v, e),
        Phase::MountPoint => on_mount_point(v, e),
        Phase::Emptiness => on_emptiness(v, e),
        Phase::Space => on_space(v, e),
        Phase::SourceSearch => on_source_search(v, e),
        Phase::SourceKind => on_source_kind(v, e),
        Phase::SourceCanonical => on_source_canonical(v, e),
        Phase::Readable => on_readable(v, e),
        Phase::Signature => on_signature(v, e),
        Phase::KernelSupport => on_kernel_support(v, e, false),
        Phase::ModuleLoad => on_done(v, e, Phase::KernelSupportRetry),
        Phase::KernelSupportRetry => on_kernel_support(v, e, true),
        Phase::ToolAvailable => on_tool_available(v, e),
        Phase::StaleMountDir => on_stale_mount_dir(v, e),
        Phase::StaleUnmount => on_done(v, e, Phase::StaleRemove),
        Phase::StaleRemove => on_done(v, e, Phase::CreateMountDir),
        Phase::CreateMountDir => on_create_mount_dir(v, e),
        Phase::Mount => on_mount(v, e),
        Phase::Copy => on_copy(v, e),
        Phase::Unmount => on_done(v, e, Phase::RemoveMountDir),
        Phase::RemoveMountDir => on_remove_mount_dir(v, e),
        Phase::Unsquashfs => on_unsquashfs(v, e),
        Phase::EssentialDirs => on_essential_dirs(v, e),
        Phase::Finished => v,
    }
}

/// How a run ended: `None` while it is not over.
pub open spec fn outcome(v: PipelineView) -> Option<Result<(), RecErrorView>> {
    if v.phase == Phase::Finished {
        match v.failure {
            Some(e) => Some(Err(e)),
            None => Some(Ok(())),
        }
    } else {
        None
    }
}

/// The state after the events `events` were observed one after the other.
pub open spec fn replay(v: PipelineView, events: Seq<Event>) -> PipelineView
    decreases events.len(),
{
    if events.len() == 0 {
        v
    } else {
        replay(next(v, events.first()), events.drop_first())
    }
}

fn outcome_succeeded(o: &ProcessOutcome) -> (r: bool)
    ensures
        r == succeeded(*o),
{
    match o {
        ProcessOutcome::Exited(c) => *c == 0,
        _ => false,
    }
}

fn exit_number_string(o: &ProcessOutcome) -> (r: String)
    ensures
        r@ == signed_decimal(exit_number(*o)),
{
    match o {
        ProcessOutcome::Exited(c) => signed_decimal_string(*c),
        _ => signed_decimal_string(-1),
    }
}

fn mount_failure(o: &ProcessOutcome) -> (r: RecError)
    ensures
        r@ == mount_failure_error(*o),
{
    match o {
        ProcessOutcome::NotStarted(why) => {
            let mut m: String = String::from_str("failed to run mount: ");
            m.append(why.as_str());
            RecError::new(ErrorCode::ExtractionFailed, m)
        },
        _ => {
            let mut m: String = String::from_str("mount failed (exit ");
            let n: String = exit_number_string(o);
            m.append(n.as_str());
            m.append("). Is the kernel EROFS module loaded?");
            RecError::new(ErrorCode::ExtractionFailed, m)
        },
    }
}

fn copy_failure(o: &ProcessOutcome) -> (r: RecError)
    ensures
        r@ == copy_failure_error(*o),
{
    match o {
        ProcessOutcome::NotStarted(why) => {
            let mut m: String = String::from_str("failed to run cp: ");
            m.append(why.as_str());
            RecError::new(ErrorCode::ExtractionFailed, m)
        },
        _ => {
            let mut m: String = String::from_str("cp failed (exit ");
            let n: String = exit_number_string(o);
            m.append(n.as_str());
            m.append(")");
            RecError::new(ErrorCode::ExtractionFailed, m)
        },
    }
}

fn unsquashfs_failure(o: &ProcessOutcome) -> (r: RecError)
    ensures
        r@ == unsquashfs_failure_error(*o),
{
    match o {
        ProcessOutcome::NotStarted(why) => {
            let mut m: String = String::from_str("failed to run unsquashfs: ");
            m.append(why.as_str());
            RecError::new(ErrorCode::ExtractionFailed, m)
        },
        ProcessOutcome::Exited(c) => {
            let mut m: String = String::from_str("unsquashfs exit code ");
            let n: String = signed_decimal_string(*c);
            m.append(n.as_str());
            RecError::extraction_failed(m.as_str())
        },
        ProcessOutcome::Signaled => RecError::extraction_failed("unsquashfs exit code signal"),
    }
}

fn create_failure(why: &str) -> (r: RecError)
    ensures
        r@ == create_failure_error(why@),
{
    let mut m: String = String::from_str("failed to create mount point: ");
    m.append(why);
    RecError::new(ErrorCode::ExtractionFailed, m)
}

fn unsupported_extension(rootfs: &str) -> (r: RecError)
    ensures
        r@ == unsupported_extension_error(rootfs@),
{
    RecError::invalid_rootfs_format(
        rootfs,
        "unsupported file extension (expected .erofs or .squashfs)",
    )
}

/// A run of the pipeline.
#[derive(Debug)]
pub struct Pipeline {
    phase: Phase,
    force: bool,
    check_only: bool,
    raw_target: String,
    given: bool,
    target: String,
    candidate: String,
    rootfs: String,
    kind: RootfsType,
    guard: Option<MountGuard>,
    failure: Option<RecError>,
}

impl View for Pipeline {
    type V = PipelineView;

    closed spec fn view(&self) -> PipelineView {
        PipelineView {
            phase: self.phase,
            force: self.force,
            check_only: self.check_only,
            raw_target: self.raw_target@,
            given: self.given,
            target: self.target@,
            candidate: self.candidate@,
            rootfs: self.rootfs@,
            kind: self.kind,
            guard: match self.guard {
                Some(g) => Some(g.mounted),
                None => None,
            },
            failure: match self.failure {
                Some(e) => Some(e@),
                None => None,
            },
        }
    }
}

impl Pipeline {
    /// A run for `request`, at its start.
    pub fn new(request: Request) -> (r: Pipeline)
        ensures
            r@ == initial(request),
            sound(r@),
    {
        proof {
            lemma_initial_sound(request);
        }
        let Request { target, rootfs, force, check_only } = request;
        let (given, candidate) = match rootfs {
            Some(p) => (true, p),
            None => (false, String::new()),
        };
        Pipeline {
            phase: Phase::Privilege,
            force,
            check_only,
            raw_target: target,
            given,
            target: String::new(),
            candidate,
            rootfs: String::new(),
            kind: RootfsType::Erofs,
            guard: None,
            failure: None,
        }
    }

    /// The action that the run waits for. In a sound state no action that
    /// changes the system is asked for while the target may be protected,
    /// and a check-only run asks for no action of the extraction.
    pub fn action(&self) -> (r: Action)
        ensures
            r == pending(self@.phase),
            sound(self@) && changes_system(r) ==> !is_protected(self@.target),
            sound(self@) && self@.check_only ==> !extracts(r),
    {
        match self.phase {
            Phase::Privilege => Action::QueryPrivilege,
            Phase::TargetKind => Action::StatTarget,
            Phase::TargetCanonical => Action::ResolveTarget,
            Phase::WriteProbe => Action::ProbeWrite,
            Phase::MountPoint => Action::QueryDevices,
            Phase::Emptiness => Action::ListTarget,
            Phase::Space => Action::QuerySpace,
            Phase::SourceSearch => Action::ProbeSearchPaths,
            Phase::SourceKind => Action::StatSource,
            Phase::SourceCanonical => Action::ResolveSource,
            Phase::Readable => Action::ProbeRead,
            Phase::Signature => Action::ReadImageStart,
            Phase::KernelSupport => Action::ReadFilesystems,
            Phase::ModuleLoad => Action::LoadErofsModule,
            Phase::KernelSupportRetry => Action::ReadFilesystems,
            Phase::ToolAvailable => Action::ProbeUnsquashfs,
            Phase::StaleMountDir => Action::StatMountDir,
            Phase::StaleUnmount => Action::UnmountStale,
            Phase::StaleRemove => Action::RemoveStale,
            Phase::CreateMountDir => Action::CreateMountDir,
            Phase::Mount => Action::Mount,
            Phase::Copy => Action::Copy,
            Phase::Unmount => Action::Unmount,
            Phase::RemoveMountDir => Action::RemoveMountDir,
            Phase::Unsquashfs => Action::Unsquashfs,
            Phase::EssentialDirs => Action::ProbeEssentialDirs,
            Phase::Finished => Action::Finish,
        }
    }

    /// Where the run stands.
    pub fn phase(&self) -> (r: Phase)
        ensures
            r == self@.phase,
    {
        self.phase
    }

    /// Whether the run is over.
    pub fn is_finished(&self) -> (r: bool)
        ensures
            r == (self@.phase == Phase::Finished),
    {
        self.phase == Phase::Finished
    }

    /// The canonical target; empty until it is known.
    pub fn target(&self) -> (r: &str)
        ensures
            r@ == self@.target,
    {
        self.target.as_str()
    }

    /// The image path to look at and to resolve: the one the operator
    /// named, or the search path that was found.
    pub fn source_candidate(&self) -> (r: &str)
        ensures
            r@ == self@.candidate,
    {
        self.candidate.as_str()
    }

    /// The canonical image path; empty until it is known.
    pub fn rootfs(&self) -> (r: &str)
        ensures
            r@ == self@.rootfs,
    {
        self.rootfs.as_str()
    }

    /// The image format; meaningful once the signature is asked for.
    pub fn rootfs_type(&self) -> (r: RootfsType)
        ensures
            r == self@.kind,
    {
        self.kind
    }

    /// How many leading bytes of the image the signature check needs.
    pub fn image_start_len(&self) -> (r: usize)
        ensures
            r == self@.kind.magic_offset() + 4,
    {
        self.kind.signature_end()
    }

    /// How the run ended: `None` while it is not over.
    pub fn result(self) -> (r: Option<Result<(), RecError>>)
        ensures
            match r {
                None => outcome(self@).is_none(),
                Some(Ok(_)) => outcome(self@) == Some(Ok::<(), RecErrorView>(())),
                Some(Err(e)) => outcome(self@) == Some(Err::<(), RecErrorView>(e@)),
            },
    {
        if self.phase == Phase::Finished {
            match self.failure {
                Some(e) => Some(Err(e)),
                None => Some(Ok(())),
            }
        } else {
            None
        }
    }

    fn moved(self, phase: Phase) -> (r: Pipeline)
        ensures
            r@ == goto(self@, phase),
    {
        let mut p = self;
        p.phase = phase;
        p
    }

    fn failed(self, e: RecError) -> (r: Pipeline)
        ensures
            r@ == fail(self@, e@),
    {
        let mut p = self;
        p.phase = Phase::Finished;
        p.failure = Some(e);
        p
    }

    fn to_source(self) -> (r: Pipeline)
        ensures
            r@ == to_source(self@),
    {
        if self.given {
            self.moved(Phase::SourceKind)
        } else {
            self.moved(Phase::SourceSearch)
        }
    }

    fn preflight_passed(self) -> (r: Pipeline)
        ensures
            r@ == preflight_passed(self@),
    {
        if self.check_only {
            self.moved(Phase::Finished)
        } else {
            match self.kind {
                RootfsType::Erofs => self.moved(Phase::StaleMountDir),
                RootfsType::Squashfs => self.moved(Phase::Unsquashfs),
            }
        }
    }

    fn released(self) -> (r: Pipeline)
        ensures
            r@ == released(self@),
    {
        let mut p = self;
        p.guard = None;
        if p.failure.is_some() {
            p.phase = Phase::Finished;
        } else {
            p.phase = Phase::EssentialDirs;
        }
        p
    }

    fn release(self) -> (r: Pipeline)
        ensures
            r@ == release(self@),
    {
        let first: Option<CleanupStep> = match &self.guard {
            Some(g) => {
                let steps: Vec<CleanupStep> = g.cleanup_steps();
                Some(steps[0])
            },
            None => None,
        };
        match first {
            Some(CleanupStep::Unmount) => self.moved(Phase::Unmount),
            Some(CleanupStep::RemoveDir) => self.moved(Phase::RemoveMountDir),
            None => self.released(),
        }
    }

    fn judge_source(self) -> (r: Pipeline)
        ensures
            r@ == judge_source(self@),
    {
        if is_rootfs_inside_target(self.rootfs.as_str(), self.target.as_str()) {
            let e = RecError::rootfs_inside_target(self.rootfs.as_str(), self.target.as_str());
            self.failed(e)
        } else {
            match RootfsType::from_path(self.rootfs.as_str()) {
                Some(kind) => {
                    let mut p = self;
                    p.kind = kind;
                    p.phase = Phase::Signature;
                    p
                },
                None => {
                    let e = unsupported_extension(self.rootfs.as_str());
                    self.failed(e)
                },
            }
        }
    }

    fn on_privilege(self, event: Event) -> (r: Pipeline)
        ensures
            r@ == on_privilege(self@, event),
    {
        match event {
            Event::Euid(euid) => {
                if is_root(euid) {
                    self.moved(Phase::TargetKind)
                } else {
                    self.failed(RecError::not_root())
                }
            },
            _ => self,
        }
    }

    fn on_target_kind(self, event: Event) -> (r: Pipeline)
        ensures
            r@ == on_target_kind(self@, event),
    {
        match event {
            Event::Kind(kind) => match kind {
                FileKind::Missing => {
                    let e = RecError::target_not_found(self.raw_target.as_str());
                    self.failed(e)
                },
                FileKind::Directory => self.moved(Phase::TargetCanonical),
                _ => {
                    let e = RecError::not_a_directory(self.raw_target.as_str());
                    self.failed(e)
                },
            },
            _ => self,
        }
    }

    fn on_target_canonical(self, event: Event) -> (r: Pipeline)
        ensures
            r@ == on_target_canonical(self@, event),
    {
        match event {
            Event::Resolved(resolved) => match resolved {
                Ok(path) => {
                    if is_protected_path(path.as_str()) {
                        let e = RecError::protected_path(path.as_str());
                        self.failed(e)
                    } else {
                        let mut p = self;
                        p.target = path;
                        p.phase = Phase::WriteProbe;
                        p
                    }
                },
                Err(why) => self.failed(RecError::new(ErrorCode::TargetNotFound, why)),
            },
            _ => self,
        }
    }

    fn on_write_probe(self, event: Event) -> (r: Pipeline)
        ensures
            r@ == on_write_probe(self@, event),
    {
        match event {
            Event::Probe(ok) => {
                if !ok {
                    let e = RecError::not_writable(self.target.as_str());
                    self.failed(e)
                } else if self.force {
                    self.moved(Phase::Space)
                } else {
                    self.moved(Phase::MountPoint)
                }
            },
            _ => self,
        }
    }

    fn on_mount_point(self, event: Event) -> (r: Pipeline)
        ensures
            r@ == on_mount_point(self@, event),
    {
        match event {
            Event::Devices(devices) => {
                let ok: bool = match devices {
                    Some(ids) => is_mount_point(&ids),
                    None => false,
                };
                if ok {
                    self.moved(Phase::Emptiness)
                } else {
                    let e = RecError::not_mount_point(self.target.as_str());
                    self.failed(e)
                }
            },
            _ => self,
        }
    }

    fn on_emptiness(self, event: Event) -> (r: Pipeline)
        ensures
            r@ == on_emptiness(self@, event),
    {
        match event {
            Event::Entries(entries) => {
                let ok: bool = match entries {
                    Some(names) => is_dir_empty(&names),
                    None => false,
                };
                if ok {
                    self.moved(Phase::Space)
                } else {
                    let e = RecError::target_not_empty(self.target.as_str());
                    self.failed(e)
                }
            },
            _ => self,
        }
    }

    fn on_space(self, event: Event) -> (r: Pipeline)
        ensures
            r@ == on_space(self@, event),
    {
        match event {
            Event::Space(space) => match space {
                Some((blocks, fragment)) => {
                    let available: u64 = available_space(blocks, fragment);
                    if has_enough_space(available) {
                        self.to_source()
                    } else {
                        self.failed(
                            RecError::insufficient_space(MIN_REQUIRED_BYTES / MIB, available / MIB),
                        )
                    }
                },
                None => self.to_source(),
            },
            _ => self,
        }
    }

    fn on_source_search(self, event: Event) -> (r: Pipeline)
        ensures
            r@ == on_source_search(self@, event),
    {
        match event {
            Event::SearchHits(hits) => match find_rootfs(hits.as_slice()) {
                Some(path) => {
                    let mut p = self;
                    p.candidate = String::from_str(path);
                    p.phase = Phase::SourceKind;
                    p
                },
                None => self.failed(RecError::rootfs_not_found(ROOTFS_SEARCH_PATHS.as_slice())),
            },
            _ => self,
        }
    }

    fn on_source_kind(self, event: Event) -> (r: Pipeline)
        ensures
            r@ == on_source_kind(self@, event),
    {
        match event {
            Event::Kind(kind) => match kind {
                FileKind::File => self.moved(Phase::SourceCanonical),
                FileKind::Missing => {
                    if self.given {
                        let tried: [&str; 1] = [self.candidate.as_str()];
                        proof {
                            assert(views(tried@) =~= seq![self.candidate@]);
                        }
                        let e = RecError::rootfs_not_found(tried.as_slice());
                        self.failed(e)
                    } else {
                        let e = RecError::rootfs_not_file(self.candidate.as_str());
                        self.failed(e)
                    }
                },
                _ => {
                    let e = RecError::rootfs_not_file(self.candidate.as_str());
                    self.failed(e)
                },
            },
            _ => self,
        }
    }

    fn on_source_canonical(self, event: Event) -> (r: Pipeline)
        ensures
            r@ == on_source_canonical(self@, event),
    {
        match event {
            Event::Resolved(resolved) => match resolved {
                Ok(path) => {
                    let mut p = self;
                    p.rootfs = path;
                    p.phase = Phase::Readable;
                    p
                },
                Err(why) => self.failed(RecError::new(ErrorCode::RootfsNotFound, why)),
            },
            _ => self,
        }
    }

    fn on_readable(self, event: Event) -> (r: Pipeline)
        ensures
            r@ == on_readable(self@, event),
    {
        match event {
            Event::Probe(ok) => {
                if ok {
                    self.judge_source()
                } else {
                    let e = RecError::rootfs_not_readable(self.rootfs.as_str());
                    self.failed(e)
                }
            },
            _ => self,
        }
    }

    fn on_signature(self, event: Event) -> (r: Pipeline)
        ensures
            r@ == on_signature(self@, event),
    {
        match event {
            Event::ImageStart(start) => match start {
                Ok(bytes) => match validate_rootfs_magic(bytes.as_slice(), self.kind) {
                    Ok(_) => match self.kind {
                        RootfsType::Erofs => self.moved(Phase::KernelSupport),
                        RootfsType::Squashfs => self.moved(Phase::ToolAvailable),
                    },
                    Err(detail) => {
                        let e = RecError::invalid_rootfs_format(
                            self.rootfs.as_str(),
                            detail.as_str(),
                        );
                        self.failed(e)
                    },
                },
                Err(why) => {
                    let e = RecError::invalid_rootfs_format(self.rootfs.as_str(), why.as_str());
                    self.failed(e)
                },
            },
            _ => self,
        }
    }

    fn on_kernel_support(self, event: Event, second: bool) -> (r: Pipeline)
        ensures
            r@ == on_kernel_support(self@, event, second),
    {
        match event {
            Event::Filesystems(list) => {
                let ok: bool = match list {
                    Some(text) => erofs_supported(text.as_str()),
                    None => false,
                };
                if ok {
                    self.preflight_passed()
                } else if second {
                    self.failed(RecError::erofs_not_supported())
                } else {
                    self.moved(Phase::ModuleLoad)
                }
            },
            _ => self,
        }
    }

    fn on_tool_available(self, event: Event) -> (r: Pipeline)
        ensures
            r@ == on_tool_available(self@, event),
    {
        match event {
            Event::Probe(ok) => {
                if ok {
                    self.preflight_passed()
                } else {
                    self.failed(RecError::unsquashfs_not_installed())
                }
            },
            _ => self,
        }
    }

    fn on_stale_mount_dir(self, event: Event) -> (r: Pipeline)
        ensures
            r@ == on_stale_mount_dir(self@, event),
    {
        match event {
            Event::Probe(exists) => {
                if exists {
                    self.moved(Phase::StaleUnmount)
                } else {
                    self.moved(Phase::CreateMountDir)
                }
            },
            _ => self,
        }
    }

    fn on_create_mount_dir(self, event: Event) -> (r: Pipeline)
        ensures
            r@ == on_create_mount_dir(self@, event),
    {
        match event {
            Event::Created(created) => match created {
                Ok(_) => {
                    let mut p = self;
                    p.guard = Some(MountGuard::new(String::from_str(MOUNT_DIR_NAME)));
                    p.phase = Phase::Mount;
                    p
                },
                Err(why) => {
                    let e = create_failure(why.as_str());
                    self.failed(e)
                },
            },
            _ => self,
        }
    }

    fn on_mount(self, event: Event) -> (r: Pipeline)
        ensures
            r@ == on_mount(self@, event),
    {
        match event {
            Event::Exit(outcome) => {
                if outcome_succeeded(&outcome) {
                    let mut p = self;
                    let mut guard: MountGuard = match p.guard {
                        Some(g) => g,
                        None => MountGuard::new(String::from_str(MOUNT_DIR_NAME)),
                    };
                    guard.set_mounted();
                    p.guard = Some(guard);
                    p.phase = Phase::Copy;
                    p
                } else {
                    let mut p = self;
                    p.failure = Some(mount_failure(&outcome));
                    p.release()
                }
            },
            _ => self,
        }
    }

    fn on_copy(self, event: Event) -> (r: Pipeline)
        ensures
            r@ == on_copy(self@, event),
    {
        match event {
            Event::Exit(outcome) => {
                if outcome_succeeded(&outcome) {
                    self.release()
                } else {
                    let mut p = self;
                    p.failure = Some(copy_failure(&outcome));
                    p.release()
                }
            },
            _ => self,
        }
    }

    fn on_unsquashfs(self, event: Event) -> (r: Pipeline)
        ensures
            r@ == on_unsquashfs(self@, event),
    {
        match event {
            Event::Exit(outcome) => {
                if outcome_succeeded(&outcome) {
                    self.moved(Phase::EssentialDirs)
                } else {
                    let e = unsquashfs_failure(&outcome);
                    self.failed(e)
                }
            },
            _ => self,
        }
    }

    fn on_essential_dirs(self, event: Event) -> (r: Pipeline)
        ensures
            r@ == on_essential_dirs(self@, event),
    {
        match event {
            Event::EssentialDirs(is_dir) => match verify_extraction(is_dir.as_slice()) {
                Ok(_) => self.moved(Phase::Finished),
                Err(e) => self.failed(e),
            },
            _ => self,
        }
    }

    fn on_done(self, event: Event, then: Phase) -> (r: Pipeline)
        ensures
            r@ == on_done(self@, event, then),
    {
        match event {
            Event::Done => self.moved(then),
            _ => self,
        }
    }

    fn on_remove_mount_dir(self, event: Event) -> (r: Pipeline)
        ensures
            r@ == on_remove_mount_dir(self@, event),
    {
        match event {
            Event::Done => self.released(),
            _ => self,
        }
    }

    /// Takes the run to its next state on the observation `event`. An
    /// event that does not answer the pending action changes nothing.
    /// No step leaves the states in which every action that is asked for
    /// is guarded by the checks before it.
    pub fn step(self, event: Event) -> (r: Pipeline)
        ensures
            r@ == next(self@, event),
            sound(self@) ==> sound(r@),
    {
        proof {
            if sound(self@) {
                lemma_next_sound(self@, event);
            }
        }
        match self.phase {
            Phase::Privilege => self.on_privilege(event),
            Phase::TargetKind => self.on_target_kind(event),
            Phase::TargetCanonical => self.on_target_canonical(event),
            Phase::WriteProbe => self.on_write_probe(event),
            Phase::MountPoint => self.on_mount_point(event),
            Phase::Emptiness => self.on_emptiness(event),
            Phase::Space => self.on_space(event),
            Phase::SourceSearch => self.on_source_search(event),
            Phase::SourceKind => self.on_source_kind(event),
            Phase::SourceCanonical => self.on_source_canonical(event),
            Phase::Readable => self.on_readable(event),
            Phase::Signature => self.on_signature(event),
            Phase::KernelSupport => self.on_kernel_support(event, false),
            Phase::ModuleLoad => self.on_done(event, Phase::KernelSupportRetry),
            Phase::KernelSupportRetry => self.on_kernel_support(event, true),
            Phase::ToolAvailable => self.on_tool_available(event),
            Phase::StaleMountDir => self.on_stale_mount_dir(event),
            Phase::StaleUnmount => self.on_done(event, Phase::StaleRemove),
            Phase::StaleRemove => self.on_done(event, Phase::CreateMountDir),
            Phase::CreateMountDir => self.on_create_mount_dir(event),
            Phase::Mount => self.on_mount(event),
            Phase::Copy => self.on_copy(event),
            Phase::Unmount => self.on_done(event, Phase::RemoveMountDir),
            Phase::RemoveMountDir => self.on_remove_mount_dir(event),
            Phase::Unsquashfs => self.on_unsquashfs(event),
            Phase::EssentialDirs => self.on_essential_dirs(event),
            Phase::Finished => self,
        }
    }
}

/// Runs the pipeline for `request` on a record of observations: each
/// event in turn answers the action that is pending then. Returns how the
/// run ended, or `None` when the record ends before the run does.
pub fn run_pipeline(request: Request, events: Vec<Event>) -> (r: Option<Result<(), RecError>>)
    ensures
        match r {
            None => outcome(replay(initial(request), events@)).is_none(),
            Some(Ok(_)) => outcome(replay(initial(request), events@)) == Some(
                Ok::<(), RecErrorView>(()),
            ),
            Some(Err(e)) => outcome(replay(initial(request), events@)) == Some(
                Err::<(), RecErrorView>(e@),
            ),
        },
{
    let ghost start = initial(request);
    let ghost all = events@;
    let mut p: Pipeline = Pipeline::new(request);
    let mut rest: Vec<Event> = events;
    while rest.len() > 0
        invariant
            replay(p@, rest@) == replay(start, all),
        decreases rest.len(),
    {
        let ghost before = rest@;
        let e: Event = rest.remove(0);
        proof {
            assert(before.first() == e);
            assert(before.drop_first() =~= rest@);
        }
        p = p.step(e);
    }
    p.result()
}

} // verus!
