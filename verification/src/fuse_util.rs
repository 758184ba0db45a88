//! Attribute records served to the kernel, translation of source errors to
//! kernel error codes, and the mount lifecycle state machine.

use vstd::prelude::*;

verus! {

/// Error code for "entry not found", as POSIX defines ENOENT.
pub const ENOENT: i32 = 2;

/// Error code for a generic I/O failure, as POSIX defines EIO.
pub const EIO: i32 = 5;

/// Error code for a broken pipe, as POSIX defines EPIPE. It is the
/// condition served when the content size cannot be determined.
pub const EPIPE: i32 = 32;

/// A point in time, in seconds and nanoseconds.
#[derive(Clone, Copy, Debug, PartialEq, Eq, Structural)]
pub struct Timespec {
    pub sec: i64,
    pub nsec: i32,
}

/// The kind of an entry: the synthetic directory or the virtual file.
#[derive(Clone, Copy, Debug, PartialEq, Eq, Structural)]
pub enum FileType {
    Directory,
    RegularFile,
}

/// The attribute record served for an entry.
#[derive(Clone, Copy, Debug, PartialEq, Eq, Structural)]
pub struct FileAttr {
    pub ino: u64,
    pub size: u64,
    pub blocks: u64,
    pub atime: Timespec,
    pub mtime: Timespec,
    pub ctime: Timespec,
    pub crtime: Timespec,
    pub kind: FileType,
    pub perm: u16,
    pub nlink: u32,
    pub uid: u32,
    pub gid: u32,
    pub rdev: u32,
    pub flags: u32,
}

/// The host metadata of the backing image file, captured once at mount
/// time: timestamps and ownership, as plain values.
#[derive(Clone, Copy, Debug, PartialEq, Eq, Structural)]
pub struct HostMetadata {
    pub atime_sec: i64,
    pub atime_nsec: i32,
    pub mtime_sec: i64,
    pub mtime_nsec: i32,
    pub ctime_sec: i64,
    pub ctime_nsec: i32,
    pub uid: u32,
    pub gid: u32,
}

/// The directory attributes derived from a host metadata snapshot: a
/// read-only directory with two links, owned as the backing file is, with
/// its timestamps; the change time also stands in for the creation time.
pub open spec fn spec_dir_attrs(md: HostMetadata) -> FileAttr {
    FileAttr {
        ino: 1,
        size: 0,
        blocks: 0,
        atime: Timespec { sec: md.atime_sec, nsec: md.atime_nsec },
        mtime: Timespec { sec: md.mtime_sec, nsec: md.mtime_nsec },
        ctime: Timespec { sec: md.ctime_sec, nsec: md.ctime_nsec },
        crtime: Timespec { sec: md.ctime_sec, nsec: md.ctime_nsec },
        kind: FileType::Directory,
        perm: 0o755,
        nlink: 2,
        uid: md.uid,
        gid: md.gid,
        rdev: 0,
        flags: 0,
    }
}

/// Build the attribute record for the mount's directory from the host
/// metadata of the backing image file. The items appropriate for the
/// directory are fixed here; attribute synthesis for the virtual file
/// overwrites them and reuses the rest.
pub fn md_to_attrs(md: &HostMetadata) -> (attr: FileAttr)
    ensures
        attr == spec_dir_attrs(*md),
{
    FileAttr {
        ino: 1,
        size: 0,
        blocks: 0,
        atime: Timespec { sec: md.atime_sec, nsec: md.atime_nsec },
        mtime: Timespec { sec: md.mtime_sec, nsec: md.mtime_nsec },
        ctime: Timespec { sec: md.ctime_sec, nsec: md.ctime_nsec },
        crtime: Timespec { sec: md.ctime_sec, nsec: md.ctime_nsec },
        kind: FileType::Directory,
        perm: 0o755,
        nlink: 2,
        uid: md.uid,
        gid: md.gid,
        rdev: 0,
        flags: 0,
    }
}

/// The uniform error translation applied at the adapter boundary: a source
/// failure that carries a native operating-system code is surfaced with that
/// code, and one without a native code as the generic I/O failure.
pub open spec fn spec_fuse_errcode(raw_os_error: Option<i32>) -> i32 {
    match raw_os_error {
        Some(code) => code,
        None => EIO,
    }
}

/// Turn the native error code of an I/O failure, if it carries one, into
/// the code surfaced to the kernel.
pub fn fuse_errcode(raw_os_error: Option<i32>) -> (code: i32)
    ensures
        code == spec_fuse_errcode(raw_os_error),
{
    match raw_os_error {
        Some(code) => code,
        None => EIO,
    }
}

/// Whether the mount serves attached to the terminal or detached as a
/// daemon.
#[derive(Clone, Copy, Debug, PartialEq, Eq, Structural)]
pub enum MountMode {
    Foreground,
    Background,
}

/// The phases of a mount session's life.
#[derive(Clone, Copy, Debug, PartialEq, Eq, Structural)]
pub enum MountState {
    Unmounted,
    Mounting,
    Mounted,
    Unmounting,
}

/// What the surroundings report to the lifecycle manager.
#[derive(Clone, Copy, Debug, PartialEq, Eq, Structural)]
pub enum MountEvent {
    /// The operator asked for the mount.
    MountRequested,
    /// The kernel session was bound to the target directory.
    SessionBound,
    /// The kernel session could not be bound.
    BindFailed,
    /// The process detached from its terminal.
    Daemonized,
    /// The process could not detach.
    DaemonizeFailed,
    /// The interrupt signal arrived.
    SignalInterrupt,
    /// Some other signal woke the waiter.
    OtherSignal,
    /// The kernel reported that the session ended.
    SessionEnded,
    /// The worker stopped and the session was dropped.
    TeardownComplete,
}

/// What the lifecycle manager asks the surroundings to do next.
#[derive(Clone, Copy, Debug, PartialEq, Eq, Structural)]
pub enum MountAction {
    /// Bind the kernel session to the target directory, with the
    /// pass-through options.
    BindSession,
    /// Block the interrupt signal on every thread, start dispatch on a
    /// worker, and wait for the signal.
    BlockSignalAndSpawn,
    /// Detach from the controlling terminal and working directory.
    Daemonize,
    /// Run request dispatch on the calling thread until the session ends.
    RunDispatch,
    /// Stop the worker, which triggers the unmount sequence.
    StopWorker,
    /// Raise the interrupt signal at the own process, so the waiter
    /// observes the session's end.
    RaiseInterrupt,
    /// Terminate with the runtime-error status.
    ExitFailure,
    /// Terminate with the success status.
    ExitSuccess,
    /// Nothing to do; keep waiting.
    Continue,
}

/// A lifecycle transition: the state entered and the action requested.
#[derive(Clone, Copy, Debug, PartialEq, Eq, Structural)]
pub struct LifecycleStep {
    pub state: MountState,
    pub action: MountAction,
}

/// The mount lifecycle: binding the session, then in foreground mode a
/// signal waiter beside a dispatch worker, in background mode detaching
/// before dispatching on the calling thread. A fatal condition while
/// mounting terminates the process; foreground teardown is driven by the
/// interrupt signal alone, and an externally unmounted session merely
/// raises that signal itself, so the extra unmount attempt stays harmless.
pub open spec fn spec_lifecycle_next(
    state: MountState,
    mode: MountMode,
    event: MountEvent,
) -> LifecycleStep {
    match (state, event) {
        (MountState::Unmounted, MountEvent::MountRequested) => LifecycleStep {
            state: MountState::Mounting,
            action: MountAction::BindSession,
        },
        (MountState::Mounting, MountEvent::SessionBound) => match mode {
            MountMode::Foreground => LifecycleStep {
                state: MountState::Mounted,
                action: MountAction::BlockSignalAndSpawn,
            },
            MountMode::Background => LifecycleStep {
                state: MountState::Mounting,
                action: MountAction::Daemonize,
            },
        },
        (MountState::Mounting, MountEvent::Daemonized) => LifecycleStep {
            state: MountState::Mounted,
            action: MountAction::RunDispatch,
        },
        (MountState::Mounting, MountEvent::BindFailed) => LifecycleStep {
            state: MountState::Unmounted,
            action: MountAction::ExitFailure,
        },
        (MountState::Mounting, MountEvent::DaemonizeFailed) => LifecycleStep {
            state: MountState::Unmounted,
            action: MountAction::ExitFailure,
        },
        (MountState::Mounted, MountEvent::SignalInterrupt) => match mode {
            MountMode::Foreground => LifecycleStep {
                state: MountState::Unmounting,
                action: MountAction::StopWorker,
            },
            MountMode::Background => LifecycleStep {
                state: MountState::Mounted,
                action: MountAction::Continue,
            },
        },
        (MountState::Mounted, MountEvent::SessionEnded) => match mode {
            MountMode::Foreground => LifecycleStep {
                state: MountState::Mounted,
                action: MountAction::RaiseInterrupt,
            },
            MountMode::Background => LifecycleStep {
                state: MountState::Unmounting,
                action: MountAction::Continue,
            },
        },
        (MountState::Unmounting, MountEvent::TeardownComplete) => LifecycleStep {
            state: MountState::Unmounted,
            action: MountAction::ExitSuccess,
        },
        (_, _) => LifecycleStep { state: state, action: MountAction::Continue },
    }
}

/// Decide the next lifecycle state and the action to take on an event.
pub fn lifecycle_next(state: MountState, mode: MountMode, event: MountEvent) -> (step:
    LifecycleStep)
    ensures
        step == spec_lifecycle_next(state, mode, event),
{
    match (state, event) {
        (MountState::Unmounted, MountEvent::MountRequested) => LifecycleStep {
            state: MountState::Mounting,
            action: MountAction::BindSession,
        },
        (MountState::Mounting, MountEvent::SessionBound) => match mode {
            MountMode::Foreground => LifecycleStep {
                state: MountState::Mounted,
                action: MountAction::BlockSignalAndSpawn,
            },
            MountMode::Background => LifecycleStep {
                state: MountState::Mounting,
                action: MountAction::Daemonize,
            },
        },
        (MountState::Mounting, MountEvent::Daemonized) => LifecycleStep {
            state: MountState::Mounted,
            action: MountAction::RunDispatch,
        },
        (MountState::Mounting, MountEvent::BindFailed) => LifecycleStep {
            state: MountState::Unmounted,
            action: MountAction::ExitFailure,
        },
        (MountState::Mounting, MountEvent::DaemonizeFailed) => LifecycleStep {
            state: MountState::Unmounted,
            action: MountAction::ExitFailure,
        },
        (MountState::Mounted, MountEvent::SignalInterrupt) => match mode {
            MountMode::Foreground => LifecycleStep {
                state: MountState::Unmounting,
                action: MountAction::StopWorker,
            },
            MountMode::Background => LifecycleStep {
                state: MountState::Mounted,
                action: MountAction::Continue,
            },
        },
        (MountState::Mounted, MountEvent::SessionEnded) => match mode {
            MountMode::Foreground => LifecycleStep {
                state: MountState::Mounted,
                action: MountAction::RaiseInterrupt,
            },
            MountMode::Background => LifecycleStep {
                state: MountState::Unmounting,
                action: MountAction::Continue,
            },
        },
        (MountState::Unmounting, MountEvent::TeardownComplete) => LifecycleStep {
            state: MountState::Unmounted,
            action: MountAction::ExitSuccess,
        },
        (_, _) => LifecycleStep { state: state, action: MountAction::Continue },
    }
}

/// Law: a foreground mount that receives the interrupt signal unmounts
/// and exits of its own accord. The interrupt stops the worker, and the
/// completed teardown leaves the session unmounted with a successful
/// exit; no external unmount command is involved.
pub proof fn lemma_foreground_interrupt_unmounts()
    ensures
        ({
            let interrupted = spec_lifecycle_next(
                MountState::Mounted,
                MountMode::Foreground,
                MountEvent::SignalInterrupt,
            );
            let done = spec_lifecycle_next(
                interrupted.state,
                MountMode::Foreground,
                MountEvent::TeardownComplete,
            );
            &&& interrupted.state == MountState::Unmounting
            &&& interrupted.action == MountAction::StopWorker
            &&& done.state == MountState::Unmounted
            &&& done.action == MountAction::ExitSuccess
        }),
{
}

/// Law: the mounted state is only ever left for the unmounting state, and
/// only on the interrupt signal in foreground mode or on the kernel's
/// report of session termination in background mode.
pub proof fn lemma_mounted_exits(mode: MountMode, event: MountEvent)
    ensures
        spec_lifecycle_next(MountState::Mounted, mode, event).state != MountState::Mounted ==> {
            &&& spec_lifecycle_next(MountState::Mounted, mode, event).state
                == MountState::Unmounting
            &&& (mode == MountMode::Foreground ==> event == MountEvent::SignalInterrupt)
            &&& (mode == MountMode::Background ==> event == MountEvent::SessionEnded)
        },
{
}

} // verus!
