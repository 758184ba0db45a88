//! The mount lifecycle state machine, and the error-code translation.

use qcow2_fuse::fuse_util::{
    fuse_errcode, lifecycle_next, MountAction, MountEvent, MountMode, MountState,
};

#[test]
fn foreground_interrupt_unmounts_and_exits() {
    let interrupted = lifecycle_next(
        MountState::Mounted,
        MountMode::Foreground,
        MountEvent::SignalInterrupt,
    );
    assert_eq!(interrupted.state, MountState::Unmounting);
    assert_eq!(interrupted.action, MountAction::StopWorker);
    let done = lifecycle_next(
        interrupted.state,
        MountMode::Foreground,
        MountEvent::TeardownComplete,
    );
    assert_eq!(done.state, MountState::Unmounted);
    assert_eq!(done.action, MountAction::ExitSuccess);
}

#[test]
fn foreground_mounting_blocks_signal_and_spawns() {
    let step = lifecycle_next(
        MountState::Mounting,
        MountMode::Foreground,
        MountEvent::SessionBound,
    );
    assert_eq!(step.state, MountState::Mounted);
    assert_eq!(step.action, MountAction::BlockSignalAndSpawn);
}

#[test]
fn background_daemonizes_before_dispatch() {
    let bound = lifecycle_next(
        MountState::Mounting,
        MountMode::Background,
        MountEvent::SessionBound,
    );
    assert_eq!(bound.state, MountState::Mounting);
    assert_eq!(bound.action, MountAction::Daemonize);
    let detached = lifecycle_next(bound.state, MountMode::Background, MountEvent::Daemonized);
    assert_eq!(detached.state, MountState::Mounted);
    assert_eq!(detached.action, MountAction::RunDispatch);
}

#[test]
fn fatal_mounting_conditions_exit_with_failure() {
    let step = lifecycle_next(
        MountState::Mounting,
        MountMode::Foreground,
        MountEvent::BindFailed,
    );
    assert_eq!(step.state, MountState::Unmounted);
    assert_eq!(step.action, MountAction::ExitFailure);
    let step = lifecycle_next(
        MountState::Mounting,
        MountMode::Background,
        MountEvent::DaemonizeFailed,
    );
    assert_eq!(step.state, MountState::Unmounted);
    assert_eq!(step.action, MountAction::ExitFailure);
}

#[test]
fn external_unmount_in_foreground_raises_the_interrupt() {
    let step = lifecycle_next(
        MountState::Mounted,
        MountMode::Foreground,
        MountEvent::SessionEnded,
    );
    assert_eq!(step.state, MountState::Mounted);
    assert_eq!(step.action, MountAction::RaiseInterrupt);
}

#[test]
fn other_signals_keep_the_waiter_waiting() {
    let step = lifecycle_next(
        MountState::Mounted,
        MountMode::Foreground,
        MountEvent::OtherSignal,
    );
    assert_eq!(step.state, MountState::Mounted);
    assert_eq!(step.action, MountAction::Continue);
}

#[test]
fn background_session_end_unmounts() {
    let step = lifecycle_next(
        MountState::Mounted,
        MountMode::Background,
        MountEvent::SessionEnded,
    );
    assert_eq!(step.state, MountState::Unmounting);
    assert_eq!(step.action, MountAction::Continue);
}

#[test]
fn errcode_translation_keeps_native_codes() {
    assert_eq!(fuse_errcode(Some(13)), 13);
    assert_eq!(fuse_errcode(Some(2)), 2);
    assert_eq!(fuse_errcode(None), 5);
}
