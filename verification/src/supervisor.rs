//! The run supervisor: sequences one end-to-end run and owns the
//! recovery policy around it.
//!
//! The supervisor is a transition function from its phase and the outcome
//! of the last action to the next phase and action. The driver performs
//! each action — install the rules, bind the queue, drive the verdict
//! loop, remove the rules — and hands the outcome back as a [`SupEvent`].

use vstd::prelude::*;
use crate::error::{AppError, RecoveryAction, spec_recovery_action};

verus! {

/// Where the supervisor stands in one run.
#[derive(Clone, Copy, PartialEq, Eq, Structural, Debug)]
pub enum SupPhase {
    /// Nothing has happened; the rules are not installed.
    Init,
    /// The kernel rules are installed; the queue is not bound.
    Installed,
    /// The first queue-start attempt failed; one retry is underway.
    StartRetried,
    /// The verdict loop is being driven.
    Running,
    /// The run is over; the rules are being removed.
    CleaningUp { failed: bool },
    /// The run has ended; `failed` decides the exit status.
    Finished { failed: bool },
}

/// The outcome of the action the supervisor last asked for.
#[derive(Debug)]
pub enum SupEvent {
    InstallOk,
    InstallFailed(String),
    StartOk,
    StartFailed(String),
    /// The verdict loop returned with this result.
    LoopDone(Result<(), AppError>),
    RemoveOk,
    RemoveFailed(String),
}

/// What the supervisor asks its driver to do next.
#[derive(Clone, Copy, PartialEq, Eq, Structural, Debug)]
pub enum SupAction {
    DoInstall,
    DoStartQueue,
    DoRunLoop,
    DoRemove,
    ExitSuccess,
    ExitFailure,
}

/// Whether a finished verdict loop counts as a failed run: only a clean
/// return and an observed interrupt end the run successfully.
pub open spec fn spec_loop_failed(res: Result<(), AppError>) -> bool {
    match res {
        Ok(_) => false,
        Err(e) => spec_recovery_action(e) != RecoveryAction::CleanupAndExitOk,
    }
}

/// The events each phase can answer.
pub open spec fn spec_legal(p: SupPhase, e: SupEvent) -> bool {
    match (p, e) {
        (SupPhase::Init, SupEvent::InstallOk) => true,
        (SupPhase::Init, SupEvent::InstallFailed(_)) => true,
        (SupPhase::Installed, SupEvent::StartOk) => true,
        (SupPhase::Installed, SupEvent::StartFailed(_)) => true,
        (SupPhase::StartRetried, SupEvent::StartOk) => true,
        (SupPhase::StartRetried, SupEvent::StartFailed(_)) => true,
        (SupPhase::Running, SupEvent::LoopDone(_)) => true,
        (SupPhase::CleaningUp { .. }, SupEvent::RemoveOk) => true,
        (SupPhase::CleaningUp { .. }, SupEvent::RemoveFailed(_)) => true,
        _ => false,
    }
}

/// The supervisor's transition table.
///
/// An install failure is fatal on the spot: no kernel object exists yet,
/// so there is nothing to clean up and nothing to retry. A queue-start
/// failure earns exactly one immediate retry. Whatever the loop returns,
/// the rules are removed before any exit. A removal failure makes the
/// run fail regardless of what preceded it.
pub open spec fn spec_sup_step(p: SupPhase, e: SupEvent) -> (SupPhase, SupAction) {
    match (p, e) {
        (SupPhase::Init, SupEvent::InstallOk) => (SupPhase::Installed, SupAction::DoStartQueue),
        (SupPhase::Init, SupEvent::InstallFailed(_)) => (
            SupPhase::Finished { failed: true },
            SupAction::ExitFailure,
        ),
        (SupPhase::Installed, SupEvent::StartOk) => (SupPhase::Running, SupAction::DoRunLoop),
        (SupPhase::Installed, SupEvent::StartFailed(_)) => (
            SupPhase::StartRetried,
            SupAction::DoStartQueue,
        ),
        (SupPhase::StartRetried, SupEvent::StartOk) => (SupPhase::Running, SupAction::DoRunLoop),
        (SupPhase::StartRetried, SupEvent::StartFailed(_)) => (
            SupPhase::CleaningUp { failed: true },
            SupAction::DoRemove,
        ),
        (SupPhase::Running, SupEvent::LoopDone(res)) => (
            SupPhase::CleaningUp { failed: spec_loop_failed(res) },
            SupAction::DoRemove,
        ),
        (SupPhase::CleaningUp { failed }, SupEvent::RemoveOk) => (
            SupPhase::Finished { failed },
            if failed {
                SupAction::ExitFailure
            } else {
                SupAction::ExitSuccess
            },
        ),
        (SupPhase::CleaningUp { .. }, SupEvent::RemoveFailed(_)) => (
            SupPhase::Finished { failed: true },
            SupAction::ExitFailure,
        ),
        _ => (p, SupAction::ExitFailure),
    }
}

/// Performs one supervisor step: consumes the outcome of the last action
/// and decides the next phase and action, exactly as the transition table
/// says.
pub fn sup_step(phase: SupPhase, event: &SupEvent) -> (r: (SupPhase, SupAction))
    requires
        spec_legal(phase, *event),
    ensures
        r == spec_sup_step(phase, *event),
{
    match (phase, event) {
        (SupPhase::Init, SupEvent::InstallOk) => (SupPhase::Installed, SupAction::DoStartQueue),
        (SupPhase::Init, SupEvent::InstallFailed(_)) => (
            SupPhase::Finished { failed: true },
            SupAction::ExitFailure,
        ),
        (SupPhase::Installed, SupEvent::StartOk) => (SupPhase::Running, SupAction::DoRunLoop),
        (SupPhase::Installed, SupEvent::StartFailed(_)) => (
            SupPhase::StartRetried,
            SupAction::DoStartQueue,
        ),
        (SupPhase::StartRetried, SupEvent::StartOk) => (SupPhase::Running, SupAction::DoRunLoop),
        (SupPhase::StartRetried, SupEvent::StartFailed(_)) => (
            SupPhase::CleaningUp { failed: true },
            SupAction::DoRemove,
        ),
        (SupPhase::Running, SupEvent::LoopDone(res)) => {
            let failed = match res {
                Ok(_) => false,
                Err(e) => match crate::error::recovery_action(e) {
                    RecoveryAction::CleanupAndExitOk => false,
                    _ => true,
                },
            };
            (SupPhase::CleaningUp { failed }, SupAction::DoRemove)
        },
        (SupPhase::CleaningUp { failed }, SupEvent::RemoveOk) => (
            SupPhase::Finished { failed },
            if failed {
                SupAction::ExitFailure
            } else {
                SupAction::ExitSuccess
            },
        ),
        (SupPhase::CleaningUp { .. }, SupEvent::RemoveFailed(_)) => (
            SupPhase::Finished { failed: true },
            SupAction::ExitFailure,
        ),
        _ => (phase, SupAction::ExitFailure),
    }
}

/// Retry-once semantics: after installation, a first queue-start failure
/// asks for exactly one more start attempt; success on the retry enters
/// the run loop without surfacing an error, while a second consecutive
/// failure is fatal — the supervisor cleans up and exits reporting
/// failure.
pub proof fn lemma_retry_once_semantics(first: SupEvent, second: SupEvent)
    requires
        first is StartFailed,
        second is StartFailed,
    ensures
        spec_sup_step(SupPhase::Installed, first) == (
            SupPhase::StartRetried,
            SupAction::DoStartQueue,
        ),
        spec_sup_step(SupPhase::StartRetried, SupEvent::StartOk) == (
            SupPhase::Running,
            SupAction::DoRunLoop,
        ),
        spec_sup_step(SupPhase::StartRetried, second) == (
            (SupPhase::CleaningUp { failed: true }),
            SupAction::DoRemove,
        ),
{
}

/// Mandatory cleanup: whatever the verdict loop returns — success, an
/// interrupt, or any failure — the supervisor's next action is to remove
/// the kernel rules, never to exit directly.
pub proof fn lemma_cleanup_before_exit(res: Result<(), AppError>)
    ensures
        spec_sup_step(SupPhase::Running, SupEvent::LoopDone(res)).1 is DoRemove,
{
}

/// A cancelled run ends successfully: an interrupt from the loop leads to
/// cleanup marked non-failed, and a clean removal then exits reporting
/// success.
pub proof fn lemma_interrupt_exits_ok()
    ensures
        spec_sup_step(SupPhase::Running, SupEvent::LoopDone(Err(AppError::Interrupt))) == (
            (SupPhase::CleaningUp { failed: false }),
            SupAction::DoRemove,
        ),
        spec_sup_step((SupPhase::CleaningUp { failed: false }), SupEvent::RemoveOk) == (
            (SupPhase::Finished { failed: false }),
            SupAction::ExitSuccess,
        ),
{
}

} // verus!
