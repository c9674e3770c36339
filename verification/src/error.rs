//! Failure taxonomy and the recovery policy the supervisor consumes.

use vstd::prelude::*;

verus! {

/// Every failure the pipeline can surface. Error values are inert; the
/// recovery decision for each kind lives in [`recovery_action`].
#[derive(Debug, Clone)]
pub enum AppError {
    /// The user's cancellation signal was observed: benign, expected termination.
    Interrupt,
    /// An OS-level I/O failure without a more specific kind; the message
    /// carries the underlying cause.
    IoError(String),
    /// The kernel queue could not be bound; recoverable by one retry.
    QueueStartError(String),
    /// Reading or verdicting on the queue failed mid-run; fatal for the loop.
    QueueProcessError(String),
    /// Any error not otherwise classified: a gap in the taxonomy.
    Unexpected(String),
}

/// What the supervisor does about a failure.
#[derive(Debug, Clone, Copy, PartialEq, Eq, Structural)]
pub enum RecoveryAction {
    /// Remove the kernel rules, then exit reporting success.
    CleanupAndExitOk,
    /// Remove the kernel rules, report the failure, exit non-zero.
    CleanupAndReport,
    /// Retry the queue start once, immediately; a second failure is fatal.
    RetryStartOnce,
}

/// The policy table of the failure taxonomy.
pub open spec fn spec_recovery_action(e: AppError) -> RecoveryAction {
    match e {
        AppError::Interrupt => RecoveryAction::CleanupAndExitOk,
        AppError::IoError(_) => RecoveryAction::CleanupAndReport,
        AppError::QueueStartError(_) => RecoveryAction::RetryStartOnce,
        AppError::QueueProcessError(_) => RecoveryAction::CleanupAndReport,
        AppError::Unexpected(_) => RecoveryAction::CleanupAndReport,
    }
}

/// Maps a failure to its recovery action. Only a cancellation ends the run
/// successfully; only a queue-start failure earns a retry; every other kind
/// is cleaned up, reported, and fatal.
pub fn recovery_action(e: &AppError) -> (r: RecoveryAction)
    ensures
        r == spec_recovery_action(*e),
{
    match e {
        AppError::Interrupt => RecoveryAction::CleanupAndExitOk,
        AppError::IoError(_) => RecoveryAction::CleanupAndReport,
        AppError::QueueStartError(_) => RecoveryAction::RetryStartOnce,
        AppError::QueueProcessError(_) => RecoveryAction::CleanupAndReport,
        AppError::Unexpected(_) => RecoveryAction::CleanupAndReport,
    }
}

} // verus!
