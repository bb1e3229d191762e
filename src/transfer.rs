//! Classifying a finished transfer, and the timer that guards it.
use crate::timer::{Timer, TimerFlag};
use vstd::prelude::*;

verus! {

/// How long a transfer may run, in milliseconds, before the "this may take a
/// moment" notice is shown.
pub const ADVISORY_MS: u64 = 1000;

/// A transfer that did not succeed.
#[derive(Clone, Copy, Debug, PartialEq, Eq, Structural)]
pub struct DownloadError;

/// How a transfer command ended.
#[derive(Clone, Copy, Debug, PartialEq, Eq, Structural)]
pub enum TransferOutcome {
    Success,
    /// The command exited with this nonzero code.
    NonZeroExit(i32),
    /// The command was ended by a signal and has no exit code.
    TerminatedBySignal,
}

/// The outcome for an exit code, `None` when a signal ended the command.
pub open spec fn outcome_of(code: Option<i32>) -> TransferOutcome {
    match code {
        Some(c) => if c == 0 {
            TransferOutcome::Success
        } else {
            TransferOutcome::NonZeroExit(c)
        },
        None => TransferOutcome::TerminatedBySignal,
    }
}

/// Classifies a transfer by its exit code: zero is success, another code a
/// failed exit, no code an end by signal.
pub fn classify_exit(code: Option<i32>) -> (r: TransferOutcome)
    ensures
        r == outcome_of(code),
{
    match code {
        Some(c) => if c == 0 {
            TransferOutcome::Success
        } else {
            TransferOutcome::NonZeroExit(c)
        },
        None => TransferOutcome::TerminatedBySignal,
    }
}

impl TransferOutcome {
    /// Success, or the error that ends the run.
    pub fn into_result(self) -> (r: Result<(), DownloadError>)
        ensures
            r is Ok <==> self == TransferOutcome::Success,
    {
        match self {
            TransferOutcome::Success => Ok(()),
            _ => Err(DownloadError),
        }
    }
}

/// A finished transfer: its outcome, and the advisory timer's flag as the
/// cancel left it.
#[derive(Clone, Copy, Debug, PartialEq, Eq, Structural)]
pub struct TransferReport {
    pub outcome: TransferOutcome,
    pub timer: TimerFlag,
}

/// Ends a transfer guarded by `timer`: first cancels the timer, whatever the
/// outcome, then classifies the exit code.
pub fn finish_transfer<F>(timer: Timer<F>, code: Option<i32>) -> (r: TransferReport)
    ensures
        r.outcome == outcome_of(code),
        r.timer.cancelled,
        r.timer.wf(),
{
    let flag = timer.cancel();
    let outcome = classify_exit(code);
    TransferReport { outcome, timer: flag }
}

} // verus!
