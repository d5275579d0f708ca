//! The error taxonomy surfaced to callers.  Low-level per-field and
//! per-process failures never reach this level; only boundary-level
//! aggregate failures do, each with a specific kind so the caller can
//! decide whether to re-elevate, retry, or surface the condition.

use vstd::prelude::*;
use crate::text::{spec_decimal, decimal_string};

verus! {

/// Why a scan or an optimization pass failed as a whole.
#[derive(Clone, Copy, Debug, PartialEq, Eq, Structural)]
pub enum ControllerError {
    /// The system could not allocate a process-table snapshot; fatal to the
    /// scan attempt, retryable by the caller.
    SnapshotError,
    /// No target-named process is running: an expected steady state, not a
    /// hard failure.
    NoProcessesFound,
    /// The caller referenced a process id that is not in the current record
    /// set; a scan must come first.
    ProcessNotFound(u32),
    /// Every per-process mutation attempt failed, typically a protection or
    /// permission condition.
    NoModificationsApplied,
}

/// The human-readable message for each error kind.
pub open spec fn spec_error_message(e: ControllerError) -> Seq<char> {
    match e {
        ControllerError::SnapshotError => "Failed to scan processes: could not create process snapshot"@,
        ControllerError::NoProcessesFound => "No ACE Guard processes found on the system."@,
        ControllerError::ProcessNotFound(pid) => "Process with PID "@
            + spec_decimal(pid as nat) + " not found in scanned processes"@,
        ControllerError::NoModificationsApplied => "No processes were successfully modified. This may be due to insufficient permissions or process protection."@,
    }
}

impl ControllerError {
    /// Renders the error for a caller or a log line.
    pub fn message(&self) -> (s: String)
        ensures
            s@ == spec_error_message(*self),
    {
        match self {
            ControllerError::SnapshotError => {
                "Failed to scan processes: could not create process snapshot".to_owned()
            },
            ControllerError::NoProcessesFound => {
                "No ACE Guard processes found on the system.".to_owned()
            },
            ControllerError::ProcessNotFound(pid) => {
                let mut s = "Process with PID ".to_owned();
                let d = decimal_string(*pid as u64);
                s.append(d.as_str());
                s.append(" not found in scanned processes");
                s
            },
            ControllerError::NoModificationsApplied => {
                "No processes were successfully modified. This may be due to insufficient permissions or process protection.".to_owned()
            },
        }
    }
}

} // verus!
