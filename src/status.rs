//! Lifecycle states of a supervised process and how an exit is classified.

use vstd::prelude::*;

verus! {

/// How a process that this library killed came to be killed.
#[derive(Debug, Clone, Copy, PartialEq, Eq, Structural)]
pub enum KilledTerminationStatus {
    /// Killed because the paired controller asked for it.
    KilledByCancellationSignal,
    /// Killed because the paired controller was dropped.
    KilledByDroppingController,
}

/// An unsuccessful exit that the library did not cause.
#[derive(Debug, Clone, Copy, PartialEq, Eq, Structural)]
pub enum TerminationWithErrorStatus {
    /// The process ended without an exit code (a signal, on POSIX systems).
    TerminatedWithUnknownErrorCode,
    /// The process exited with this non-zero code.
    TerminatedWithErrorCode(i32),
}

/// How a reaped process ended.
#[derive(Debug, Clone, Copy, PartialEq, Eq, Structural)]
pub enum TerminationStatus {
    Killed(KilledTerminationStatus),
    TerminatedSuccessfully,
    TerminatedWithError(TerminationWithErrorStatus),
}

/// The lifecycle of a supervised process: `Created -> Running -> Terminated(_)`.
#[derive(Debug, Clone, Copy, PartialEq, Eq, Structural)]
pub enum Status {
    /// Constructed, not yet started.
    Created,
    /// The child was spawned and has not been reaped.
    Running,
    /// The child was reaped.
    Terminated(TerminationStatus),
}

/// The family of operating systems, which decides how a kill shows in an exit.
#[derive(Debug, Clone, Copy, PartialEq, Eq, Structural)]
pub enum Platform {
    /// A killed child exits with code 1.
    Windows,
    /// A killed child dies by a signal and has no exit code.
    Unix,
}

/// What the operating system reported when a child was reaped.
#[derive(Debug, Clone, Copy, PartialEq, Eq, Structural)]
pub struct ExitOutcome {
    /// The exit code, absent when the child was ended by a signal.
    pub code: Option<i32>,
}

impl ExitOutcome {
    /// A successful exit is an exit with code zero.
    pub open spec fn is_success(self) -> bool {
        self.code == Some(0i32)
    }
}

/// The exit by which `platform` reports a child that was killed: code 1 on
/// Windows, no code at all elsewhere.
pub open spec fn is_kill_signature(platform: Platform, exit: ExitOutcome) -> bool {
    match platform {
        Platform::Windows => exit.code == Some(1i32),
        Platform::Unix => exit.code is None,
    }
}

/// Which `Killed` variant applies, given whether the controller was dropped.
pub open spec fn killed_variant(controller_dropped: bool) -> KilledTerminationStatus {
    if controller_dropped {
        KilledTerminationStatus::KilledByDroppingController
    } else {
        KilledTerminationStatus::KilledByCancellationSignal
    }
}

/// The classification of an exit: success first; then, when this library
/// killed the child and the exit is the platform's kill signature, `Killed`;
/// otherwise the raw exit code, or the unknown variant when there is none.
pub open spec fn termination_status_spec(
    exit: ExitOutcome,
    platform: Platform,
    child_killed: bool,
    controller_dropped: bool,
) -> TerminationStatus {
    if exit.is_success() {
        TerminationStatus::TerminatedSuccessfully
    } else if child_killed && is_kill_signature(platform, exit) {
        TerminationStatus::Killed(killed_variant(controller_dropped))
    } else {
        match exit.code {
            Some(code) => TerminationStatus::TerminatedWithError(
                TerminationWithErrorStatus::TerminatedWithErrorCode(code),
            ),
            None => TerminationStatus::TerminatedWithError(
                TerminationWithErrorStatus::TerminatedWithUnknownErrorCode,
            ),
        }
    }
}

/// Classifies the exit of a reaped child.
///
/// `child_killed` records that this library's kill-and-wait sequence sent the
/// kill; `controller_dropped` that the kill was caused by dropping the
/// controller rather than by a cancellation signal.
pub fn termination_status_of(
    exit: ExitOutcome,
    platform: Platform,
    child_killed: bool,
    controller_dropped: bool,
) -> (r: TerminationStatus)
    ensures
        r == termination_status_spec(exit, platform, child_killed, controller_dropped),
{
    let killed = if controller_dropped {
        KilledTerminationStatus::KilledByDroppingController
    } else {
        KilledTerminationStatus::KilledByCancellationSignal
    };
    match exit.code {
        Some(0) => TerminationStatus::TerminatedSuccessfully,
        Some(code) => {
            let windows = match platform {
                Platform::Windows => true,
                Platform::Unix => false,
            };
            if code == 1 && windows && child_killed {
                TerminationStatus::Killed(killed)
            } else {
                TerminationStatus::TerminatedWithError(
                    TerminationWithErrorStatus::TerminatedWithErrorCode(code),
                )
            }
        },
        None => {
            let unix = match platform {
                Platform::Windows => false,
                Platform::Unix => true,
            };
            if unix && child_killed {
                TerminationStatus::Killed(killed)
            } else {
                TerminationStatus::TerminatedWithError(
                    TerminationWithErrorStatus::TerminatedWithUnknownErrorCode,
                )
            }
        },
    }
}

} // verus!
