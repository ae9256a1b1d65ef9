//! One supervised run of an operating-system child process, as a state machine.
//!
//! The code that owns the child performs the actions that [`RunState::advance`]
//! asks for (spawn, wait for exit or a cancel request, check, kill, wait,
//! answer the controller) and feeds back what happened as a [`RunEvent`].
//! The controller side decides with [`CancelState::begin_cancel`] whether a
//! cancellation signal may be sent at all.

use crate::status::{
    is_kill_signature, termination_status_of, termination_status_spec, ExitOutcome,
    KilledTerminationStatus, Platform, Status, TerminationStatus,
};
use std::io::Error as IoError;
use vstd::prelude::*;

verus! {

/// Failures of the kill-and-wait sequence.
#[derive(Debug)]
pub enum ProcessKillAndWaitError {
    /// The non-blocking check for an exit failed.
    CouldNotCheckStatus(IoError),
    /// Sending the kill failed.
    CouldNotKillProcess(IoError),
    /// Waiting for the killed child failed.
    CouldNotWaitForProcess(IoError),
}

/// Failures of a run.
#[derive(Debug)]
pub enum ProcessRunError {
    /// `run` was already attempted on this process.
    AlreadyTriedToRun,
    /// The child could not be spawned (a missing program reports `NotFound`).
    CouldNotSpawnOsProcess(IoError),
    /// Waiting for the child failed.
    CouldNotWaitForOsProcess(IoError),
    /// The controller went away before it could be told the cancellation outcome.
    ControllerDropped,
    /// The kill-and-wait sequence after the controller was dropped failed.
    ProcessKillAndWaitError(ProcessKillAndWaitError),
}

/// Why a cancellation signal was not sent or not answered.
#[derive(Debug, Clone, Copy, PartialEq, Eq, Structural)]
pub enum CancellationError {
    ProcessNotRunning,
    AlreadyTriedToCancel,
    ProcessTerminated,
}

/// What started a kill-and-wait sequence.
#[derive(Debug, Clone, Copy, PartialEq, Eq, Structural)]
pub enum CancelSource {
    /// The controller sent a cancellation signal and waits for the outcome.
    CancellationSignal,
    /// The controller was dropped; nobody waits for the outcome.
    DroppedController,
}

/// Where a run stands.
#[derive(Debug, Clone, Copy, PartialEq, Eq, Structural)]
pub enum RunPhase {
    /// `run` has not been called.
    NotStarted,
    /// The child is being spawned.
    Spawning,
    /// Waiting for the child to exit or for the controller to act.
    AwaitingExitOrCancel,
    /// Checking, without blocking, whether the child already exited.
    CheckingExit(CancelSource),
    /// Sending the kill.
    Killing(CancelSource),
    /// Waiting for the killed child.
    WaitingAfterKill(CancelSource),
    /// Handing the cancellation outcome to the controller; when the
    /// kill-and-wait failed, the child is then awaited until it exits.
    Responding,
    /// The kill-and-wait sequence failed and the controller was told; waiting
    /// for the child to exit by itself.
    WaitingForOwnExit,
    /// The run returned.
    Finished,
}

/// The state of one process run.
#[derive(Debug, Clone, Copy, PartialEq, Eq, Structural)]
pub struct RunState {
    /// The platform whose exit conventions classify the child's exit.
    pub platform: Platform,
    /// The status that the controller observes.
    pub status: Status,
    pub phase: RunPhase,
    /// This run sent the kill to the child.
    pub child_killed: bool,
    /// The controller was dropped while the child was running.
    pub controller_dropped: bool,
}

/// What happened since the last action.
#[derive(Debug)]
pub enum RunEvent {
    /// The caller asked to run the process.
    RunRequested,
    /// The outcome of spawning the child.
    Spawned(Result<(), IoError>),
    /// The child exited by itself, or waiting for it failed.
    ChildExited(Result<ExitOutcome, IoError>),
    /// The controller sent a cancellation signal.
    CancelSignal,
    /// The controller was dropped without sending a signal.
    ControllerGone,
    /// The outcome of the non-blocking exit check: the exit, if there was one.
    ExitChecked(Result<Option<ExitOutcome>, IoError>),
    /// The outcome of sending the kill.
    KillSent(Result<(), IoError>),
    /// The outcome of waiting for the killed child.
    Waited(Result<ExitOutcome, IoError>),
    /// Whether the controller could still receive the cancellation outcome.
    ResponseSent(bool),
}

/// What to do next.
#[derive(Debug)]
pub enum RunAction {
    /// Spawn the child (stdin null, stdout and stderr per [`stdio_for`], killed on drop).
    Spawn,
    /// Wait for the child's exit and for the controller, whichever comes first.
    AwaitExitOrCancel,
    /// Check without blocking whether the child exited.
    CheckExit,
    /// Send the kill.
    Kill,
    /// Wait for the child to exit (after the kill, or by itself after a failed one).
    WaitForExit,
    /// Hand this outcome to the controller that asked for the cancellation.
    Respond(Option<ProcessKillAndWaitError>),
    /// Return this from `run`.
    Finish(Result<Status, ProcessRunError>),
}

/// The consistency of a run's fields with its phase.
pub open spec fn run_wf(s: RunState) -> bool {
    match s.phase {
        RunPhase::NotStarted | RunPhase::Spawning => s.status == Status::Created && !s.child_killed
            && !s.controller_dropped,
        RunPhase::AwaitingExitOrCancel => s.status == Status::Running && !s.child_killed
            && !s.controller_dropped,
        RunPhase::CheckingExit(src) | RunPhase::Killing(src) => s.status == Status::Running
            && !s.child_killed && s.controller_dropped == (src == CancelSource::DroppedController),
        RunPhase::WaitingAfterKill(src) => s.status == Status::Running && s.child_killed
            && s.controller_dropped == (src == CancelSource::DroppedController),
        RunPhase::Responding => !s.controller_dropped && (s.status == Status::Running
            || s.status is Terminated),
        RunPhase::WaitingForOwnExit => s.status == Status::Running && !s.controller_dropped,
        RunPhase::Finished => true,
    }
}

/// The events that can arrive in a phase.
pub open spec fn run_accepts(s: RunState, e: RunEvent) -> bool {
    match e {
        RunEvent::RunRequested => true,
        RunEvent::Spawned(_) => s.phase == RunPhase::Spawning,
        RunEvent::ChildExited(_) | RunEvent::CancelSignal | RunEvent::ControllerGone => s.phase
            == RunPhase::AwaitingExitOrCancel,
        RunEvent::ExitChecked(_) => s.phase is CheckingExit,
        RunEvent::KillSent(_) => s.phase is Killing,
        RunEvent::Waited(_) => s.phase is WaitingAfterKill || s.phase == RunPhase::WaitingForOwnExit,
        RunEvent::ResponseSent(_) => s.phase == RunPhase::Responding,
    }
}

/// The end of a kill-and-wait sequence that reaped the child with `exit`.
pub open spec fn reaped_spec(s: RunState, src: CancelSource, exit: ExitOutcome) -> (
    RunState,
    RunAction,
) {
    let st = Status::Terminated(
        termination_status_spec(exit, s.platform, s.child_killed, s.controller_dropped),
    );
    match src {
        CancelSource::CancellationSignal => (
            RunState { status: st, phase: RunPhase::Responding, ..s },
            RunAction::Respond(None),
        ),
        CancelSource::DroppedController => (
            RunState { status: st, phase: RunPhase::Finished, ..s },
            RunAction::Finish(Ok(st)),
        ),
    }
}

/// The end of a kill-and-wait sequence that failed with `err`: the controller
/// that asked is told; otherwise the run returns the failure.
pub open spec fn kill_failed_spec(s: RunState, src: CancelSource, err: ProcessKillAndWaitError) -> (
    RunState,
    RunAction,
) {
    match src {
        CancelSource::CancellationSignal => (
            RunState { phase: RunPhase::Responding, ..s },
            RunAction::Respond(Some(err)),
        ),
        CancelSource::DroppedController => (
            RunState { phase: RunPhase::Finished, ..s },
            RunAction::Finish(Err(ProcessRunError::ProcessKillAndWaitError(err))),
        ),
    }
}

/// One step of a run.
pub open spec fn run_next(s: RunState, e: RunEvent) -> (RunState, RunAction) {
    match e {
        RunEvent::RunRequested => if s.phase == RunPhase::NotStarted {
            (RunState { phase: RunPhase::Spawning, ..s }, RunAction::Spawn)
        } else {
            (s, RunAction::Finish(Err(ProcessRunError::AlreadyTriedToRun)))
        },
        RunEvent::Spawned(Ok(())) => (
            RunState { status: Status::Running, phase: RunPhase::AwaitingExitOrCancel, ..s },
            RunAction::AwaitExitOrCancel,
        ),
        RunEvent::Spawned(Err(err)) => (
            RunState { phase: RunPhase::Finished, ..s },
            RunAction::Finish(Err(ProcessRunError::CouldNotSpawnOsProcess(err))),
        ),
        RunEvent::ChildExited(Ok(exit)) => {
            let st = Status::Terminated(
                termination_status_spec(exit, s.platform, s.child_killed, s.controller_dropped),
            );
            (RunState { status: st, phase: RunPhase::Finished, ..s }, RunAction::Finish(Ok(st)))
        },
        RunEvent::ChildExited(Err(err)) => (
            RunState { phase: RunPhase::Finished, ..s },
            RunAction::Finish(Err(ProcessRunError::CouldNotWaitForOsProcess(err))),
        ),
        RunEvent::CancelSignal => (
            RunState { phase: RunPhase::CheckingExit(CancelSource::CancellationSignal), ..s },
            RunAction::CheckExit,
        ),
        RunEvent::ControllerGone => (
            RunState {
                phase: RunPhase::CheckingExit(CancelSource::DroppedController),
                controller_dropped: true,
                ..s
            },
            RunAction::CheckExit,
        ),
        RunEvent::ExitChecked(r) => {
            let src = s.phase->CheckingExit_0;
            match r {
                Ok(Some(exit)) => reaped_spec(s, src, exit),
                Ok(None) => (RunState { phase: RunPhase::Killing(src), ..s }, RunAction::Kill),
                Err(err) => kill_failed_spec(
                    s,
                    src,
                    ProcessKillAndWaitError::CouldNotCheckStatus(err),
                ),
            }
        },
        RunEvent::KillSent(r) => {
            let src = s.phase->Killing_0;
            match r {
                Ok(()) => (
                    RunState { phase: RunPhase::WaitingAfterKill(src), child_killed: true, ..s },
                    RunAction::WaitForExit,
                ),
                Err(err) => kill_failed_spec(
                    s,
                    src,
                    ProcessKillAndWaitError::CouldNotKillProcess(err),
                ),
            }
        },
        RunEvent::Waited(r) => if s.phase == RunPhase::WaitingForOwnExit {
            match r {
                Ok(exit) => {
                    let st = Status::Terminated(
                        termination_status_spec(
                            exit,
                            s.platform,
                            s.child_killed,
                            s.controller_dropped,
                        ),
                    );
                    (
                        RunState { status: st, phase: RunPhase::Finished, ..s },
                        RunAction::Finish(Ok(st)),
                    )
                },
                Err(err) => (
                    RunState { phase: RunPhase::Finished, ..s },
                    RunAction::Finish(Err(ProcessRunError::CouldNotWaitForOsProcess(err))),
                ),
            }
        } else {
            let src = s.phase->WaitingAfterKill_0;
            match r {
                Ok(exit) => reaped_spec(s, src, exit),
                Err(err) => kill_failed_spec(
                    s,
                    src,
                    ProcessKillAndWaitError::CouldNotWaitForProcess(err),
                ),
            }
        },
        RunEvent::ResponseSent(delivered) => if delivered {
            if s.status == Status::Running {
                (RunState { phase: RunPhase::WaitingForOwnExit, ..s }, RunAction::WaitForExit)
            } else {
                (RunState { phase: RunPhase::Finished, ..s }, RunAction::Finish(Ok(s.status)))
            }
        } else {
            (
                RunState { phase: RunPhase::Finished, ..s },
                RunAction::Finish(Err(ProcessRunError::ControllerDropped)),
            )
        },
    }
}

impl RunState {
    /// A run that has not started, on `platform`.
    pub fn new(platform: Platform) -> (r: RunState)
        ensures
            r == (RunState {
                platform,
                status: Status::Created,
                phase: RunPhase::NotStarted,
                child_killed: false,
                controller_dropped: false,
            }),
            run_wf(r),
    {
        RunState {
            platform,
            status: Status::Created,
            phase: RunPhase::NotStarted,
            child_killed: false,
            controller_dropped: false,
        }
    }

    /// Takes one step: the next state, and the action to perform.
    pub fn advance(self, event: RunEvent) -> (r: (RunState, RunAction))
        requires
            run_accepts(self, event),
        ensures
            r == run_next(self, event),
    {
        match event {
            RunEvent::RunRequested => match self.phase {
                RunPhase::NotStarted => (
                    RunState { phase: RunPhase::Spawning, ..self },
                    RunAction::Spawn,
                ),
                _ => (self, RunAction::Finish(Err(ProcessRunError::AlreadyTriedToRun))),
            },
            RunEvent::Spawned(Ok(())) => (
                RunState { status: Status::Running, phase: RunPhase::AwaitingExitOrCancel, ..self },
                RunAction::AwaitExitOrCancel,
            ),
            RunEvent::Spawned(Err(err)) => (
                RunState { phase: RunPhase::Finished, ..self },
                RunAction::Finish(Err(ProcessRunError::CouldNotSpawnOsProcess(err))),
            ),
            RunEvent::ChildExited(Ok(exit)) => {
                let st = Status::Terminated(
                    termination_status_of(
                        exit,
                        self.platform,
                        self.child_killed,
                        self.controller_dropped,
                    ),
                );
                (
                    RunState { status: st, phase: RunPhase::Finished, ..self },
                    RunAction::Finish(Ok(st)),
                )
            },
            RunEvent::ChildExited(Err(err)) => (
                RunState { phase: RunPhase::Finished, ..self },
                RunAction::Finish(Err(ProcessRunError::CouldNotWaitForOsProcess(err))),
            ),
            RunEvent::CancelSignal => (
                RunState { phase: RunPhase::CheckingExit(CancelSource::CancellationSignal), ..self },
                RunAction::CheckExit,
            ),
            RunEvent::ControllerGone => (
                RunState {
                    phase: RunPhase::CheckingExit(CancelSource::DroppedController),
                    controller_dropped: true,
                    ..self
                },
                RunAction::CheckExit,
            ),
            RunEvent::ExitChecked(r) => {
                let src = match self.phase {
                    RunPhase::CheckingExit(src) => src,
                    _ => CancelSource::CancellationSignal,
                };
                match r {
                    Ok(Some(exit)) => self.reaped(src, exit),
                    Ok(None) => (RunState { phase: RunPhase::Killing(src), ..self }, RunAction::Kill),
                    Err(err) => self.kill_failed(
                        src,
                        ProcessKillAndWaitError::CouldNotCheckStatus(err),
                    ),
                }
            },
            RunEvent::KillSent(r) => {
                let src = match self.phase {
                    RunPhase::Killing(src) => src,
                    _ => CancelSource::CancellationSignal,
                };
                match r {
                    Ok(()) => (
                        RunState {
                            phase: RunPhase::WaitingAfterKill(src),
                            child_killed: true,
                            ..self
                        },
                        RunAction::WaitForExit,
                    ),
                    Err(err) => self.kill_failed(
                        src,
                        ProcessKillAndWaitError::CouldNotKillProcess(err),
                    ),
                }
            },
            RunEvent::Waited(r) => {
                let src = match self.phase {
                    RunPhase::WaitingAfterKill(src) => src,
                    _ => {
                        return self.own_exit(r);
                    },
                };
                match r {
                    Ok(exit) => self.reaped(src, exit),
                    Err(err) => self.kill_failed(
                        src,
                        ProcessKillAndWaitError::CouldNotWaitForProcess(err),
                    ),
                }
            },
            RunEvent::ResponseSent(delivered) => {
                if delivered {
                    match self.status {
                        Status::Running => (
                            RunState { phase: RunPhase::WaitingForOwnExit, ..self },
                            RunAction::WaitForExit,
                        ),
                        _ => (
                            RunState { phase: RunPhase::Finished, ..self },
                            RunAction::Finish(Ok(self.status)),
                        ),
                    }
                } else {
                    (
                        RunState { phase: RunPhase::Finished, ..self },
                        RunAction::Finish(Err(ProcessRunError::ControllerDropped)),
                    )
                }
            },
        }
    }

    /// The child's own exit, awaited after a failed kill-and-wait sequence.
    fn own_exit(self, r: Result<ExitOutcome, IoError>) -> (res: (RunState, RunAction))
        requires
            self.phase == RunPhase::WaitingForOwnExit,
        ensures
            res == run_next(self, RunEvent::Waited(r)),
    {
        match r {
            Ok(exit) => {
                let st = Status::Terminated(
                    termination_status_of(
                        exit,
                        self.platform,
                        self.child_killed,
                        self.controller_dropped,
                    ),
                );
                (
                    RunState { status: st, phase: RunPhase::Finished, ..self },
                    RunAction::Finish(Ok(st)),
                )
            },
            Err(err) => (
                RunState { phase: RunPhase::Finished, ..self },
                RunAction::Finish(Err(ProcessRunError::CouldNotWaitForOsProcess(err))),
            ),
        }
    }

    fn reaped(self, src: CancelSource, exit: ExitOutcome) -> (r: (RunState, RunAction))
        ensures
            r == reaped_spec(self, src, exit),
    {
        let st = Status::Terminated(
            termination_status_of(exit, self.platform, self.child_killed, self.controller_dropped),
        );
        match src {
            CancelSource::CancellationSignal => (
                RunState { status: st, phase: RunPhase::Responding, ..self },
                RunAction::Respond(None),
            ),
            CancelSource::DroppedController => (
                RunState { status: st, phase: RunPhase::Finished, ..self },
                RunAction::Finish(Ok(st)),
            ),
        }
    }

    fn kill_failed(self, src: CancelSource, err: ProcessKillAndWaitError) -> (r: (
        RunState,
        RunAction,
    ))
        ensures
            r == kill_failed_spec(self, src, err),
    {
        match src {
            CancelSource::CancellationSignal => (
                RunState { phase: RunPhase::Responding, ..self },
                RunAction::Respond(Some(err)),
            ),
            CancelSource::DroppedController => (
                RunState { phase: RunPhase::Finished, ..self },
                RunAction::Finish(Err(ProcessRunError::ProcessKillAndWaitError(err))),
            ),
        }
    }

    /// Whether dropping the process now leaves a child that was spawned and not
    /// reaped, which must then be killed and awaited in the background.
    pub fn needs_reap_on_drop(&self) -> (r: bool)
        ensures
            r == (self.status == Status::Running),
    {
        match self.status {
            Status::Running => true,
            _ => false,
        }
    }
}

/// How a child's output stream is connected.
#[derive(Debug, Clone, Copy, PartialEq, Eq, Structural)]
pub enum StdioChoice {
    /// Piped to the parent, which forwards it line by line.
    Piped,
    /// Discarded.
    Null,
}

/// A stream is piped exactly when a sink was supplied for it.
pub fn stdio_for(sink_supplied: bool) -> (r: StdioChoice)
    ensures
        r == (if sink_supplied {
            StdioChoice::Piped
        } else {
            StdioChoice::Null
        }),
{
    if sink_supplied {
        StdioChoice::Piped
    } else {
        StdioChoice::Null
    }
}

/// The controller's side of the cancellation rendezvous: a signal is sent at
/// most once.
#[derive(Debug, Clone, Copy, PartialEq, Eq, Structural)]
pub struct CancelState {
    /// A cancellation signal was already sent (or its sending was attempted).
    pub attempted: bool,
}

/// The controller's pre-check against the observed status: whether the signal
/// may be sent, and whether a signal now counts as attempted.
pub open spec fn begin_cancel_spec(attempted: bool, status: Status) -> (
    bool,
    Result<(), CancellationError>,
) {
    match status {
        Status::Created => (attempted, Err(CancellationError::ProcessNotRunning)),
        Status::Terminated(_) => (attempted, Err(CancellationError::ProcessTerminated)),
        Status::Running => if attempted {
            (true, Err(CancellationError::AlreadyTriedToCancel))
        } else {
            (true, Ok(()))
        },
    }
}

impl CancelState {
    /// A controller that has not cancelled yet.
    pub fn new() -> (r: CancelState)
        ensures
            !r.attempted,
    {
        CancelState { attempted: false }
    }

    /// Decides whether a cancellation signal may be sent, given the status the
    /// controller observes. A process that has not started is not signalled (no
    /// receiver is listening yet), nor one that terminated, nor one that was
    /// already signalled.
    pub fn begin_cancel(&mut self, status: Status) -> (r: Result<(), CancellationError>)
        ensures
            (final(self).attempted, r) == begin_cancel_spec(old(self).attempted, status),
    {
        match status {
            Status::Created => Err(CancellationError::ProcessNotRunning),
            Status::Terminated(_) => Err(CancellationError::ProcessTerminated),
            Status::Running => {
                if self.attempted {
                    Err(CancellationError::AlreadyTriedToCancel)
                } else {
                    self.attempted = true;
                    Ok(())
                }
            },
        }
    }
}

/// A signal that could not be delivered means the process already stopped
/// listening: it terminated.
pub fn signal_delivery_outcome(delivered: bool) -> (r: Result<(), CancellationError>)
    ensures
        r == (if delivered {
            Ok(())
        } else {
            Err(CancellationError::ProcessTerminated)
        }),
{
    if delivered {
        Ok(())
    } else {
        Err(CancellationError::ProcessTerminated)
    }
}

/// The result of `cancel` from what the response channel delivered: the
/// kill-and-wait outcome, or `ProcessTerminated` when the channel closed first.
pub fn cancel_response_outcome(response: Option<Option<ProcessKillAndWaitError>>) -> (r: Result<
    Option<ProcessKillAndWaitError>,
    CancellationError,
>)
    ensures
        r == (match response {
            Some(outcome) => Ok(outcome),
            None => Err(CancellationError::ProcessTerminated),
        }),
{
    match response {
        Some(outcome) => Ok(outcome),
        None => Err(CancellationError::ProcessTerminated),
    }
}

/// Every step keeps a run's fields consistent with its phase.
pub proof fn lemma_run_step_keeps_wf(s: RunState, e: RunEvent)
    requires
        run_wf(s),
        run_accepts(s, e),
    ensures
        run_wf(run_next(s, e).0),
{
}

/// A run that returns a status returns a `Terminated` status, the one that the
/// controller then observes, and that status stays as it is afterwards.
pub proof fn lemma_successful_run_reports_its_status(s: RunState, e: RunEvent, later: RunEvent)
    requires
        run_wf(s),
        run_accepts(s, e),
        run_accepts(run_next(s, e).0, later),
    ensures
        run_next(s, e).1 matches RunAction::Finish(Ok(st)) ==> {
            &&& st == run_next(s, e).0.status
            &&& st is Terminated
            &&& run_next(run_next(s, e).0, later).0.status == st
        },
{
}

/// A controller is answered "no error" only once the child was reaped; and a
/// cancellation of a running child, whose kill goes through and whose exit is
/// the platform's kill signature, leaves it `Killed(KilledByCancellationSignal)`.
pub proof fn lemma_cancelled_run_is_killed(s: RunState, e: RunEvent, exit: ExitOutcome)
    requires
        run_wf(s),
        run_accepts(s, e),
    ensures
        run_next(s, e).1 matches RunAction::Respond(None) ==> run_next(s, e).0.status is Terminated,
        s.phase == RunPhase::AwaitingExitOrCancel && is_kill_signature(s.platform, exit) ==> {
            let s1 = run_next(s, RunEvent::CancelSignal).0;
            let s2 = run_next(s1, RunEvent::ExitChecked(Ok(None))).0;
            let s3 = run_next(s2, RunEvent::KillSent(Ok(()))).0;
            let (s4, a4) = run_next(s3, RunEvent::Waited(Ok(exit)));
            &&& a4 == RunAction::Respond(None)
            &&& s4.status == Status::Terminated(
                TerminationStatus::Killed(KilledTerminationStatus::KilledByCancellationSignal),
            )
        },
{
}

/// Dropping the controller of a running child, whose kill goes through and
/// whose exit is the platform's kill signature, ends the run with
/// `Killed(KilledByDroppingController)`.
pub proof fn lemma_dropped_controller_kills(s: RunState, exit: ExitOutcome)
    requires
        run_wf(s),
        s.phase == RunPhase::AwaitingExitOrCancel,
        is_kill_signature(s.platform, exit),
    ensures
        ({
            let s1 = run_next(s, RunEvent::ControllerGone).0;
            let s2 = run_next(s1, RunEvent::ExitChecked(Ok(None))).0;
            let s3 = run_next(s2, RunEvent::KillSent(Ok(()))).0;
            let (s4, a4) = run_next(s3, RunEvent::Waited(Ok(exit)));
            let killed = Status::Terminated(
                TerminationStatus::Killed(KilledTerminationStatus::KilledByDroppingController),
            );
            &&& s4.status == killed
            &&& a4 == RunAction::Finish(Ok(killed))
        }),
{
}

/// `cancel` refuses a process that has not started and one that terminated;
/// after a signal was sent, a second `cancel` on a still running process is
/// refused as already tried, and one on a terminated process as terminated.
pub proof fn lemma_cancel_refusals(attempted: bool, t: TerminationStatus)
    ensures
        begin_cancel_spec(attempted, Status::Created).1 == Err::<(), CancellationError>(
            CancellationError::ProcessNotRunning,
        ),
        begin_cancel_spec(attempted, Status::Terminated(t)).1 == Err::<(), CancellationError>(
            CancellationError::ProcessTerminated,
        ),
        begin_cancel_spec(attempted, Status::Running).1 is Ok ==> {
            let after = begin_cancel_spec(attempted, Status::Running).0;
            &&& begin_cancel_spec(after, Status::Running).1 == Err::<(), CancellationError>(
                CancellationError::AlreadyTriedToCancel,
            )
            &&& begin_cancel_spec(after, Status::Terminated(t)).1 == Err::<(), CancellationError>(
                CancellationError::ProcessTerminated,
            )
        },
{
}

/// A child that exits by itself while nobody cancels ends the run with its own
/// classified exit (`TerminatedSuccessfully` for code 0); a later `cancel` is
/// refused as terminated.
pub proof fn lemma_exit_before_cancel(s: RunState, exit: ExitOutcome, attempted: bool)
    requires
        run_wf(s),
        s.phase == RunPhase::AwaitingExitOrCancel,
    ensures
        ({
            let (s1, a1) = run_next(s, RunEvent::ChildExited(Ok(exit)));
            let st = Status::Terminated(termination_status_spec(exit, s.platform, false, false));
            &&& s1.status == st
            &&& a1 == RunAction::Finish(Ok(st))
            &&& exit.is_success() ==> st == Status::Terminated(
                TerminationStatus::TerminatedSuccessfully,
            )
            &&& begin_cancel_spec(attempted, s1.status).1 == Err::<(), CancellationError>(
                CancellationError::ProcessTerminated,
            )
        }),
{
}

} // verus!
