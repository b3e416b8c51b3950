//! The run orchestrator: a state machine that sequences one whole run —
//! push, then remote command plus pull in parallel, then the joined
//! outcome — and decides the run's final success.
//!
//! The runner performs the push, launches the remote command executor and
//! the pull coordinator, blocks on the two results, and feeds each outcome
//! back in as an event. A failed push aborts the run before anything else is
//! launched; the run succeeds only if the remote command and the pull both
//! succeeded.

use vstd::prelude::*;
use crate::remote_command::RemoteCommandErr;
use crate::remote_command::RemoteCommandOk;
use crate::sync::PullErr;
use crate::sync::PullOk;
use crate::sync::PushErr;
use crate::sync::PushOk;

verus! {

/// Where the run stands: which outcome it is waiting for next.
#[derive(Clone, Copy, Debug, PartialEq, Eq)]
pub enum RunPhase {
    /// The one-shot push is in flight.
    Pushing,
    /// Push succeeded; remote command and pull coordinator are running, and
    /// the orchestrator blocks on the remote command's result.
    WaitingRemote,
    /// The remote command has finished this way; the orchestrator blocks on
    /// the pull result.
    WaitingPull { remote_success: bool },
    /// Terminal: the run's overall outcome.
    Finished { success: bool },
}

/// What the runner observed and feeds back to the machine.
#[derive(Debug)]
pub enum RunEvent {
    PushCompleted { result: Result<PushOk, PushErr> },
    RemoteCompleted { result: Result<RemoteCommandOk, RemoteCommandErr> },
    PullCompleted { result: Result<PullOk, PullErr> },
}

/// What the runner must do next.
#[derive(Debug)]
pub enum RunAction {
    /// Start the remote command executor with two completion listeners and
    /// the pull coordinator with one of them, then block on the other.
    LaunchRemoteAndPull,
    /// The push failed: report it and abort; nothing else was launched.
    ReportPushFailure { failure: PushErr },
    /// The remote command's result is known: block on the pull result.
    AwaitPull,
    /// Both results are known: report the run's overall outcome.
    Finish { success: bool },
}

/// The run orchestrator's state.
#[derive(Clone, Copy, Debug, PartialEq, Eq)]
pub struct RunOrchestrator {
    pub phase: RunPhase,
}

/// The machine's transition relation: the state after an event and the next
/// action, or nothing when the event is not one the state expects.
pub open spec fn spec_step(c: RunOrchestrator, e: RunEvent) -> Option<(RunOrchestrator, RunAction)> {
    match (c.phase, e) {
        (RunPhase::Pushing, RunEvent::PushCompleted { result }) => match result {
            Ok(_) => Some(
                (
                    RunOrchestrator { phase: RunPhase::WaitingRemote },
                    RunAction::LaunchRemoteAndPull,
                ),
            ),
            Err(failure) => Some(
                (
                    RunOrchestrator { phase: RunPhase::Finished { success: false } },
                    RunAction::ReportPushFailure { failure },
                ),
            ),
        },
        (RunPhase::WaitingRemote, RunEvent::RemoteCompleted { result }) => Some(
            (
                RunOrchestrator {
                    phase: RunPhase::WaitingPull { remote_success: result is Ok },
                },
                RunAction::AwaitPull,
            ),
        ),
        (RunPhase::WaitingPull { remote_success }, RunEvent::PullCompleted { result }) => Some(
            (
                RunOrchestrator {
                    phase: RunPhase::Finished { success: remote_success && result is Ok },
                },
                RunAction::Finish { success: remote_success && result is Ok },
            ),
        ),
        _ => None,
    }
}

impl RunOrchestrator {
    /// A fresh run: the push is the first thing performed.
    pub fn start() -> (r: RunOrchestrator)
        ensures
            r.phase is Pushing,
    {
        RunOrchestrator { phase: RunPhase::Pushing }
    }

    /// Feeds one observed event into the machine; hands back the next
    /// action, or nothing (leaving the state unchanged) when the event does
    /// not belong to the current phase.
    pub fn step(&mut self, event: RunEvent) -> (r: Option<RunAction>)
        ensures
            match spec_step(*old(self), event) {
                Some(sa) => *final(self) == sa.0 && r == Some(sa.1),
                None => *final(self) == *old(self) && r is None,
            },
    {
        match event {
            RunEvent::PushCompleted { result } => {
                match self.phase {
                    RunPhase::Pushing => match result {
                        Ok(_) => {
                            self.phase = RunPhase::WaitingRemote;
                            Some(RunAction::LaunchRemoteAndPull)
                        },
                        Err(failure) => {
                            self.phase = RunPhase::Finished { success: false };
                            Some(RunAction::ReportPushFailure { failure })
                        },
                    },
                    _ => None,
                }
            },
            RunEvent::RemoteCompleted { result } => {
                match self.phase {
                    RunPhase::WaitingRemote => {
                        let remote_success = result.is_ok();
                        self.phase = RunPhase::WaitingPull { remote_success };
                        Some(RunAction::AwaitPull)
                    },
                    _ => None,
                }
            },
            RunEvent::PullCompleted { result } => {
                match self.phase {
                    RunPhase::WaitingPull { remote_success } => {
                        let success = remote_success && result.is_ok();
                        self.phase = RunPhase::Finished { success };
                        Some(RunAction::Finish { success })
                    },
                    _ => None,
                }
            },
        }
    }
}

/// The state after feeding a whole sequence of events to the machine, events
/// that do not belong to their phase left ignored.
pub open spec fn spec_run(c: RunOrchestrator, events: Seq<RunEvent>) -> RunOrchestrator
    decreases events.len(),
{
    if events.len() == 0 {
        c
    } else {
        let next = match spec_step(c, events[0]) {
            Some(sa) => sa.0,
            None => c,
        };
        spec_run(next, events.drop_first())
    }
}

/// A finished run accepts no further events: its outcome is final.
pub proof fn lemma_finished_is_terminal(c: RunOrchestrator, events: Seq<RunEvent>)
    requires
        c.phase is Finished,
    ensures
        spec_run(c, events) == c,
    decreases events.len(),
{
    if events.len() > 0 {
        lemma_finished_is_terminal(c, events.drop_first());
    }
}

/// A failed push aborts the whole run at once: the orchestrator reports the
/// push's own failure, ends unsuccessfully, and — whatever is observed
/// afterwards — never reaches the phase that launches the remote command
/// and the pull.
pub proof fn lemma_push_failure_aborts(failure: PushErr, events: Seq<RunEvent>)
    ensures
        spec_step(
            RunOrchestrator { phase: RunPhase::Pushing },
            (RunEvent::PushCompleted { result: Err(failure) }),
        ) matches Some(sa) && sa.0.phase == (RunPhase::Finished { success: false }) && sa.1
            == (RunAction::ReportPushFailure { failure }),
        spec_run(
            RunOrchestrator { phase: RunPhase::Finished { success: false } },
            events,
        ).phase == (RunPhase::Finished { success: false }),
{
    lemma_finished_is_terminal(
        RunOrchestrator { phase: RunPhase::Finished { success: false } },
        events,
    );
}

} // verus!
