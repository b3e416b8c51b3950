//! The pull coordinator: a state machine that decides, step by step, when
//! pulls happen and what single pull result is delivered to the caller.
//!
//! The runner performs the actions the machine asks for — a blocking wait on
//! the completion listener, a pull transfer, a non-blocking poll, a pause —
//! and feeds the observed outcome back in as the next event. In serial mode
//! the machine waits for the remote command's result and then asks for
//! exactly one pull; in parallel mode it pulls repeatedly while the command
//! runs and asks for one final pull once the command has finished, adjusting
//! the delivered duration to the time perceived beyond the command's own.

use vstd::prelude::*;
use crate::completion::TryReceiveOutcome;
use crate::duration::DurationMs;
use crate::remote_command::RemoteCommandErr;
use crate::remote_command::RemoteCommandOk;
use crate::sync::PARALLEL_PAUSE_MILLIS;
use crate::sync::PullErr;
use crate::sync::PullMode;
use crate::sync::PullOk;
use crate::sync::calculate_perceived_pull_duration;
use crate::sync::spec_perceived;

verus! {

/// Where the coordinator stands: which outcome it is waiting for next.
#[derive(Clone, Copy, Debug, PartialEq, Eq)]
pub enum PullPhase {
    /// Serial mode: waiting for the remote command's result.
    AwaitingRemote,
    /// A pull transfer is in flight.
    Pulling,
    /// Parallel mode: waiting for a non-blocking completion check.
    AwaitingPoll,
    /// Parallel mode: pausing before the next periodic pull.
    Sleeping,
    /// Parallel mode: the remote command has finished after this long; the
    /// final reconciliation pull is in flight.
    FinalPulling { remote_duration: DurationMs },
    /// Terminal; `delivered` says whether a result went to the caller.
    Done { delivered: bool },
}

/// What the runner observed and feeds back to the machine.
#[derive(Debug)]
pub enum PullEvent {
    /// The blocking wait returned the remote command's result.
    RemoteReceived { result: Result<RemoteCommandOk, RemoteCommandErr> },
    /// A pull transfer finished; `elapsed` is the wall time since the
    /// coordinator started.
    PullCompleted { result: Result<PullOk, PullErr>, elapsed: DurationMs },
    /// The non-blocking completion check returned.
    PollReturned { outcome: TryReceiveOutcome },
    /// The pause between periodic pulls is over.
    SleepFinished,
}

/// What the runner must do next.
#[derive(Debug, PartialEq, Eq)]
pub enum PullAction {
    /// Block on the completion listener.
    AwaitRemote,
    /// Perform one pull transfer.
    Pull,
    /// Check the completion listener without blocking.
    PollRemote,
    /// Pause this long, then report back.
    Sleep { millis: u64 },
    /// Send this single result on the output channel and stop.
    Deliver { result: Result<PullOk, PullErr> },
    /// Stop silently, delivering nothing.
    Stop,
}

/// The pull coordinator's full state.
#[derive(Clone, Copy, Debug, PartialEq, Eq)]
pub struct PullCoordinator {
    pub mode: PullMode,
    pub phase: PullPhase,
    /// How many pull transfers have been asked for so far.
    pub pulls_attempted: u64,
}

/// Increment that stays put at the counter's ceiling.
pub open spec fn spec_sat_inc(n: u64) -> u64 {
    if n < u64::MAX {
        (n + 1) as u64
    } else {
        n
    }
}

fn sat_inc(n: u64) -> (r: u64)
    ensures
        r == spec_sat_inc(n),
{
    if n < u64::MAX {
        n + 1
    } else {
        n
    }
}

/// The remote command's own duration, whichever way it ended.
pub open spec fn spec_remote_duration(r: Result<RemoteCommandOk, RemoteCommandErr>) -> DurationMs {
    match r {
        Ok(ok) => ok.duration,
        Err(e) => e.duration,
    }
}

/// The final pull's result with its duration replaced by the perceived
/// duration: total coordinator wall time minus the remote command's own
/// duration, clamped to zero.
pub open spec fn spec_adjusted_result(
    result: Result<PullOk, PullErr>,
    elapsed: DurationMs,
    remote_duration: DurationMs,
) -> Result<PullOk, PullErr> {
    let d = DurationMs {
        millis: spec_perceived(elapsed.millis as int, remote_duration.millis as int) as u64,
    };
    match result {
        Ok(_) => Ok(PullOk { duration: d }),
        Err(e) => Err(PullErr { duration: d, message: e.message }),
    }
}

/// The coordinator's initial state and first action for a mode.
pub open spec fn spec_start(mode: PullMode) -> (PullCoordinator, PullAction) {
    match mode {
        PullMode::Serial => (
            PullCoordinator {
                mode: PullMode::Serial,
                phase: PullPhase::AwaitingRemote,
                pulls_attempted: 0,
            },
            PullAction::AwaitRemote,
        ),
        PullMode::Parallel => (
            PullCoordinator {
                mode: PullMode::Parallel,
                phase: PullPhase::Pulling,
                pulls_attempted: 1,
            },
            PullAction::Pull,
        ),
    }
}

/// The machine's transition relation: the state after an event and the next
/// action, or nothing when the event is not one the state expects.
pub open spec fn spec_step(c: PullCoordinator, e: PullEvent) -> Option<
    (PullCoordinator, PullAction),
> {
    match (c.phase, e) {
        (PullPhase::AwaitingRemote, PullEvent::RemoteReceived { result: _ }) => Some(
            (
                PullCoordinator {
                    mode: c.mode,
                    phase: PullPhase::Pulling,
                    pulls_attempted: spec_sat_inc(c.pulls_attempted),
                },
                PullAction::Pull,
            ),
        ),
        (PullPhase::Pulling, PullEvent::PullCompleted { result, elapsed: _ }) => match c.mode {
            PullMode::Serial => Some(
                (
                    PullCoordinator {
                        mode: c.mode,
                        phase: PullPhase::Done { delivered: true },
                        pulls_attempted: c.pulls_attempted,
                    },
                    PullAction::Deliver { result },
                ),
            ),
            PullMode::Parallel => match result {
                Ok(_) => Some(
                    (
                        PullCoordinator {
                            mode: c.mode,
                            phase: PullPhase::AwaitingPoll,
                            pulls_attempted: c.pulls_attempted,
                        },
                        PullAction::PollRemote,
                    ),
                ),
                Err(failure) => Some(
                    (
                        PullCoordinator {
                            mode: c.mode,
                            phase: PullPhase::Done { delivered: true },
                            pulls_attempted: c.pulls_attempted,
                        },
                        PullAction::Deliver { result: Err(failure) },
                    ),
                ),
            },
        },
        (PullPhase::AwaitingPoll, PullEvent::PollReturned { outcome }) => match outcome {
            TryReceiveOutcome::NotYetAvailable => Some(
                (
                    PullCoordinator {
                        mode: c.mode,
                        phase: PullPhase::Sleeping,
                        pulls_attempted: c.pulls_attempted,
                    },
                    PullAction::Sleep { millis: PARALLEL_PAUSE_MILLIS },
                ),
            ),
            TryReceiveOutcome::ProducerGone => Some(
                (
                    PullCoordinator {
                        mode: c.mode,
                        phase: PullPhase::Done { delivered: false },
                        pulls_attempted: c.pulls_attempted,
                    },
                    PullAction::Stop,
                ),
            ),
            TryReceiveOutcome::Available(res) => Some(
                (
                    PullCoordinator {
                        mode: c.mode,
                        phase: PullPhase::FinalPulling {
                            remote_duration: spec_remote_duration(res),
                        },
                        pulls_attempted: spec_sat_inc(c.pulls_attempted),
                    },
                    PullAction::Pull,
                ),
            ),
        },
        (PullPhase::Sleeping, PullEvent::SleepFinished) => Some(
            (
                PullCoordinator {
                    mode: c.mode,
                    phase: PullPhase::Pulling,
                    pulls_attempted: spec_sat_inc(c.pulls_attempted),
                },
                PullAction::Pull,
            ),
        ),
        (
            PullPhase::FinalPulling { remote_duration },
            PullEvent::PullCompleted { result, elapsed },
        ) => Some(
            (
                PullCoordinator {
                    mode: c.mode,
                    phase: PullPhase::Done { delivered: true },
                    pulls_attempted: c.pulls_attempted,
                },
                PullAction::Deliver {
                    result: spec_adjusted_result(result, elapsed, remote_duration),
                },
            ),
        ),
        _ => None,
    }
}

impl PullCoordinator {
    /// The initial state and first action for a mode.
    pub fn start(mode: PullMode) -> (r: (PullCoordinator, PullAction))
        ensures
            r == spec_start(mode),
    {
        match mode {
            PullMode::Serial => (
                PullCoordinator {
                    mode: PullMode::Serial,
                    phase: PullPhase::AwaitingRemote,
                    pulls_attempted: 0,
                },
                PullAction::AwaitRemote,
            ),
            PullMode::Parallel => (
                PullCoordinator {
                    mode: PullMode::Parallel,
                    phase: PullPhase::Pulling,
                    pulls_attempted: 1,
                },
                PullAction::Pull,
            ),
        }
    }

    /// Feeds one observed event into the machine; hands back the next action,
    /// or nothing (leaving the state unchanged) when the event does not
    /// belong to the current phase.
    pub fn step(&mut self, event: PullEvent) -> (r: Option<PullAction>)
        ensures
            match spec_step(*old(self), event) {
                Some(sa) => *final(self) == sa.0 && r == Some(sa.1),
                None => *final(self) == *old(self) && r is None,
            },
    {
        match event {
            PullEvent::RemoteReceived { result: _ } => {
                match self.phase {
                    PullPhase::AwaitingRemote => {
                        self.phase = PullPhase::Pulling;
                        self.pulls_attempted = sat_inc(self.pulls_attempted);
                        Some(PullAction::Pull)
                    },
                    _ => None,
                }
            },
            PullEvent::PullCompleted { result, elapsed } => {
                let ghost orig = result;
                match self.phase {
                    PullPhase::Pulling => match self.mode {
                        PullMode::Serial => {
                            self.phase = PullPhase::Done { delivered: true };
                            Some(PullAction::Deliver { result })
                        },
                        PullMode::Parallel => match result {
                            Ok(_) => {
                                self.phase = PullPhase::AwaitingPoll;
                                Some(PullAction::PollRemote)
                            },
                            Err(failure) => {
                                self.phase = PullPhase::Done { delivered: true };
                                Some(PullAction::Deliver { result: Err(failure) })
                            },
                        },
                    },
                    PullPhase::FinalPulling { remote_duration } => {
                        let d = calculate_perceived_pull_duration(elapsed, remote_duration);
                        let adjusted: Result<PullOk, PullErr> = match result {
                            Ok(_) => Ok(PullOk { duration: d }),
                            Err(failure) => Err(
                                PullErr { duration: d, message: failure.message },
                            ),
                        };
                        proof {
                            assert(adjusted == spec_adjusted_result(
                                orig,
                                elapsed,
                                remote_duration,
                            ));
                        }
                        self.phase = PullPhase::Done { delivered: true };
                        Some(PullAction::Deliver { result: adjusted })
                    },
                    _ => None,
                }
            },
            PullEvent::PollReturned { outcome } => {
                match self.phase {
                    PullPhase::AwaitingPoll => match outcome {
                        TryReceiveOutcome::NotYetAvailable => {
                            self.phase = PullPhase::Sleeping;
                            Some(PullAction::Sleep { millis: PARALLEL_PAUSE_MILLIS })
                        },
                        TryReceiveOutcome::ProducerGone => {
                            self.phase = PullPhase::Done { delivered: false };
                            Some(PullAction::Stop)
                        },
                        TryReceiveOutcome::Available(res) => {
                            let rd = match res {
                                Ok(ok) => ok.duration,
                                Err(e) => e.duration,
                            };
                            self.phase = PullPhase::FinalPulling { remote_duration: rd };
                            self.pulls_attempted = sat_inc(self.pulls_attempted);
                            Some(PullAction::Pull)
                        },
                    },
                    _ => None,
                }
            },
            PullEvent::SleepFinished => {
                match self.phase {
                    PullPhase::Sleeping => {
                        self.phase = PullPhase::Pulling;
                        self.pulls_attempted = sat_inc(self.pulls_attempted);
                        Some(PullAction::Pull)
                    },
                    _ => None,
                }
            },
        }
    }
}

/// The state after feeding a whole sequence of events to the machine, events
/// that do not belong to their phase left ignored.
pub open spec fn spec_run(c: PullCoordinator, events: Seq<PullEvent>) -> PullCoordinator
    decreases events.len(),
{
    if events.len() == 0 {
        c
    } else {
        let next = match spec_step(c, events[0]) {
            Some(sa) => sa.0,
            None => c,
        };
        spec_run(next, events.drop_first())
    }
}

spec fn serial_inv(c: PullCoordinator) -> bool {
    c.mode is Serial && match c.phase {
        PullPhase::AwaitingRemote => c.pulls_attempted == 0,
        PullPhase::Pulling => c.pulls_attempted == 1,
        PullPhase::Done { delivered: _ } => c.pulls_attempted == 1,
        _ => false,
    }
}

proof fn lemma_serial_run(c: PullCoordinator, events: Seq<PullEvent>)
    requires
        serial_inv(c),
    ensures
        serial_inv(spec_run(c, events)),
        spec_run(c, events).pulls_attempted > c.pulls_attempted ==> exists|i: int|
            0 <= i < events.len() && events[i] is RemoteReceived,
    decreases events.len(),
{
    if events.len() > 0 {
        let e = events[0];
        let rest = events.drop_first();
        let next = match spec_step(c, e) {
            Some(sa) => sa.0,
            None => c,
        };
        assert(serial_inv(next));
        lemma_serial_run(next, rest);
        if spec_run(c, events).pulls_attempted > c.pulls_attempted {
            if next.pulls_attempted > c.pulls_attempted {
                assert(e is RemoteReceived);
                assert(0 <= 0 < events.len() && events[0] is RemoteReceived);
            } else {
                let i = choose|i: int| 0 <= i < rest.len() && rest[i] is RemoteReceived;
                assert(events[i + 1] is RemoteReceived);
            }
        }
    }
}

/// The serial pull coordinator attempts at most one pull, attempts none
/// until the remote command's result has been received, and has attempted
/// exactly one by the time it finishes.
pub proof fn lemma_serial_single_pull(events: Seq<PullEvent>)
    ensures
        ({
            let end = spec_run(spec_start(PullMode::Serial).0, events);
            end.pulls_attempted <= 1 && (end.phase is Done ==> end.pulls_attempted == 1) && (
            end.pulls_attempted > 0 ==> exists|i: int|
                0 <= i < events.len() && events[i] is RemoteReceived)
        }),
{
    lemma_serial_run(spec_start(PullMode::Serial).0, events);
}

/// Running a machine over concatenated event sequences is running it over
/// the first and then the second.
proof fn lemma_run_concat(c: PullCoordinator, s1: Seq<PullEvent>, s2: Seq<PullEvent>)
    ensures
        spec_run(c, s1 + s2) == spec_run(spec_run(c, s1), s2),
    decreases s1.len(),
{
    if s1.len() == 0 {
        assert(s1 + s2 =~= s2);
    } else {
        assert((s1 + s2)[0] == s1[0]);
        assert((s1 + s2).drop_first() =~= s1.drop_first() + s2);
        let next = match spec_step(c, s1[0]) {
            Some(sa) => sa.0,
            None => c,
        };
        lemma_run_concat(next, s1.drop_first(), s2);
    }
}

/// One periodic parallel round in which the poll finds the remote command
/// still running: a successful pull, a poll answered not-yet, the pause.
pub open spec fn spec_polling_round(ok: PullOk, elapsed: DurationMs) -> Seq<PullEvent> {
    seq![
        PullEvent::PullCompleted { result: Ok(ok), elapsed },
        PullEvent::PollReturned { outcome: TryReceiveOutcome::NotYetAvailable },
        PullEvent::SleepFinished,
    ]
}

/// `k` such rounds in a row.
pub open spec fn spec_polling_rounds(k: nat, ok: PullOk, elapsed: DurationMs) -> Seq<PullEvent>
    decreases k,
{
    if k == 0 {
        seq![]
    } else {
        spec_polling_round(ok, elapsed) + spec_polling_rounds((k - 1) as nat, ok, elapsed)
    }
}

proof fn lemma_parallel_round_adds_pull(c: PullCoordinator, ok: PullOk, elapsed: DurationMs)
    requires
        c.mode is Parallel,
        c.phase is Pulling,
        c.pulls_attempted < u64::MAX,
    ensures
        ({
            let end = spec_run(c, spec_polling_round(ok, elapsed));
            end.mode == c.mode && end.phase is Pulling && end.pulls_attempted
                == c.pulls_attempted + 1
        }),
{
    let events = spec_polling_round(ok, elapsed);
    let s1 = PullCoordinator {
        mode: c.mode,
        phase: PullPhase::AwaitingPoll,
        pulls_attempted: c.pulls_attempted,
    };
    let s2 = PullCoordinator {
        mode: c.mode,
        phase: PullPhase::Sleeping,
        pulls_attempted: c.pulls_attempted,
    };
    let s3 = PullCoordinator {
        mode: c.mode,
        phase: PullPhase::Pulling,
        pulls_attempted: (c.pulls_attempted + 1) as u64,
    };
    let t1 = events.drop_first();
    let t2 = t1.drop_first();
    let t3 = t2.drop_first();
    assert(t1 =~= seq![events[1], events[2]]);
    assert(t2 =~= seq![events[2]]);
    assert(t3 =~= Seq::<PullEvent>::empty());
    assert(spec_step(c, events[0]) == Some((s1, PullAction::PollRemote)));
    assert(spec_step(s1, t1[0]) == Some(
        (s2, PullAction::Sleep { millis: PARALLEL_PAUSE_MILLIS }),
    ));
    assert(spec_step(s2, t2[0]) == Some((s3, PullAction::Pull)));
    assert(spec_run(c, events) == spec_run(s1, t1));
    assert(spec_run(s1, t1) == spec_run(s2, t2));
    assert(spec_run(s2, t2) == spec_run(s3, t3));
    assert(spec_run(s3, t3) == s3);
}

proof fn lemma_parallel_rounds(c: PullCoordinator, k: nat, ok: PullOk, elapsed: DurationMs)
    requires
        c.mode is Parallel,
        c.phase is Pulling,
        c.pulls_attempted + k <= u64::MAX,
    ensures
        ({
            let end = spec_run(c, spec_polling_rounds(k, ok, elapsed));
            end.mode == c.mode && end.phase is Pulling && end.pulls_attempted
                == c.pulls_attempted + k
        }),
    decreases k,
{
    if k == 0 {
        assert(spec_polling_rounds(0, ok, elapsed) =~= Seq::<PullEvent>::empty());
    } else {
        lemma_run_concat(
            c,
            spec_polling_round(ok, elapsed),
            spec_polling_rounds((k - 1) as nat, ok, elapsed),
        );
        lemma_parallel_round_adds_pull(c, ok, elapsed);
        let mid = spec_run(c, spec_polling_round(ok, elapsed));
        lemma_parallel_rounds(mid, (k - 1) as nat, ok, elapsed);
    }
}

/// A remote command seen to finish only after `k` periodic polling rounds
/// forces `k + 2` pull attempts before the coordinator finishes: the
/// initial pull, one pull per round, and the final reconciliation pull.
pub proof fn lemma_parallel_pull_count(
    k: nat,
    ok: PullOk,
    elapsed: DurationMs,
    res: Result<RemoteCommandOk, RemoteCommandErr>,
    final_result: Result<PullOk, PullErr>,
    final_elapsed: DurationMs,
)
    requires
        k + 2 <= u64::MAX,
    ensures
        ({
            let trace = spec_polling_rounds(k, ok, elapsed) + seq![
                PullEvent::PullCompleted { result: Ok(ok), elapsed },
                PullEvent::PollReturned { outcome: TryReceiveOutcome::Available(res) },
                PullEvent::PullCompleted { result: final_result, elapsed: final_elapsed },
            ];
            let end = spec_run(spec_start(PullMode::Parallel).0, trace);
            end.phase == (PullPhase::Done { delivered: true }) && end.pulls_attempted == k + 2
        }),
{
    let c0 = spec_start(PullMode::Parallel).0;
    let rounds = spec_polling_rounds(k, ok, elapsed);
    let tail = seq![
        PullEvent::PullCompleted { result: Ok(ok), elapsed },
        PullEvent::PollReturned { outcome: TryReceiveOutcome::Available(res) },
        PullEvent::PullCompleted { result: final_result, elapsed: final_elapsed },
    ];
    lemma_run_concat(c0, rounds, tail);
    lemma_parallel_rounds(c0, k, ok, elapsed);
    let mid = spec_run(c0, rounds);
    let s1 = PullCoordinator {
        mode: mid.mode,
        phase: PullPhase::AwaitingPoll,
        pulls_attempted: mid.pulls_attempted,
    };
    let s2 = PullCoordinator {
        mode: mid.mode,
        phase: PullPhase::FinalPulling { remote_duration: spec_remote_duration(res) },
        pulls_attempted: (mid.pulls_attempted + 1) as u64,
    };
    let s3 = PullCoordinator {
        mode: mid.mode,
        phase: PullPhase::Done { delivered: true },
        pulls_attempted: s2.pulls_attempted,
    };
    let t1 = tail.drop_first();
    let t2 = t1.drop_first();
    let t3 = t2.drop_first();
    assert(t1 =~= seq![tail[1], tail[2]]);
    assert(t2 =~= seq![tail[2]]);
    assert(t3 =~= Seq::<PullEvent>::empty());
    assert(spec_step(mid, tail[0]) == Some((s1, PullAction::PollRemote)));
    assert(spec_step(s1, t1[0]) == Some((s2, PullAction::Pull)));
    assert(spec_step(s2, t2[0]) == Some(
        (
            s3,
            PullAction::Deliver {
                result: spec_adjusted_result(
                    final_result,
                    final_elapsed,
                    spec_remote_duration(res),
                ),
            },
        ),
    ));
    assert(spec_run(mid, tail) == spec_run(s1, t1));
    assert(spec_run(s1, t1) == spec_run(s2, t2));
    assert(spec_run(s2, t2) == spec_run(s3, t3));
    assert(spec_run(s3, t3) == s3);
}

/// A failing pull attempt in parallel mode is fatal: its error is delivered
/// at once, and no further pull — in particular no final reconciliation
/// pull — is attempted.
pub proof fn lemma_parallel_pull_failure_fatal(
    c: PullCoordinator,
    failure: PullErr,
    elapsed: DurationMs,
)
    requires
        c.mode is Parallel,
        c.phase is Pulling,
    ensures
        spec_step(c, (PullEvent::PullCompleted { result: Err(failure), elapsed })) matches Some(sa)
            && sa.0.phase == (PullPhase::Done { delivered: true }) && sa.0.pulls_attempted
            == c.pulls_attempted && sa.1 == (PullAction::Deliver { result: Err(failure) }),
{
}

} // verus!
