//! The completion fan-out: one producer publishes the remote command's
//! result exactly once, and a fixed set of listeners, all registered before
//! the publish, each observe exactly that value.
//!
//! This is the protocol model the rest of the engine is specified against:
//! listeners are registered only while the fan-out is still open, a value
//! can be published only once, and a listener can observe a value only once
//! one has been published.

use vstd::prelude::*;
use crate::remote_command::RemoteCommandErr;
use crate::remote_command::RemoteCommandOk;

verus! {

/// What a non-blocking check of a listener can observe.
#[derive(Clone, Copy, Debug)]
pub enum TryReceiveOutcome {
    /// The published value.
    Available(Result<RemoteCommandOk, RemoteCommandErr>),
    /// Nothing has been published yet.
    NotYetAvailable,
    /// The producer went away without publishing.
    ProducerGone,
}

/// The producer side's state: still open for registrations and the publish,
/// published, or abandoned without a publish.
#[derive(Clone, Copy, Debug)]
pub enum FanoutPhase {
    Open,
    Published(Result<RemoteCommandOk, RemoteCommandErr>),
    Closed,
}

/// A one-shot, multi-listener completion signal.
#[derive(Clone, Copy, Debug)]
pub struct CompletionFanout {
    /// How many listeners have been registered.
    pub registered: usize,
    /// Whether the single value has been published yet.
    pub phase: FanoutPhase,
}

/// A listener's receive handle: the only way to observe completion.
#[derive(Clone, Copy, Debug)]
pub struct CompletionListener {
    /// The listener's registration rank.
    pub index: usize,
}

/// Whether `r` is a value this fan-out delivers to a listener.
pub open spec fn spec_delivered(
    f: CompletionFanout,
    r: Result<RemoteCommandOk, RemoteCommandErr>,
) -> bool {
    f.phase == FanoutPhase::Published(r)
}

impl CompletionFanout {
    /// A fresh fan-out: open, with no listeners yet.
    pub fn new() -> (r: CompletionFanout)
        ensures
            r.registered == 0,
            r.phase is Open,
    {
        CompletionFanout { registered: 0, phase: FanoutPhase::Open }
    }

    /// Registers one more listener; only possible before the publish.
    pub fn register(&mut self) -> (l: CompletionListener)
        requires
            old(self).phase is Open,
            old(self).registered < usize::MAX,
        ensures
            final(self).registered == old(self).registered + 1,
            final(self).phase == old(self).phase,
            l.index == old(self).registered,
    {
        let l = CompletionListener { index: self.registered };
        self.registered = self.registered + 1;
        l
    }

    /// Publishes the single value; only possible once.
    pub fn publish(&mut self, value: Result<RemoteCommandOk, RemoteCommandErr>)
        requires
            old(self).phase is Open,
        ensures
            final(self).registered == old(self).registered,
            final(self).phase == FanoutPhase::Published(value),
    {
        self.phase = FanoutPhase::Published(value);
    }

    /// Abandons the fan-out without publishing.
    pub fn close(&mut self)
        requires
            old(self).phase is Open,
        ensures
            final(self).registered == old(self).registered,
            final(self).phase is Closed,
    {
        self.phase = FanoutPhase::Closed;
    }
}

impl CompletionListener {
    /// Observes the published value; blocks until the publish, so it can
    /// only be taken once a value has been published. Every listener
    /// observes the same value.
    pub fn receive(&self, fanout: &CompletionFanout) -> (r: Result<
        RemoteCommandOk,
        RemoteCommandErr,
    >)
        requires
            fanout.phase is Published,
        ensures
            spec_delivered(*fanout, r),
    {
        match fanout.phase {
            FanoutPhase::Published(value) => value,
            _ => vstd::pervasive::unreached(),
        }
    }

    /// Checks for the published value without blocking.
    pub fn try_receive(&self, fanout: &CompletionFanout) -> (r: TryReceiveOutcome)
        ensures
            match fanout.phase {
                FanoutPhase::Open => r is NotYetAvailable,
                FanoutPhase::Published(v) => r == TryReceiveOutcome::Available(v),
                FanoutPhase::Closed => r is ProducerGone,
            },
    {
        match fanout.phase {
            FanoutPhase::Open => TryReceiveOutcome::NotYetAvailable,
            FanoutPhase::Published(value) => TryReceiveOutcome::Available(value),
            FanoutPhase::Closed => TryReceiveOutcome::ProducerGone,
        }
    }
}

/// All listeners of one fan-out agree: any two values it delivers are the
/// same value, however many listeners were registered.
pub proof fn lemma_listeners_agree(
    f: CompletionFanout,
    r1: Result<RemoteCommandOk, RemoteCommandErr>,
    r2: Result<RemoteCommandOk, RemoteCommandErr>,
)
    requires
        spec_delivered(f, r1),
        spec_delivered(f, r2),
    ensures
        r1 == r2,
{
}

/// No listener observes a value before the publish: an open fan-out
/// delivers nothing.
pub proof fn lemma_nothing_delivered_before_publish(
    f: CompletionFanout,
    r: Result<RemoteCommandOk, RemoteCommandErr>,
)
    requires
        f.phase is Open,
    ensures
        !spec_delivered(f, r),
{
}

} // verus!
