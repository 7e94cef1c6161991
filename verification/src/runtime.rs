//! The runtime lifecycle.
//!
//! A host runtime owns one engine. Construction installs the op table and
//! evaluates the facade once; each execute call evaluates user source and
//! then drains the engine's event loop to quiescence, returning the first
//! uncaught error of either phase. The engine work itself — evaluation and
//! the event loop — happens outside this crate; the lifecycle below is the
//! machine that orders those steps and decides what each outcome means, and
//! the shell around the engine advances it one event at a time.

use vstd::prelude::*;

verus! {

/// Where a host runtime stands in its life.
#[derive(Clone, Copy, Debug, PartialEq, Eq, Structural)]
pub enum RuntimePhase {
    /// The engine exists and the op table is installed, but the facade has
    /// not been evaluated yet.
    Constructing,
    /// Construction is complete; no execute call is in progress.
    Ready,
    /// An execute call is evaluating user source.
    Evaluating,
    /// An execute call is draining the event loop to quiescence.
    Draining,
}

/// The lifecycle of one host runtime. A runtime is exclusively owned and
/// never shared: at most one execute call is in progress at a time, which
/// the transitions below enforce by admitting `begin_execute` only from
/// `Ready`.
pub struct HostLifecycle {
    /// The runtime's current phase.
    pub phase: RuntimePhase,
}

impl HostLifecycle {
    /// Start constructing a runtime: the engine is created with the op table
    /// installed, and the facade is about to be evaluated.
    pub fn begin_construction() -> (s: HostLifecycle)
        ensures
            s.phase == RuntimePhase::Constructing,
    {
        HostLifecycle { phase: RuntimePhase::Constructing }
    }

    /// Record the outcome of evaluating the facade. Failure is fatal: the
    /// runtime is only ready when the facade evaluated cleanly.
    pub fn facade_evaluated(&mut self, ok: bool) -> (fatal: bool)
        requires
            old(self).phase == RuntimePhase::Constructing,
        ensures
            fatal == !ok,
            ok ==> final(self).phase == RuntimePhase::Ready,
            !ok ==> final(self).phase == RuntimePhase::Constructing,
    {
        if ok {
            self.phase = RuntimePhase::Ready;
        }
        !ok
    }

    /// Begin one execute call: admissible only when no call is in progress.
    /// The engine will evaluate the user source next.
    pub fn begin_execute(&mut self)
        requires
            old(self).phase == RuntimePhase::Ready,
        ensures
            final(self).phase == RuntimePhase::Evaluating,
    {
        self.phase = RuntimePhase::Evaluating;
    }

    /// Record the outcome of evaluating the user source. An uncaught error
    /// ends the call with that error and the runtime is ready again; a clean
    /// evaluation proceeds to draining the event loop.
    pub fn source_evaluated(&mut self, error: Option<String>) -> (failure: Option<String>)
        requires
            old(self).phase == RuntimePhase::Evaluating,
        ensures
            error is Some ==> failure == error && final(self).phase == RuntimePhase::Ready,
            error is None ==> failure is None && final(self).phase == RuntimePhase::Draining,
    {
        match error {
            Some(e) => {
                self.phase = RuntimePhase::Ready;
                Some(e)
            },
            None => {
                self.phase = RuntimePhase::Draining;
                None
            },
        }
    }

    /// Record the outcome of draining the event loop to quiescence. The call
    /// ends either way — with the loop's first uncaught error, or cleanly —
    /// and the runtime is ready for the next call.
    pub fn loop_drained(&mut self, error: Option<String>) -> (failure: Option<String>)
        requires
            old(self).phase == RuntimePhase::Draining,
        ensures
            failure == error,
            final(self).phase == RuntimePhase::Ready,
    {
        self.phase = RuntimePhase::Ready;
        error
    }
}

} // verus!
