//! The lifecycle of one engine session.
//!
//! A session moves linearly through three phases: it starts
//! uninitialized, becomes initialized when the engine accepts the
//! session, and is cleaned up exactly once afterwards. The transitions
//! are irreversible: no re-initialization of a live session, and no
//! second cleanup. The unverified shell performs the engine calls and
//! drives this state machine with their outcomes; the machine's
//! contracts make a missing or doubled cleanup unprovable.

use crate::errors::ResolveError;
use vstd::prelude::*;

verus! {

/// The phase a session is in.
#[derive(Clone, Copy, Debug, PartialEq, Eq, Structural)]
pub enum SessionPhase {
    /// No engine session exists yet for this process.
    Uninitialized,
    /// The engine accepted the session; it must be cleaned up.
    Initialized,
    /// The session has been released; nothing may follow.
    CleanedUp,
}

/// One step of the session lifecycle, as the shell reports it.
#[derive(Clone, Copy, Debug, PartialEq, Eq, Structural)]
pub enum LifecycleStep {
    /// The engine was asked to initialize a session; the field says
    /// whether it accepted.
    Initialize { engine_accepted: bool },
    /// The engine session was released.
    Cleanup,
}

/// Whether a lifecycle step may happen in a phase: initialization only
/// before a session exists, cleanup only while one does.
pub open spec fn step_allowed(phase: SessionPhase, step: LifecycleStep) -> bool {
    match step {
        LifecycleStep::Initialize { .. } => phase is Uninitialized,
        LifecycleStep::Cleanup => phase is Initialized,
    }
}

/// The phase after an allowed lifecycle step.
pub open spec fn step_next(phase: SessionPhase, step: LifecycleStep) -> SessionPhase {
    match step {
        LifecycleStep::Initialize { engine_accepted } => if engine_accepted {
            SessionPhase::Initialized
        } else {
            SessionPhase::Uninitialized
        },
        LifecycleStep::Cleanup => SessionPhase::CleanedUp,
    }
}

/// Whether a whole sequence of lifecycle steps is allowed from a
/// phase, each step from the phase the previous steps reached.
pub open spec fn trace_allowed(phase: SessionPhase, steps: Seq<LifecycleStep>) -> bool
    decreases steps.len(),
{
    steps.len() == 0 || (step_allowed(phase, steps[0]) && trace_allowed(
        step_next(phase, steps[0]),
        steps.drop_first(),
    ))
}

/// The phase a sequence of lifecycle steps reaches from a phase.
pub open spec fn phase_after(phase: SessionPhase, steps: Seq<LifecycleStep>) -> SessionPhase
    decreases steps.len(),
{
    if steps.len() == 0 {
        phase
    } else {
        phase_after(step_next(phase, steps[0]), steps.drop_first())
    }
}

/// How many cleanups a sequence of lifecycle steps contains.
pub open spec fn cleanup_count(steps: Seq<LifecycleStep>) -> nat
    decreases steps.len(),
{
    if steps.len() == 0 {
        0
    } else {
        (if steps[0] is Cleanup {
            1nat
        } else {
            0nat
        }) + cleanup_count(steps.drop_first())
    }
}

/// The tracked state of one session.
pub struct SessionCore {
    phase: SessionPhase,
}

impl SessionCore {
    /// The phase this session is in.
    pub closed spec fn phase(self) -> SessionPhase {
        self.phase
    }

    /// A session that has not been initialized yet.
    pub fn new() -> (core: Self)
        ensures
            core.phase() is Uninitialized,
    {
        SessionCore { phase: SessionPhase::Uninitialized }
    }

    /// An executable view of the phase, for callers outside the
    /// verified library.
    pub fn current_phase(&self) -> (phase: SessionPhase)
        ensures
            phase == self.phase(),
    {
        self.phase
    }

    /// Record the engine's answer to session initialization. On
    /// acceptance the session is live; on refusal nothing was
    /// acquired, the phase stays uninitialized and the caller gets
    /// `EngineInitFailed`.
    pub fn record_initialization(&mut self, engine_accepted: bool) -> (r: Result<
        (),
        ResolveError,
    >)
        requires
            old(self).phase() is Uninitialized,
        ensures
            final(self).phase() == step_next(
                old(self).phase(),
                (LifecycleStep::Initialize { engine_accepted }),
            ),
            engine_accepted ==> r is Ok && final(self).phase() is Initialized,
            !engine_accepted ==> r == Err::<(), ResolveError>(ResolveError::EngineInitFailed)
                && final(self).phase() is Uninitialized,
    {
        if engine_accepted {
            self.phase = SessionPhase::Initialized;
            Ok(())
        } else {
            Err(ResolveError::EngineInitFailed)
        }
    }

    /// Record that the engine session was released. Only a live
    /// session can be released, and afterwards nothing can be recorded
    /// for this session again.
    pub fn record_cleanup(&mut self)
        requires
            old(self).phase() is Initialized,
        ensures
            final(self).phase() == step_next(old(self).phase(), LifecycleStep::Cleanup),
            final(self).phase() is CleanedUp,
    {
        self.phase = SessionPhase::CleanedUp;
    }
}

/// Helper for the cleanup law, generalized over the starting phase:
/// an allowed trace holds at most one cleanup; it holds exactly one
/// just when it ends cleaned up without starting there; and nothing at
/// all is allowed after cleanup.
proof fn lemma_cleanup_from_phase(phase: SessionPhase, steps: Seq<LifecycleStep>)
    requires
        trace_allowed(phase, steps),
    ensures
        cleanup_count(steps) <= 1,
        phase_after(phase, steps) is CleanedUp <==> (phase is CleanedUp || cleanup_count(steps)
            == 1),
        phase is CleanedUp ==> steps.len() == 0,
    decreases steps.len(),
{
    if steps.len() > 0 {
        lemma_cleanup_from_phase(step_next(phase, steps[0]), steps.drop_first());
    }
}

/// Cleanup law: along any allowed lifecycle of a fresh session, the
/// engine session is released at most once, and it is released exactly
/// once just when the lifecycle ends in the cleaned-up phase — never
/// zero times then, never twice, whatever else happened in between.
pub proof fn lemma_cleanup_exactly_once(steps: Seq<LifecycleStep>)
    requires
        trace_allowed(SessionPhase::Uninitialized, steps),
    ensures
        cleanup_count(steps) <= 1,
        phase_after(SessionPhase::Uninitialized, steps) is CleanedUp <==> cleanup_count(steps)
            == 1,
{
    lemma_cleanup_from_phase(SessionPhase::Uninitialized, steps);
}

} // verus!
