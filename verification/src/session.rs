//! The orchestration of one supervised startup.
//!
//! A session moves through `NotStarted -> Starting -> Probing -> Ready`
//! when everything goes well; a failed spawn or a readiness timeout
//! ends it in `Failed`. [`advance`] is the transition function the
//! surrounding binary drives: it performs the commanded action (spawn,
//! probe, kill) and feeds the observed event back in.

use vstd::prelude::*;
use crate::errors::SupervisorError;
use crate::guard::{LifecycleGuard, ProcessHandle};

verus! {

/// Where a supervised startup currently stands.
#[derive(Clone, Copy, Debug, PartialEq, Eq, Structural)]
pub enum SessionState {
    NotStarted,
    Starting,
    Probing,
    Ready,
    Failed,
}

/// What the surrounding binary observed since the last transition.
#[derive(Clone, Copy, Debug, PartialEq, Eq, Structural)]
pub enum SessionEvent {
    LaunchRequested,
    SpawnSucceeded,
    SpawnFailed,
    BecameReady,
    ProbeTimedOut,
}

/// What the surrounding binary must do next.
#[derive(Clone, Copy, Debug, PartialEq, Eq, Structural)]
pub enum SessionAction {
    SpawnBackend,
    BeginProbing,
    HandToGuard,
    KillAndReap,
    DoNothing,
}

/// The state after `event` arrives in `state`.
///
/// `Ready` and `Failed` are absorbing, and an event that does not
/// belong to the current state changes nothing.
pub open spec fn next_state(state: SessionState, event: SessionEvent) -> SessionState {
    match (state, event) {
        (SessionState::NotStarted, SessionEvent::LaunchRequested) => SessionState::Starting,
        (SessionState::Starting, SessionEvent::SpawnSucceeded) => SessionState::Probing,
        (SessionState::Starting, SessionEvent::SpawnFailed) => SessionState::Failed,
        (SessionState::Probing, SessionEvent::BecameReady) => SessionState::Ready,
        (SessionState::Probing, SessionEvent::ProbeTimedOut) => SessionState::Failed,
        (s, _) => s,
    }
}

/// The action commanded when `event` arrives in `state`.
pub open spec fn commanded_action(state: SessionState, event: SessionEvent) -> SessionAction {
    match (state, event) {
        (SessionState::NotStarted, SessionEvent::LaunchRequested) => SessionAction::SpawnBackend,
        (SessionState::Starting, SessionEvent::SpawnSucceeded) => SessionAction::BeginProbing,
        (SessionState::Probing, SessionEvent::BecameReady) => SessionAction::HandToGuard,
        (SessionState::Probing, SessionEvent::ProbeTimedOut) => SessionAction::KillAndReap,
        _ => SessionAction::DoNothing,
    }
}

/// Performs one transition of the session state machine.
pub fn advance(state: SessionState, event: SessionEvent) -> (r: (SessionState, SessionAction))
    ensures
        r.0 == next_state(state, event),
        r.1 == commanded_action(state, event),
{
    match (state, event) {
        (SessionState::NotStarted, SessionEvent::LaunchRequested) => (
            SessionState::Starting,
            SessionAction::SpawnBackend,
        ),
        (SessionState::Starting, SessionEvent::SpawnSucceeded) => (
            SessionState::Probing,
            SessionAction::BeginProbing,
        ),
        (SessionState::Starting, SessionEvent::SpawnFailed) => (
            SessionState::Failed,
            SessionAction::DoNothing,
        ),
        (SessionState::Probing, SessionEvent::BecameReady) => (
            SessionState::Ready,
            SessionAction::HandToGuard,
        ),
        (SessionState::Probing, SessionEvent::ProbeTimedOut) => (
            SessionState::Failed,
            SessionAction::KillAndReap,
        ),
        (s, _) => (s, SessionAction::DoNothing),
    }
}

/// Decides the outcome of the readiness wait: a ready backend is handed
/// to a fresh lifecycle guard; one that timed out is handed back with a
/// timeout error so the caller can kill and reap it before reporting.
pub fn settle_readiness(ready: bool, handle: ProcessHandle) -> (r: Result<
    LifecycleGuard,
    (SupervisorError, ProcessHandle),
>)
    ensures
        ready <==> r is Ok,
        r matches Ok(g) ==> g.owned() == Some(handle.id),
        r matches Err(p) ==> p.0 is Timeout && p.1.id == handle.id,
{
    if ready {
        Ok(LifecycleGuard::acquire(handle))
    } else {
        Err((SupervisorError::Timeout, handle))
    }
}

/// A readiness timeout never leaves the child running: the transition
/// out of `Probing` on `ProbeTimedOut` commands the kill and reap of
/// the spawned process and ends the session in `Failed`, so no guard is
/// ever created for it.
pub proof fn lemma_timeout_forces_cleanup()
    ensures
        next_state(SessionState::Probing, SessionEvent::ProbeTimedOut) == SessionState::Failed,
        commanded_action(SessionState::Probing, SessionEvent::ProbeTimedOut)
            == SessionAction::KillAndReap,
{
}

/// `Ready` and `Failed` are terminal: no later event moves the session
/// out of them or commands any further action.
pub proof fn lemma_terminal_states_absorb(event: SessionEvent)
    ensures
        next_state(SessionState::Ready, event) == SessionState::Ready,
        next_state(SessionState::Failed, event) == SessionState::Failed,
        commanded_action(SessionState::Ready, event) == SessionAction::DoNothing,
        commanded_action(SessionState::Failed, event) == SessionAction::DoNothing,
{
}

/// The session state after the events in `events` have arrived in
/// order, starting from `NotStarted`.
pub open spec fn state_after(events: Seq<SessionEvent>) -> SessionState
    decreases events.len(),
{
    if events.len() == 0 {
        SessionState::NotStarted
    } else {
        next_state(state_after(events.drop_last()), events.last())
    }
}

/// How many of the arrived events commanded `HandToGuard`.
pub open spec fn handoffs_in(events: Seq<SessionEvent>) -> int
    decreases events.len(),
{
    if events.len() == 0 {
        0
    } else {
        handoffs_in(events.drop_last()) + (if commanded_action(
            state_after(events.drop_last()),
            events.last(),
        ) == SessionAction::HandToGuard {
            1int
        } else {
            0int
        })
    }
}

/// How many of the arrived events commanded `KillAndReap`.
pub open spec fn kills_in(events: Seq<SessionEvent>) -> int
    decreases events.len(),
{
    if events.len() == 0 {
        0
    } else {
        kills_in(events.drop_last()) + (if commanded_action(
            state_after(events.drop_last()),
            events.last(),
        ) == SessionAction::KillAndReap {
            1int
        } else {
            0int
        })
    }
}

/// In any session, however its events unfold, the running process is
/// handed to a lifecycle guard at most once, and exactly the sessions
/// that reached `Ready` have handed it over.
pub proof fn lemma_at_most_one_handoff(events: Seq<SessionEvent>)
    ensures
        0 <= handoffs_in(events) <= 1,
        handoffs_in(events) == 1 <==> state_after(events) == SessionState::Ready,
    decreases events.len(),
{
    if events.len() > 0 {
        let prefix = events.drop_last();
        let s = state_after(prefix);
        let e = events.last();
        lemma_at_most_one_handoff(prefix);
        assert(commanded_action(s, e) == SessionAction::HandToGuard ==> next_state(s, e)
            == SessionState::Ready);
        assert(next_state(s, e) == SessionState::Ready ==> s == SessionState::Ready
            || commanded_action(s, e) == SessionAction::HandToGuard);
    }
}

/// In any session, however its events unfold, the kill and reap of the
/// spawned process is commanded at most once, and only in a session
/// that ended in failure.
pub proof fn lemma_at_most_one_kill(events: Seq<SessionEvent>)
    ensures
        0 <= kills_in(events) <= 1,
        kills_in(events) == 1 ==> state_after(events) == SessionState::Failed,
    decreases events.len(),
{
    if events.len() > 0 {
        lemma_at_most_one_kill(events.drop_last());
    }
}

/// A process is handed to a lifecycle guard only when probing saw the
/// backend become ready, and the session is then `Ready`: at most one
/// guard ever takes ownership in a session.
pub proof fn lemma_guard_only_on_readiness(state: SessionState, event: SessionEvent)
    ensures
        commanded_action(state, event) == SessionAction::HandToGuard ==> state
            == SessionState::Probing && event == SessionEvent::BecameReady && next_state(
            state,
            event,
        ) == SessionState::Ready,
{
}

} // verus!
