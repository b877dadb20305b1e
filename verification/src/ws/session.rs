//! The life of one session, as a state machine.
//!
//! A session starts `Connecting`, is `Active` from the moment it is
//! registered, turns `Closing` when its reader sees the transport end or its
//! writer sees a send fail, and is `Closed` once its teardown has finished.
//! The machine only decides: the caller feeds it what happened and carries
//! out the action it answers with. However the reader and the writer race,
//! the registry is asked to drop the session at most once.

use vstd::prelude::*;

verus! {

/// Where a session stands in its life.
#[derive(Debug, Clone, Copy, PartialEq, Eq, Structural)]
pub enum SessionState {
    /// The transport upgrade is in progress; the session is not registered.
    Connecting,
    /// The session is registered and its reader and writer are running.
    Active,
    /// The reader or the writer has given up; teardown is under way.
    Closing,
    /// Terminal: the session is gone from the registry.
    Closed,
}

/// What can happen to a session.
#[derive(Debug, Clone, Copy, PartialEq, Eq, Structural)]
pub enum SessionEvent {
    /// The transport upgrade has completed.
    Upgraded,
    /// The reader received a frame. Its content is of no interest.
    FrameReceived,
    /// The reader saw the transport close or fail.
    TransportClosed,
    /// The writer could not pass a message on.
    SendFailed,
    /// Teardown of the reader and the writer has finished.
    TornDown,
}

/// What the caller is to do to the registry after a step.
#[derive(Debug, Clone, Copy, PartialEq, Eq, Structural)]
pub enum SessionAction {
    /// Register the session.
    Register,
    /// Unregister the session.
    Unregister,
    /// Leave the registry alone.
    Nothing,
}

/// Whether a session in `state` has an entry in the registry.
pub open spec fn is_registered(state: SessionState) -> bool {
    state == SessionState::Active || state == SessionState::Closing
}

/// The state that follows `state` on `event`. An event that makes no sense
/// in a state is ignored.
pub open spec fn next_state(state: SessionState, event: SessionEvent) -> SessionState {
    match (state, event) {
        (SessionState::Connecting, SessionEvent::Upgraded) => SessionState::Active,
        (SessionState::Connecting, SessionEvent::TransportClosed) => SessionState::Closed,
        (SessionState::Connecting, SessionEvent::SendFailed) => SessionState::Closed,
        (SessionState::Active, SessionEvent::TransportClosed) => SessionState::Closing,
        (SessionState::Active, SessionEvent::SendFailed) => SessionState::Closing,
        (SessionState::Closing, SessionEvent::TornDown) => SessionState::Closed,
        _ => state,
    }
}

/// The action that goes with the step from `state` on `event`: register on
/// entering the registry, unregister on leaving it.
pub open spec fn action_for(state: SessionState, event: SessionEvent) -> SessionAction {
    match (state, event) {
        (SessionState::Connecting, SessionEvent::Upgraded) => SessionAction::Register,
        (SessionState::Closing, SessionEvent::TornDown) => SessionAction::Unregister,
        _ => SessionAction::Nothing,
    }
}

/// The state reached from `state` after all of `events`, in order.
pub open spec fn state_after(state: SessionState, events: Seq<SessionEvent>) -> SessionState
    decreases events.len(),
{
    if events.len() == 0 {
        state
    } else {
        state_after(next_state(state, events[0]), events.drop_first())
    }
}

/// How often `action` is asked for on the way from `state` through
/// `events`.
pub open spec fn times_asked(
    action: SessionAction,
    state: SessionState,
    events: Seq<SessionEvent>,
) -> nat
    decreases events.len(),
{
    if events.len() == 0 {
        0
    } else {
        let rest = times_asked(action, next_state(state, events[0]), events.drop_first());
        if action_for(state, events[0]) == action {
            rest + 1
        } else {
            rest
        }
    }
}

/// Takes one step of the session machine.
pub fn session_step(state: SessionState, event: SessionEvent) -> (step: (
    SessionState,
    SessionAction,
))
    ensures
        step.0 == next_state(state, event),
        step.1 == action_for(state, event),
{
    match (state, event) {
        (SessionState::Connecting, SessionEvent::Upgraded) => (
            SessionState::Active,
            SessionAction::Register,
        ),
        (SessionState::Connecting, SessionEvent::TransportClosed) => (
            SessionState::Closed,
            SessionAction::Nothing,
        ),
        (SessionState::Connecting, SessionEvent::SendFailed) => (
            SessionState::Closed,
            SessionAction::Nothing,
        ),
        (SessionState::Active, SessionEvent::TransportClosed) => (
            SessionState::Closing,
            SessionAction::Nothing,
        ),
        (SessionState::Active, SessionEvent::SendFailed) => (
            SessionState::Closing,
            SessionAction::Nothing,
        ),
        (SessionState::Closing, SessionEvent::TornDown) => (
            SessionState::Closed,
            SessionAction::Unregister,
        ),
        _ => (state, SessionAction::Nothing),
    }
}

/// Each step asks for exactly the registry change that the move between
/// the two states calls for: `Register` when the session enters the
/// registry, `Unregister` when it leaves, and nothing otherwise.
pub proof fn action_tracks_registration(state: SessionState, event: SessionEvent)
    ensures
        action_for(state, event) == SessionAction::Register <==> !is_registered(state)
            && is_registered(next_state(state, event)),
        action_for(state, event) == SessionAction::Unregister <==> is_registered(state)
            && !is_registered(next_state(state, event)),
{
}

/// `Closed` is terminal: no event leaves it or touches the registry.
pub proof fn closed_is_terminal(events: Seq<SessionEvent>)
    ensures
        state_after(SessionState::Closed, events) == SessionState::Closed,
        times_asked(SessionAction::Register, SessionState::Closed, events) == 0,
        times_asked(SessionAction::Unregister, SessionState::Closed, events) == 0,
    decreases events.len(),
{
    if events.len() > 0 {
        closed_is_terminal(events.drop_first());
    }
}

/// One for a state that has an entry in the registry, zero otherwise.
pub open spec fn entries_held(state: SessionState) -> nat {
    if is_registered(state) {
        1
    } else {
        0
    }
}

/// The registry is asked for exactly what the session's life calls for:
/// over any run of events, the entry held at the start plus the
/// registrations less the unregistrations is the entry held at the end.
pub proof fn registry_follows_session(state: SessionState, events: Seq<SessionEvent>)
    ensures
        entries_held(state) + times_asked(SessionAction::Register, state, events)
            == entries_held(state_after(state, events)) + times_asked(
            SessionAction::Unregister,
            state,
            events,
        ),
    decreases events.len(),
{
    if events.len() > 0 {
        registry_follows_session(next_state(state, events[0]), events.drop_first());
    }
}

/// Whatever happens to a session and in whatever order, the registry is
/// asked to drop it at most once: exactly once if it was registered and
/// has reached `Closed`, and not at all while it is still registered.
pub proof fn unregisters_once(state: SessionState, events: Seq<SessionEvent>)
    ensures
        times_asked(SessionAction::Unregister, state, events) <= 1,
        is_registered(state) && state_after(state, events) == SessionState::Closed
            ==> times_asked(SessionAction::Unregister, state, events) == 1,
        is_registered(state_after(state, events)) ==> times_asked(
            SessionAction::Unregister,
            state,
            events,
        ) == 0,
    decreases events.len(),
{
    if events.len() > 0 {
        unregisters_once(next_state(state, events[0]), events.drop_first());
        closed_is_terminal(events.drop_first());
    }
}

/// A session is registered at most once, and only out of `Connecting`.
pub proof fn registers_once(state: SessionState, events: Seq<SessionEvent>)
    ensures
        times_asked(SessionAction::Register, state, events) <= 1,
        state != SessionState::Connecting ==> times_asked(SessionAction::Register, state, events)
            == 0,
    decreases events.len(),
{
    if events.len() > 0 {
        registers_once(next_state(state, events[0]), events.drop_first());
    }
}

} // verus!
