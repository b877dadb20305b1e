use blog_backend::ws::session::SessionAction::{Nothing, Register, Unregister};
use blog_backend::ws::session::SessionEvent::{
    FrameReceived, SendFailed, TornDown, TransportClosed, Upgraded,
};
use blog_backend::ws::session::SessionState::{Active, Closed, Closing, Connecting};
use blog_backend::ws::session::{session_step, SessionAction, SessionEvent, SessionState};

const EVENTS: [SessionEvent; 5] = [
    SessionEvent::Upgraded,
    SessionEvent::FrameReceived,
    SessionEvent::TransportClosed,
    SessionEvent::SendFailed,
    SessionEvent::TornDown,
];

fn run(start: SessionState, events: &[SessionEvent]) -> (SessionState, Vec<SessionAction>) {
    let mut state = start;
    let mut actions = Vec::new();
    for event in events {
        let (next, action) = session_step(state, *event);
        state = next;
        actions.push(action);
    }
    (state, actions)
}

#[test]
fn session_goes_through_its_four_states() {
    let (state, actions) = run(
        SessionState::Connecting,
        &[
            SessionEvent::Upgraded,
            SessionEvent::FrameReceived,
            SessionEvent::TransportClosed,
            SessionEvent::TornDown,
        ],
    );
    assert_eq!(state, SessionState::Closed);
    assert_eq!(
        actions,
        vec![
            SessionAction::Register,
            SessionAction::Nothing,
            SessionAction::Nothing,
            SessionAction::Unregister
        ]
    );
}

#[test]
fn each_transition_is_as_specified() {
    assert_eq!(session_step(Connecting, Upgraded), (Active, Register));
    assert_eq!(session_step(Connecting, FrameReceived), (Connecting, Nothing));
    assert_eq!(session_step(Connecting, TransportClosed), (Closed, Nothing));
    assert_eq!(session_step(Connecting, SendFailed), (Closed, Nothing));
    assert_eq!(session_step(Connecting, TornDown), (Connecting, Nothing));
    assert_eq!(session_step(Active, Upgraded), (Active, Nothing));
    assert_eq!(session_step(Active, FrameReceived), (Active, Nothing));
    assert_eq!(session_step(Active, TransportClosed), (Closing, Nothing));
    assert_eq!(session_step(Active, SendFailed), (Closing, Nothing));
    assert_eq!(session_step(Active, TornDown), (Active, Nothing));
    assert_eq!(session_step(Closing, Upgraded), (Closing, Nothing));
    assert_eq!(session_step(Closing, FrameReceived), (Closing, Nothing));
    assert_eq!(session_step(Closing, TransportClosed), (Closing, Nothing));
    assert_eq!(session_step(Closing, SendFailed), (Closing, Nothing));
    assert_eq!(session_step(Closing, TornDown), (Closed, Unregister));
    for event in EVENTS {
        assert_eq!(session_step(Closed, event), (Closed, Nothing));
    }
}

#[test]
fn reader_and_writer_racing_unregister_once() {
    let (state, actions) = run(
        SessionState::Active,
        &[
            SessionEvent::SendFailed,
            SessionEvent::TransportClosed,
            SessionEvent::TornDown,
            SessionEvent::TornDown,
            SessionEvent::TransportClosed,
        ],
    );
    assert_eq!(state, SessionState::Closed);
    let unregisters = actions.iter().filter(|a| **a == SessionAction::Unregister).count();
    assert_eq!(unregisters, 1);
}

#[test]
fn no_run_of_four_events_unregisters_twice() {
    for a in EVENTS {
        for b in EVENTS {
            for c in EVENTS {
                for d in EVENTS {
                    let (state, actions) = run(SessionState::Connecting, &[a, b, c, d]);
                    let registers =
                        actions.iter().filter(|x| **x == SessionAction::Register).count();
                    let unregisters =
                        actions.iter().filter(|x| **x == SessionAction::Unregister).count();
                    assert!(registers <= 1);
                    assert!(unregisters <= registers);
                    if state == SessionState::Closed {
                        assert_eq!(unregisters, registers);
                    }
                }
            }
        }
    }
}

#[test]
fn connection_that_fails_before_the_upgrade_is_never_registered() {
    let (state, actions) =
        run(SessionState::Connecting, &[SessionEvent::TransportClosed, SessionEvent::Upgraded]);
    assert_eq!(state, SessionState::Closed);
    assert_eq!(actions, vec![SessionAction::Nothing, SessionAction::Nothing]);
}
