use eightvoice::state::{AppState, StateEvent, StateMachine, StatePayload};

fn change(state: AppState, previous: AppState) -> StatePayload {
    StatePayload { state, previous }
}

fn event(n: usize) -> StateEvent {
    match n {
        0 => StateEvent::StartRecording,
        1 => StateEvent::StopRecording,
        2 => StateEvent::TranscriptionDone,
        _ => StateEvent::InjectionDone,
    }
}

fn at(state: AppState) -> StateMachine {
    let mut sm = StateMachine::new();
    let steps = match state {
        AppState::Idle | AppState::Error => 0,
        AppState::Recording => 1,
        AppState::Transcribing => 2,
        AppState::Injecting => 3,
    };
    for i in 0..steps {
        assert!(sm.transition(event(i)).accepted);
    }
    assert_eq!(sm.current(), state);
    sm
}

#[test]
fn starts_idle() {
    let sm = StateMachine::new();
    assert_eq!(sm.current(), AppState::Idle);
    assert_eq!(AppState::default(), AppState::Idle);
    assert_eq!(sm.last_error(), None);
}

#[test]
fn a_dictation_goes_round() {
    let mut sm = StateMachine::new();
    let round = [
        AppState::Recording,
        AppState::Transcribing,
        AppState::Injecting,
        AppState::Idle,
    ];
    let mut previous = AppState::Idle;
    for (i, state) in round.into_iter().enumerate() {
        let t = sm.transition(event(i));
        assert!(t.accepted);
        assert_eq!(t.changes, vec![change(state, previous)]);
        assert_eq!(sm.current(), state);
        previous = state;
    }
    assert!(sm.take_pending_transcribe());
    assert!(!sm.take_pending_transcribe());
}

#[test]
fn refused_requests_change_nothing() {
    let states = [
        AppState::Idle,
        AppState::Recording,
        AppState::Transcribing,
        AppState::Injecting,
    ];
    for (i, state) in states.into_iter().enumerate() {
        for n in 0..4 {
            let mut sm = at(state);
            let t = sm.transition(event(n));
            assert_eq!(t.accepted, n == i);
            if n != i {
                assert!(t.changes.is_empty());
                assert_eq!(sm.current(), state);
                assert_eq!(sm.last_error(), None);
            }
        }
    }
}

#[test]
fn failure_leads_to_idle_from_every_state() {
    for state in [
        AppState::Idle,
        AppState::Recording,
        AppState::Transcribing,
        AppState::Injecting,
    ] {
        let mut sm = at(state);
        let t = sm.transition(StateEvent::Fail("olmadı".to_string()));
        assert!(t.accepted);
        assert_eq!(
            t.changes,
            vec![
                change(AppState::Error, state),
                change(AppState::Idle, AppState::Error)
            ]
        );
        assert_eq!(sm.current(), AppState::Idle);
        assert_eq!(sm.last_error(), Some("olmadı".to_string()));
    }
}

#[test]
fn only_stopping_asks_for_transcription() {
    let mut sm = at(AppState::Recording);
    assert!(!sm.take_pending_transcribe());
    sm.transition(StateEvent::StopRecording);
    assert!(sm.take_pending_transcribe());
    sm.transition(StateEvent::TranscriptionDone);
    sm.transition(StateEvent::InjectionDone);
    sm.transition(StateEvent::StopRecording);
    assert!(!sm.take_pending_transcribe());
}
