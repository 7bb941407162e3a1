use magna_middleware::lifecycle::state_manager::{State, StateManager};

#[test]
fn happy_path() {
    let mut sm = StateManager::new();
    assert_eq!(sm.current(), State::Uninitialized);

    sm.transition_to(State::Initialized).unwrap();
    sm.transition_to(State::EngineLoaded).unwrap();
    sm.transition_to(State::Ready).unwrap();

    assert_eq!(sm.current(), State::Ready);
}

#[test]
fn skip_state_fails() {
    let mut sm = StateManager::new();
    assert!(sm.transition_to(State::Ready).is_err());
}

#[test]
fn any_to_error() {
    let mut sm = StateManager::new();
    sm.transition_to(State::Initialized).unwrap();
    sm.transition_to(State::Error).unwrap();
    assert_eq!(sm.current(), State::Error);
}

#[test]
fn error_to_uninitialized() {
    let mut sm = StateManager::new();
    sm.set_error();
    sm.reset().unwrap();
    assert_eq!(sm.current(), State::Uninitialized);
}

#[test]
fn require_state() {
    let sm = StateManager::new();
    assert!(sm.require(State::Uninitialized).is_ok());
    assert!(sm.require(State::Initialized).is_err());
}

#[test]
fn require_at_least() {
    let mut sm = StateManager::new();
    sm.transition_to(State::Initialized).unwrap();
    sm.transition_to(State::EngineLoaded).unwrap();

    assert!(sm.require_at_least(State::Initialized).is_ok());
    assert!(sm.require_at_least(State::EngineLoaded).is_ok());
    assert!(sm.require_at_least(State::Ready).is_err());
}

#[test]
fn reload_engine_from_ready() {
    let mut sm = StateManager::new();
    sm.transition_to(State::Initialized).unwrap();
    sm.transition_to(State::EngineLoaded).unwrap();
    sm.transition_to(State::Ready).unwrap();

    sm.transition_to(State::EngineLoaded).unwrap();
    sm.transition_to(State::Ready).unwrap();
}

#[test]
fn shutdown_from_ready() {
    let mut sm = StateManager::new();
    sm.transition_to(State::Initialized).unwrap();
    sm.transition_to(State::EngineLoaded).unwrap();
    sm.transition_to(State::Ready).unwrap();

    sm.transition_to(State::Uninitialized).unwrap();
    assert_eq!(sm.current(), State::Uninitialized);
}

#[test]
fn invalid_transition_leaves_state_and_names_both_ends() {
    let mut sm = StateManager::new();
    let err = sm.transition_to(State::Ready).unwrap_err();
    assert_eq!(sm.current(), State::Uninitialized);
    assert_eq!(
        err.to_string(),
        "Invalid state transition: cannot move from Uninitialized to Ready"
    );
}

#[test]
fn error_reachable_from_every_state() {
    for target in [State::Uninitialized, State::Initialized] {
        let mut sm = StateManager::new();
        if target == State::Initialized {
            sm.transition_to(State::Initialized).unwrap();
        }
        sm.transition_to(State::Error).unwrap();
        assert_eq!(sm.current(), State::Error);
    }
}

#[test]
fn ready_entered_only_from_engine_loaded() {
    let mut sm = StateManager::new();
    sm.transition_to(State::Initialized).unwrap();
    assert!(sm.transition_to(State::Ready).is_err());
    assert_eq!(sm.current(), State::Initialized);
    assert!(sm.transition_to(State::EngineLoaded).is_ok());
    assert!(sm.transition_to(State::Ready).is_ok());
}

#[test]
fn shutdown_refused_when_uninitialized() {
    let mut sm = StateManager::new();
    assert!(sm.transition_to(State::Uninitialized).is_err());
    assert_eq!(sm.current(), State::Uninitialized);
}

#[test]
fn require_messages_and_ordinals() {
    let sm = StateManager::new();
    let e = sm.require(State::Ready).unwrap_err();
    assert_eq!(
        e.to_string(),
        "Operation requires state 'Ready', but current state is 'Uninitialized'"
    );
    let e = sm.require_at_least(State::Initialized).unwrap_err();
    assert_eq!(
        e.to_string(),
        "Operation requires state 'at least Initialized', but current state is 'Uninitialized'"
    );
    let mut failed = StateManager::new();
    failed.set_error();
    assert!(failed.require_at_least(State::Ready).is_ok());
}

#[test]
fn reset_refused_outside_error() {
    let mut sm = StateManager::new();
    sm.transition_to(State::Initialized).unwrap();
    assert!(sm.reset().is_err());
    assert_eq!(sm.current(), State::Initialized);
}
