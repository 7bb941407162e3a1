//! The lifecycle state machine that governs the middleware:
//!
//! ```text
//!   Uninitialized ──► Initialized ──► EngineLoaded ──► Ready
//! ```
//!
//! Any state can move to `Error`; `Error` moves back to `Uninitialized`;
//! `Initialized`, `EngineLoaded` and `Ready` can shut down to
//! `Uninitialized`; `Ready` can reload an engine (back to `EngineLoaded`).

use vstd::prelude::*;

use crate::utils::errors::{invalid_state, invalid_transition, MiddlewareError};
use crate::utils::text::concat2;

verus! {

/// Middleware lifecycle states.
#[derive(Debug, Clone, Copy, PartialEq, Eq, Structural, Hash)]
pub enum State {
    Uninitialized,
    Initialized,
    EngineLoaded,
    Ready,
    Error,
}

/// The display name of a state.
pub open spec fn state_name(s: State) -> Seq<char> {
    match s {
        State::Uninitialized => "Uninitialized"@,
        State::Initialized => "Initialized"@,
        State::EngineLoaded => "EngineLoaded"@,
        State::Ready => "Ready"@,
        State::Error => "Error"@,
    }
}

/// Position of a state in lifecycle order; `Error` ranks above all.
pub open spec fn ordinal(s: State) -> nat {
    match s {
        State::Uninitialized => 0,
        State::Initialized => 1,
        State::EngineLoaded => 2,
        State::Ready => 3,
        State::Error => 255,
    }
}

/// The transitions the state machine allows.
pub open spec fn valid_transition(from: State, to: State) -> bool {
    to == State::Error || match (from, to) {
        (State::Uninitialized, State::Initialized) => true,
        (State::Initialized, State::EngineLoaded) => true,
        (State::EngineLoaded, State::Ready) => true,
        (State::Ready, State::EngineLoaded) => true,
        (State::Initialized, State::Uninitialized) => true,
        (State::EngineLoaded, State::Uninitialized) => true,
        (State::Ready, State::Uninitialized) => true,
        (State::Error, State::Uninitialized) => true,
        _ => false,
    }
}

impl State {
    /// The display name of this state.
    pub fn name(self) -> (s: &'static str)
        ensures
            s@ == state_name(self),
    {
        match self {
            State::Uninitialized => "Uninitialized",
            State::Initialized => "Initialized",
            State::EngineLoaded => "EngineLoaded",
            State::Ready => "Ready",
            State::Error => "Error",
        }
    }

    /// The display name of this state as an owned string.
    pub fn to_string(self) -> (s: String)
        ensures
            s@ == state_name(self),
    {
        String::from_str(self.name())
    }
}

/// Enforces valid lifecycle state transitions.
#[derive(Debug)]
pub struct StateManager {
    current: State,
}

impl View for StateManager {
    type V = State;

    closed spec fn view(&self) -> State {
        self.current
    }
}

impl StateManager {
    /// A state manager in `Uninitialized`.
    pub fn new() -> (m: StateManager)
        ensures
            m@ == State::Uninitialized,
    {
        StateManager { current: State::Uninitialized }
    }

    /// The current state.
    pub fn current(&self) -> (s: State)
        ensures
            s == self@,
    {
        self.current
    }

    /// Moves to `target` when the transition is allowed; otherwise reports
    /// an invalid transition and stays where it was.
    pub fn transition_to(&mut self, target: State) -> (r: Result<(), MiddlewareError>)
        ensures
            valid_transition(old(self)@, target) ==> r is Ok && final(self)@ == target,
            !valid_transition(old(self)@, target) ==> final(self)@ == old(self)@ && (r matches Err(
                e,
            ) && e@ == invalid_transition(state_name(old(self)@), state_name(target))),
            old(self)@ == State::Error ==> (r is Ok <==> (target == State::Uninitialized || target
                == State::Error)),
    {
        proof {
            lemma_error_only_resets(target);
        }
        if self.is_valid_transition(target) {
            self.current = target;
            Ok(())
        } else {
            Err(
                MiddlewareError::InvalidStateTransition {
                    from: self.current.to_string(),
                    to: target.to_string(),
                },
            )
        }
    }

    /// Succeeds exactly when the current state is `expected`.
    pub fn require(&self, expected: State) -> (r: Result<(), MiddlewareError>)
        ensures
            self@ == expected ==> r is Ok,
            self@ != expected ==> (r matches Err(e) && e@ == invalid_state(
                state_name(expected),
                state_name(self@),
            )),
    {
        if self.current == expected {
            Ok(())
        } else {
            Err(
                MiddlewareError::InvalidState {
                    required: expected.to_string(),
                    current: self.current.to_string(),
                },
            )
        }
    }

    /// Succeeds exactly when the current state is at least `min` in
    /// lifecycle order.
    pub fn require_at_least(&self, min: State) -> (r: Result<(), MiddlewareError>)
        ensures
            ordinal(self@) >= ordinal(min) ==> r is Ok,
            ordinal(self@) < ordinal(min) ==> (r matches Err(e) && e@ == invalid_state(
                "at least "@ + state_name(min),
                state_name(self@),
            )),
    {
        if self.ordinal(self.current) >= self.ordinal(min) {
            Ok(())
        } else {
            Err(
                MiddlewareError::InvalidState {
                    required: concat2("at least ", min.name()),
                    current: self.current.to_string(),
                },
            )
        }
    }

    /// Forces the state to `Error`.
    pub fn set_error(&mut self)
        ensures
            final(self)@ == State::Error,
    {
        self.current = State::Error;
    }

    /// Returns to `Uninitialized` from `Error` (or stays there); from any
    /// other state it reports an invalid transition and changes nothing.
    pub fn reset(&mut self) -> (r: Result<(), MiddlewareError>)
        ensures
            (old(self)@ == State::Error || old(self)@ == State::Uninitialized) ==> r is Ok
                && final(self)@ == State::Uninitialized,
            !(old(self)@ == State::Error || old(self)@ == State::Uninitialized) ==> final(self)@
                == old(self)@ && (r matches Err(e) && e@ == invalid_transition(
                state_name(old(self)@),
                "Uninitialized"@,
            )),
    {
        if self.current == State::Error || self.current == State::Uninitialized {
            self.current = State::Uninitialized;
            Ok(())
        } else {
            Err(
                MiddlewareError::InvalidStateTransition {
                    from: self.current.to_string(),
                    to: State::Uninitialized.to_string(),
                },
            )
        }
    }

    fn is_valid_transition(&self, target: State) -> (b: bool)
        ensures
            b == valid_transition(self@, target),
    {
        if target == State::Error {
            return true;
        }
        match (self.current, target) {
            (State::Uninitialized, State::Initialized) => true,
            (State::Initialized, State::EngineLoaded) => true,
            (State::EngineLoaded, State::Ready) => true,
            (State::Ready, State::EngineLoaded) => true,
            (State::Initialized, State::Uninitialized) => true,
            (State::EngineLoaded, State::Uninitialized) => true,
            (State::Ready, State::Uninitialized) => true,
            (State::Error, State::Uninitialized) => true,
            _ => false,
        }
    }

    fn ordinal(&self, s: State) -> (n: u8)
        ensures
            n == ordinal(s),
    {
        match s {
            State::Uninitialized => 0,
            State::Initialized => 1,
            State::EngineLoaded => 2,
            State::Ready => 3,
            State::Error => 255,
        }
    }
}

impl Default for StateManager {
    fn default() -> (m: StateManager)
        ensures
            m@ == State::Uninitialized,
    {
        StateManager::new()
    }
}

/// Every state can move to `Error`.
pub proof fn lemma_error_reachable_from_any(s: State)
    ensures
        valid_transition(s, State::Error),
{
}

/// `Ready` is entered only from `EngineLoaded`: no state is skipped on the
/// way up.
pub proof fn lemma_ready_only_from_engine_loaded(s: State)
    ensures
        valid_transition(s, State::Ready) <==> s == State::EngineLoaded,
{
}

/// A transition that moves up the lifecycle (other than to `Error`) moves
/// exactly one step.
pub proof fn lemma_no_skipped_states(from: State, to: State)
    requires
        valid_transition(from, to),
        to != State::Error,
        ordinal(from) < ordinal(to),
    ensures
        ordinal(to) == ordinal(from) + 1,
{
}

/// Every state but `Uninitialized` itself can return to `Uninitialized`
/// (shutdown, or reset from `Error`).
pub proof fn lemma_shutdown_from_any_active(s: State)
    ensures
        valid_transition(s, State::Uninitialized) <==> s != State::Uninitialized,
{
}

/// `Error` is left only by a reset: from `Error` the one allowed move is
/// back to `Uninitialized` (or to `Error` again).
pub proof fn lemma_error_only_resets(t: State)
    ensures
        valid_transition(State::Error, t) <==> (t == State::Uninitialized || t == State::Error),
{
}

/// A move that does not go up the lifecycle (other than to `Error`) is a
/// shutdown or reset to `Uninitialized`, or the reload from `Ready` back to
/// `EngineLoaded`.
pub proof fn lemma_downward_moves(from: State, to: State)
    requires
        valid_transition(from, to),
        to != State::Error,
        ordinal(to) <= ordinal(from),
    ensures
        to == State::Uninitialized || (from == State::Ready && to == State::EngineLoaded),
{
}

/// The full lifecycle: up to `Ready`, reload, and shut down.
pub proof fn lemma_lifecycle_path()
    ensures
        valid_transition(State::Uninitialized, State::Initialized),
        valid_transition(State::Initialized, State::EngineLoaded),
        valid_transition(State::EngineLoaded, State::Ready),
        valid_transition(State::Ready, State::EngineLoaded),
        valid_transition(State::Ready, State::Uninitialized),
{
}

} // verus!
