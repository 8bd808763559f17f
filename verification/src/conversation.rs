//! Conversation-level state machine: a placeholder whose transitions do
//! not yet change anything.
use vstd::prelude::*;

verus! {

/// The mood signal a conversation transition reads. It carries no fields.
pub struct MoodVector;

/// The conversation state machine. It has no state.
pub struct StateMachine;

impl StateMachine {
    /// The (only) state machine value.
    pub fn new() -> (m: Self)
        ensures
            m == StateMachine,
    {
        StateMachine
    }

    /// Applies a mood, events and an optional context. No transition is
    /// defined yet, so the machine is left as it was.
    pub fn transition(&mut self, _m: &MoodVector, _e: &[String], _c: Option<&str>)
        ensures
            *final(self) == *old(self),
    {
    }
}

} // verus!
