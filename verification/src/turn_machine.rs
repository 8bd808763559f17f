//! Turn-taking state machine for the conversational supervisor.
//!
//! ```text
//! Idle ──SpeechStart──────────────▶ Listening
//! Listening ──PartialTranscript────▶ ProcessingPartial
//! Listening ──SpeechStart──────────▶ Listening          (re-entry)
//! ProcessingPartial ──FinalTranscript▶ ProcessingFinal  (routing starts)
//! ProcessingFinal ──(reply)─────────▶ Idle              (turn complete)
//! ProcessingFinal ──SpeechStart────▶ Listening          (interruption)
//! ```
//!
//! An interruption bumps a generation counter. A routing call captures the
//! generation when it starts, and its result is honoured only while that
//! generation is still current, so a superseded reply can never complete a
//! turn.
use vstd::prelude::*;
use std::sync::Arc;
use tokio::sync::Notify;
use crate::core_types::share_arc;

verus! {

#[verifier::external_type_specification]
#[verifier::external_body]
pub struct ExNotify(tokio::sync::Notify);

/// `tokio::sync::Notify::new`: a fresh notification signal with no waiters.
/// Nothing is stated of the value, which the library only hands on.
#[verifier::external_body]
fn new_cancel_signal() -> Notify {
    Notify::new()
}

/// `tokio::sync::Notify::notify_waiters`: wakes every task currently waiting
/// on the signal. It touches no state of this machine.
#[verifier::external_body]
fn wake_cancel_waiters(signal: &Notify) {
    signal.notify_waiters()
}

/// The four turn-taking states.
#[derive(Debug, Clone, Copy, PartialEq, Eq, Structural)]
pub enum State {
    Idle,
    Listening,
    ProcessingPartial,
    ProcessingFinal,
}

/// Events the machine reacts to.
#[derive(Debug, Clone)]
pub enum Event {
    SpeechStart,
    PartialTranscript(String),
    FinalTranscript(String),
}

/// What the machine did in response to one event or one routing result.
#[derive(Debug, Clone, PartialEq)]
pub enum Outcome {
    /// No externally visible effect.
    NoEffect,
    /// A partial transcript was accepted.
    PartialAccepted,
    /// The final transcript is being routed; the call is bound to `generation`.
    RoutingStarted { generation: u64 },
    /// The routing call answered while still current: the turn is complete.
    TurnComplete { transcript: String, reply: String },
    /// A routing call answered after an interruption and was discarded.
    Superseded,
    /// The routing call itself failed.
    RoutingFailed(String),
}

/// State, generation and outcome after `event` in state `s` at generation `generation`.
pub open spec fn next_turn(s: State, generation: u64, event: Event) -> (State, u64, Outcome) {
    match (s, event) {
        (State::Idle, Event::SpeechStart) => (State::Listening, generation, Outcome::NoEffect),
        (State::Listening, Event::SpeechStart) => (State::Listening, generation, Outcome::NoEffect),
        (State::Listening, Event::PartialTranscript(_)) => (State::ProcessingPartial, generation, Outcome::PartialAccepted),
        (State::ProcessingPartial, Event::PartialTranscript(_)) => (State::ProcessingPartial, generation, Outcome::PartialAccepted),
        (State::ProcessingPartial, Event::FinalTranscript(_)) =>
            (State::ProcessingFinal, generation, Outcome::RoutingStarted { generation }),
        (State::ProcessingFinal, Event::SpeechStart) =>
            (State::Listening, vstd::wrapping::u64_specs::wrapping_add(generation, 1), Outcome::NoEffect),
        (_, _) => (s, generation, Outcome::NoEffect),
    }
}

/// State and outcome when a routing call bound to `call_generation` answers
/// with `result` while the machine is in state `s` at generation `generation`.
pub open spec fn resolve_turn(
    s: State,
    generation: u64,
    call_generation: u64,
    result: Result<(String, String), String>,
) -> (State, Outcome) {
    if call_generation != generation {
        (s, Outcome::Superseded)
    } else {
        match result {
            Ok((transcript, reply)) => (State::Idle, Outcome::TurnComplete { transcript, reply }),
            Err(e) => (State::Idle, Outcome::RoutingFailed(e)),
        }
    }
}

/// The turn-taking machine.
pub struct TurnMachine {
    state: State,
    /// Bumped on every interruption, wrapping at `u64::MAX`.
    generation: u64,
    /// Signalled on interruption so an in-flight call can wake promptly.
    cancel: Arc<Notify>,
}

impl TurnMachine {
    /// The current state.
    pub closed spec fn spec_state(&self) -> State {
        self.state
    }

    /// The current generation.
    pub closed spec fn spec_generation(&self) -> u64 {
        self.generation
    }

    /// The cancellation signal this machine fires on interruption.
    pub closed spec fn spec_cancel(&self) -> Arc<Notify> {
        self.cancel
    }

    /// A machine in `Idle` at generation 0.
    pub fn new() -> (m: Self)
        ensures
            m.spec_state() == State::Idle,
            m.spec_generation() == 0,
    {
        TurnMachine { state: State::Idle, generation: 0, cancel: Arc::new(new_cancel_signal()) }
    }

    /// The current state.
    pub fn state(&self) -> (s: State)
        ensures
            s == self.spec_state(),
    {
        self.state
    }

    /// The current generation: a routing call's result is honoured only
    /// while this is still the generation it captured.
    pub fn generation(&self) -> (g: u64)
        ensures
            g == self.spec_generation(),
    {
        self.generation
    }

    /// True iff `gen` is still the current generation.
    pub fn is_current(&self, gen: u64) -> (b: bool)
        ensures
            b == (gen == self.spec_generation()),
    {
        self.generation == gen
    }

    /// Another handle on the machine's cancellation signal, for racing a
    /// routing call against interruption.
    pub fn cancel_signal(&self) -> (r: Arc<Notify>)
        ensures
            r == self.spec_cancel(),
    {
        share_arc(&self.cancel)
    }

    /// Applies one event. Every (state, event) pairing not in the diagram
    /// is a no-op returning `Outcome::NoEffect`.
    pub fn handle_event(&mut self, event: Event) -> (r: Outcome)
        ensures
            (final(self).spec_state(), final(self).spec_generation(), r)
                == next_turn(old(self).spec_state(), old(self).spec_generation(), event),
            final(self).spec_cancel() == old(self).spec_cancel(),
    {
        match (self.state, event) {
            (State::Idle, Event::SpeechStart) => {
                self.state = State::Listening;
                Outcome::NoEffect
            },
            (State::Listening, Event::SpeechStart) => Outcome::NoEffect,
            (State::Listening, Event::PartialTranscript(_)) => {
                self.state = State::ProcessingPartial;
                Outcome::PartialAccepted
            },
            (State::ProcessingPartial, Event::PartialTranscript(_)) => Outcome::PartialAccepted,
            (State::ProcessingPartial, Event::FinalTranscript(_)) => {
                self.state = State::ProcessingFinal;
                Outcome::RoutingStarted { generation: self.generation }
            },
            (State::ProcessingFinal, Event::SpeechStart) => {
                self.generation = self.generation.wrapping_add(1);
                wake_cancel_waiters(&self.cancel);
                self.state = State::Listening;
                Outcome::NoEffect
            },
            (_, _) => Outcome::NoEffect,
        }
    }

    /// Applies the answer of a routing call bound to `generation`. A stale
    /// generation yields `Superseded` and leaves the machine untouched.
    pub fn resolve_final(&mut self, generation: u64, result: Result<(String, String), String>) -> (r: Outcome)
        ensures
            (final(self).spec_state(), r)
                == resolve_turn(old(self).spec_state(), old(self).spec_generation(), generation, result),
            final(self).spec_generation() == old(self).spec_generation(),
            final(self).spec_cancel() == old(self).spec_cancel(),
    {
        if !self.is_current(generation) {
            return Outcome::Superseded;
        }
        match result {
            Ok((transcript, reply)) => {
                self.state = State::Idle;
                Outcome::TurnComplete { transcript, reply }
            },
            Err(e) => {
                self.state = State::Idle;
                Outcome::RoutingFailed(e)
            },
        }
    }
}

/// An interruption makes the in-flight call stale: after `SpeechStart` in
/// `ProcessingFinal`, the machine is `Listening`, and the answer of the call
/// started before it is discarded as `Superseded` without moving the machine.
pub proof fn law_interruption_supersedes_inflight_call(
    generation: u64,
    result: Result<(String, String), String>,
)
    ensures
        ({
            let (s1, g1, o1) = next_turn(State::ProcessingFinal, generation, Event::SpeechStart);
            &&& s1 == State::Listening
            &&& o1 == Outcome::NoEffect
            &&& g1 != generation
            &&& resolve_turn(s1, g1, generation, result) == (s1, Outcome::Superseded)
        }),
{
}

/// A final transcript starts routing bound to the current generation, and
/// an answer for that generation completes the turn and returns to `Idle`.
pub proof fn law_current_reply_completes_turn(generation: u64, text: String, transcript: String, reply: String)
    ensures
        next_turn(State::ProcessingPartial, generation, Event::FinalTranscript(text))
            == (State::ProcessingFinal, generation, Outcome::RoutingStarted { generation }),
        resolve_turn(State::ProcessingFinal, generation, generation, Ok((transcript, reply)))
            == (State::Idle, Outcome::TurnComplete { transcript, reply }),
{
}

/// Silence dispatches nothing: in `Idle`, transcripts that were not
/// preceded by `SpeechStart` leave the machine in `Idle` with no outcome.
pub proof fn law_idle_ignores_transcripts(generation: u64, text: String)
    ensures
        next_turn(State::Idle, generation, Event::PartialTranscript(text)) == (State::Idle, generation, Outcome::NoEffect),
        next_turn(State::Idle, generation, Event::FinalTranscript(text)) == (State::Idle, generation, Outcome::NoEffect),
{
}

/// Only an interruption moves the generation, and only a final transcript
/// in `ProcessingPartial` starts routing.
pub proof fn law_generation_moves_only_on_interruption(s: State, generation: u64, event: Event)
    ensures
        ({
            let (s1, g1, o1) = next_turn(s, generation, event);
            &&& (g1 != generation <==> (s == State::ProcessingFinal && event is SpeechStart))
            &&& (o1 is RoutingStarted <==> (s == State::ProcessingPartial && event is FinalTranscript))
        }),
{
}

/// Whether `event` in state `s` is an edge of the turn-taking diagram:
/// `Idle` or `Listening` on speech start; `Listening` or
/// `ProcessingPartial` on a partial transcript; `ProcessingPartial` on the
/// final transcript; `ProcessingFinal` on speech start (an interruption).
pub open spec fn is_diagram_edge(s: State, event: Event) -> bool {
    ||| s == State::Idle && event is SpeechStart
    ||| s == State::Listening && event is SpeechStart
    ||| s == State::Listening && event is PartialTranscript
    ||| s == State::ProcessingPartial && event is PartialTranscript
    ||| s == State::ProcessingPartial && event is FinalTranscript
    ||| s == State::ProcessingFinal && event is SpeechStart
}

/// Off the diagram nothing happens: every other pairing of state and event
/// leaves the state and the generation as they were and has no effect. A
/// final transcript while still listening, for one, keeps the machine
/// listening.
pub proof fn law_events_off_the_diagram_change_nothing(s: State, generation: u64, event: Event)
    requires
        !is_diagram_edge(s, event),
    ensures
        next_turn(s, generation, event) == (s, generation, Outcome::NoEffect),
{
}

/// The edges of the diagram: where each event leads from each state, and
/// what it reports. Speech start begins (or extends, or interrupts into) an
/// utterance; partials are accepted while listening or processing them;
/// the final transcript after partials starts routing; only the
/// interruption moves the generation.
pub proof fn law_turn_diagram_edges(generation: u64, text: String)
    ensures
        next_turn(State::Idle, generation, Event::SpeechStart) == (State::Listening, generation, Outcome::NoEffect),
        next_turn(State::Listening, generation, Event::SpeechStart) == (State::Listening, generation, Outcome::NoEffect),
        next_turn(State::Listening, generation, Event::PartialTranscript(text))
            == (State::ProcessingPartial, generation, Outcome::PartialAccepted),
        next_turn(State::ProcessingPartial, generation, Event::PartialTranscript(text))
            == (State::ProcessingPartial, generation, Outcome::PartialAccepted),
        next_turn(State::ProcessingPartial, generation, Event::FinalTranscript(text))
            == (State::ProcessingFinal, generation, Outcome::RoutingStarted { generation }),
        next_turn(State::ProcessingFinal, generation, Event::SpeechStart)
            == (State::Listening, vstd::wrapping::u64_specs::wrapping_add(generation, 1), Outcome::NoEffect),
{
}

/// Only an answer ends a turn: no event returns the machine to `Idle` from
/// any other state, and no event leaves `ProcessingFinal` except an
/// interruption.
pub proof fn law_events_never_end_a_turn(s: State, generation: u64, event: Event)
    ensures
        s != State::Idle ==> next_turn(s, generation, event).0 != State::Idle,
        (s == State::ProcessingFinal && !(event is SpeechStart)) ==> next_turn(s, generation, event).0 == State::ProcessingFinal,
{
}

} // verus!
