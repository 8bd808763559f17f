use miranda::turn_machine::{Event, Outcome, State, TurnMachine};

#[test]
fn test_normal_turn() {
    let mut m = TurnMachine::new();
    assert_eq!(m.state(), State::Idle);

    assert_eq!(m.handle_event(Event::SpeechStart), Outcome::NoEffect);
    assert_eq!(m.state(), State::Listening);

    assert_eq!(m.handle_event(Event::PartialTranscript("hel".into())), Outcome::PartialAccepted);
    assert_eq!(m.state(), State::ProcessingPartial);

    let outcome = m.handle_event(Event::FinalTranscript("hello eve".into()));
    let gen = match outcome {
        Outcome::RoutingStarted { generation } => generation,
        other => panic!("expected RoutingStarted, got {other:?}"),
    };
    assert_eq!(m.state(), State::ProcessingFinal);

    let final_outcome = m.resolve_final(gen, Ok(("hello eve".into(), "Hi there!".into())));
    assert_eq!(
        final_outcome,
        Outcome::TurnComplete { transcript: "hello eve".into(), reply: "Hi there!".into() }
    );
    assert_eq!(m.state(), State::Idle, "must return to Idle after TurnComplete");
}

#[test]
fn test_interruption() {
    let mut m = TurnMachine::new();
    m.handle_event(Event::SpeechStart);
    m.handle_event(Event::PartialTranscript("hel".into()));
    let outcome = m.handle_event(Event::FinalTranscript("hello".into()));
    let first_gen = match outcome {
        Outcome::RoutingStarted { generation } => generation,
        other => panic!("expected RoutingStarted, got {other:?}"),
    };
    assert_eq!(m.state(), State::ProcessingFinal);

    assert_eq!(m.handle_event(Event::SpeechStart), Outcome::NoEffect);
    assert_eq!(m.state(), State::Listening, "interruption returns to Listening");

    let stale_result = m.resolve_final(first_gen, Ok(("hello".into(), "stale reply".into())));
    assert_eq!(stale_result, Outcome::Superseded);
    assert_eq!(m.state(), State::Listening, "a superseded result must not move the state machine at all");

    let outcome2 = m.handle_event(Event::PartialTranscript("goodbye".into()));
    assert_eq!(outcome2, Outcome::PartialAccepted);
    let outcome3 = m.handle_event(Event::FinalTranscript("goodbye eve".into()));
    let second_gen = match outcome3 {
        Outcome::RoutingStarted { generation } => generation,
        other => panic!("expected RoutingStarted, got {other:?}"),
    };
    assert_ne!(second_gen, first_gen, "the second turn must have a fresh generation");

    let final_outcome = m.resolve_final(second_gen, Ok(("goodbye eve".into(), "Goodbye!".into())));
    assert_eq!(
        final_outcome,
        Outcome::TurnComplete { transcript: "goodbye eve".into(), reply: "Goodbye!".into() }
    );
}

#[test]
fn test_silence_no_dispatch() {
    let mut m = TurnMachine::new();
    assert_eq!(m.state(), State::Idle);
    let outcome = m.handle_event(Event::FinalTranscript("phantom".into()));
    assert_eq!(outcome, Outcome::NoEffect);
    assert_eq!(m.state(), State::Idle, "must not have moved out of Idle");
    let outcome2 = m.handle_event(Event::PartialTranscript("phantom".into()));
    assert_eq!(outcome2, Outcome::NoEffect);
    assert_eq!(m.state(), State::Idle);
}

#[test]
fn resolve_final_surfaces_real_errors() {
    let mut m = TurnMachine::new();
    m.handle_event(Event::SpeechStart);
    m.handle_event(Event::PartialTranscript("hi".into()));
    let outcome = m.handle_event(Event::FinalTranscript("hi eve".into()));
    let gen = match outcome {
        Outcome::RoutingStarted { generation } => generation,
        other => panic!("expected RoutingStarted, got {other:?}"),
    };
    let result = m.resolve_final(gen, Err("NIM returned HTTP 500".into()));
    assert_eq!(result, Outcome::RoutingFailed("NIM returned HTTP 500".into()));
    assert_eq!(m.state(), State::Idle, "must still return to Idle after a failure");
}

#[test]
fn generation_moves_only_on_interruption() {
    let mut m = TurnMachine::new();
    assert_eq!(m.generation(), 0);
    m.handle_event(Event::SpeechStart);
    m.handle_event(Event::SpeechStart);
    m.handle_event(Event::PartialTranscript("a".into()));
    m.handle_event(Event::PartialTranscript("ab".into()));
    assert_eq!(m.generation(), 0);
    m.handle_event(Event::FinalTranscript("abc".into()));
    assert!(m.is_current(0));
    m.handle_event(Event::SpeechStart);
    assert_eq!(m.generation(), 1);
    assert!(!m.is_current(0));
    assert!(m.is_current(1));
}

#[test]
fn cancel_signal_is_shared_with_the_machine() {
    let m = TurnMachine::new();
    let a = m.cancel_signal();
    let b = m.cancel_signal();
    assert!(std::sync::Arc::ptr_eq(&a, &b));
}
