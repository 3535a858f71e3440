//! The state machine.

use dl_voice_typing::state::{StateMachine, StateTag};

#[test]
fn test_happy_path_with_llm() {
    let mut sm = StateMachine::new();
    assert_eq!(sm.state(), StateTag::Idle);

    sm.start_recording().unwrap();
    assert_eq!(sm.state(), StateTag::Recording);

    sm.stop_recording().unwrap();
    assert_eq!(sm.state(), StateTag::Transcribing);

    sm.start_llm_refining().unwrap();
    assert_eq!(sm.state(), StateTag::LLMRefining);

    sm.llm_to_injecting().unwrap();
    assert_eq!(sm.state(), StateTag::Injecting);

    sm.finish_injecting().unwrap();
    assert_eq!(sm.state(), StateTag::Idle);
}

#[test]
fn test_happy_path_without_llm() {
    let mut sm = StateMachine::new();
    sm.start_recording().unwrap();
    sm.stop_recording().unwrap();
    sm.transcribing_to_injecting().unwrap();
    sm.finish_injecting().unwrap();
    assert_eq!(sm.state(), StateTag::Idle);
}

#[test]
fn test_reset_from_any_state() {
    let mut sm = StateMachine::new();
    sm.start_recording().unwrap();
    sm.reset();
    assert_eq!(sm.state(), StateTag::Idle);

    sm.start_recording().unwrap();
    sm.stop_recording().unwrap();
    sm.reset();
    assert_eq!(sm.state(), StateTag::Idle);
}

#[test]
fn test_invalid_start_recording() {
    let mut sm = StateMachine::new();
    sm.start_recording().unwrap();
    assert!(sm.start_recording().is_err());
}

#[test]
fn test_invalid_stop_recording() {
    let mut sm = StateMachine::new();
    assert!(sm.stop_recording().is_err());
}

#[test]
fn test_invalid_transitions() {
    let mut sm = StateMachine::new();
    assert!(sm.start_llm_refining().is_err());
    assert!(sm.transcribing_to_injecting().is_err());
    assert!(sm.llm_to_injecting().is_err());
    assert!(sm.finish_injecting().is_err());
}

#[test]
fn test_transition_error_message() {
    let mut sm = StateMachine::new();
    let err = sm.stop_recording().unwrap_err();
    assert!(err.to_string().contains("Idle"));
    assert!(err.to_string().contains("Transcribing"));
}

#[test]
fn test_happy_path_with_review() {
    let mut sm = StateMachine::new();
    sm.start_recording().unwrap();
    sm.stop_recording().unwrap();
    sm.transcribing_to_reviewing().unwrap();
    assert_eq!(sm.state(), StateTag::Reviewing);

    sm.reviewing_to_injecting().unwrap();
    assert_eq!(sm.state(), StateTag::Injecting);

    sm.finish_injecting().unwrap();
    assert_eq!(sm.state(), StateTag::Idle);
}

#[test]
fn test_happy_path_with_llm_and_review() {
    let mut sm = StateMachine::new();
    sm.start_recording().unwrap();
    sm.stop_recording().unwrap();
    sm.start_llm_refining().unwrap();

    sm.llm_to_reviewing().unwrap();
    assert_eq!(sm.state(), StateTag::Reviewing);

    sm.reviewing_to_injecting().unwrap();
    sm.finish_injecting().unwrap();
    assert_eq!(sm.state(), StateTag::Idle);
}

#[test]
fn test_review_cancel() {
    let mut sm = StateMachine::new();
    sm.start_recording().unwrap();
    sm.stop_recording().unwrap();
    sm.transcribing_to_reviewing().unwrap();

    sm.cancel_reviewing().unwrap();
    assert_eq!(sm.state(), StateTag::Idle);
}

#[test]
fn test_review_reset() {
    let mut sm = StateMachine::new();
    sm.start_recording().unwrap();
    sm.stop_recording().unwrap();
    sm.transcribing_to_reviewing().unwrap();

    sm.reset();
    assert_eq!(sm.state(), StateTag::Idle);
}

#[test]
fn test_invalid_review_transitions() {
    let mut sm = StateMachine::new();
    assert!(sm.transcribing_to_reviewing().is_err());
    assert!(sm.llm_to_reviewing().is_err());
    assert!(sm.reviewing_to_injecting().is_err());
    assert!(sm.cancel_reviewing().is_err());
}

#[test]
fn record_only_sessions_start_and_end_at_rest() {
    let mut sm = StateMachine::new();
    assert_eq!(sm.state_name(), "Idle");
    sm.start_record_only().unwrap();
    assert_eq!(sm.state_name(), "RecordOnly");
    assert!(sm.start_recording().is_err() && sm.start_record_only().is_err());
    sm.finish_record_only().unwrap();
    assert_eq!(sm.state_name(), "Idle");
    assert!(sm.finish_record_only().is_err());
}

#[test]
fn only_transcribing_and_refining_can_be_cancelled() {
    let mut sm = StateMachine::new();
    assert!(sm.cancel_transcribing_or_llm().is_err());
    sm.start_recording().unwrap();
    assert!(sm.cancel_transcribing_or_llm().is_err());
    sm.stop_recording().unwrap();
    sm.cancel_transcribing_or_llm().unwrap();
    assert_eq!(sm.state_name(), "Idle");
}
