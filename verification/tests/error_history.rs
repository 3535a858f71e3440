//! The errors that were shown to the user.

use dl_voice_typing::commands::error_history::{
    extract_message, is_recorded_event, ErrorHistory, RecordingEmitter,
};
use dl_voice_typing::commands::settings::get_last_errors;
use dl_voice_typing::commands::{text_field, EventEmitter, Field, FieldValue, MockEmitter, Payload};

fn text(s: &str) -> Payload {
    Payload::Text(s.to_string())
}

#[test]
fn capacity_truncates_to_20_keeping_newest() {
    let mut history = ErrorHistory::new();
    for i in 0..25 {
        history.record("t", "speech-error", &text(&format!("err-{i}")));
    }
    let all = history.recent(Some(25));
    assert_eq!(all.len(), 20);
    assert_eq!(all.first().unwrap().message, "err-5");
    assert_eq!(all.last().unwrap().message, "err-24");
}

#[test]
fn extracts_bare_string_and_object_message_payloads() {
    let mut history = ErrorHistory::new();
    history.record("t", "llm-error", &text("裸串文案"));
    history.record("t", "record-only-error", &text_field("message", "对象文案"));
    history.record("t", "injection-error", &Payload::Null);
    let all = history.recent(Some(10));
    assert_eq!(all[0].message, "裸串文案");
    assert_eq!(all[1].message, "对象文案");
    assert_eq!(all[2].message, "");
}

#[test]
fn truncates_long_messages_at_500_chars() {
    let mut history = ErrorHistory::new();
    history.record("t", "speech-error", &text(&"x".repeat(600)));
    let all = history.recent(Some(1));
    assert_eq!(all[0].message.chars().count(), 500);
}

#[test]
fn recent_defaults_to_3() {
    let mut history = ErrorHistory::new();
    for i in 0..5 {
        history.record("t", "speech-error", &text(&format!("e{i}")));
    }
    let recent = history.recent(None);
    assert_eq!(
        recent.iter().map(|r| r.message.as_str()).collect::<Vec<_>>(),
        vec!["e2", "e3", "e4"]
    );
    assert_eq!(history.recent(Some(2)).len(), 2);
    assert_eq!(get_last_errors(&history, None).len(), 3);
}

#[test]
fn recording_emitter_records_errors_and_forwards_all() {
    let mut emitter = RecordingEmitter::new(MockEmitter::new(), ErrorHistory::new());

    emitter.emit_at("t1", "speech-error", text("boom"));
    emitter.emit_at("t2", "llm-error", text("bad"));
    emitter.emit_at("t3", "transcription-done", Payload::Fields(Vec::new()));
    emitter.emit_at("t4", "perf-metrics", Payload::Fields(Vec::new()));

    let recorded = emitter.history.recent(Some(10));
    assert_eq!(recorded.len(), 2);
    assert_eq!(recorded[0].event, "speech-error");
    assert_eq!(recorded[0].timestamp, "t1");
    assert_eq!(recorded[1].event, "llm-error");

    let forwarded = emitter.inner.take_events();
    let names: Vec<&str> = forwarded.iter().map(|(e, _)| e.as_str()).collect();
    assert_eq!(
        names,
        vec!["speech-error", "llm-error", "transcription-done", "perf-metrics"]
    );
    assert!(emitter.inner.take_events().is_empty());
}

#[test]
fn numbers_are_no_messages() {
    let payload = Payload::Fields(vec![
        Field { name: "other".to_string(), value: FieldValue::Text("x".to_string()) },
        Field { name: "message".to_string(), value: FieldValue::Number(7) },
    ]);
    assert_ne!(extract_message(&payload), "x");
}

#[test]
fn only_errors_are_recorded() {
    for name in ["speech-error", "llm-error", "injection-error", "record-only-error"] {
        assert!(is_recorded_event(name), "{name}");
    }
    for name in ["", "error", "recording-start", "perf-metrics", "download-progress"] {
        assert!(!is_recorded_event(name), "{name}");
    }
}

#[test]
fn events_are_handed_out_once() {
    let mut m = MockEmitter::new();
    m.emit("a", Payload::Null);
    m.emit("b", text("x"));
    let events = m.take_events();
    assert_eq!(events.len(), 2);
    assert_eq!(events[1].0, "b");
    assert!(m.take_events().is_empty());
}
