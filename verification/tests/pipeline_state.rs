//! The state that the steps of a dictation share.

use dl_voice_typing::commands::pipeline_state::{CancelToken, PipelineState};
use dl_voice_typing::commands::record_only_session::{ActiveRecordOnly, RecordOnlyPolicy};
use dl_voice_typing::config::{AppConfig, ConfigCache, Language, WhisperModel};
use dl_voice_typing::perf::PerfHistory;
use dl_voice_typing::realtime::RealtimeTranscriber;
use dl_voice_typing::state::StateTag;

fn build_test_ps() -> PipelineState {
    PipelineState::new(ConfigCache::new(AppConfig::default()), PerfHistory::new())
}

#[test]
fn test_sm_verbs_cover_all_transitions() {
    let mut ps = build_test_ps();
    assert_eq!(ps.sm_state(), StateTag::Idle);

    assert!(ps.sm_start_recording());
    assert_eq!(ps.sm_state(), StateTag::Recording);
    assert!(ps.sm_stop_recording());
    assert_eq!(ps.sm_state(), StateTag::Transcribing);
    assert!(ps.sm_transcribing_to_injecting());
    assert_eq!(ps.sm_state(), StateTag::Injecting);
    assert!(ps.sm_finish_injecting());
    assert_eq!(ps.sm_state(), StateTag::Idle);

    ps.sm_start_recording();
    ps.sm_stop_recording();
    assert!(ps.sm_start_llm_refining());
    assert_eq!(ps.sm_state(), StateTag::LLMRefining);
    assert!(ps.sm_llm_to_injecting());
    assert!(ps.sm_finish_injecting());

    ps.sm_start_recording();
    ps.sm_stop_recording();
    assert!(ps.sm_transcribing_to_reviewing());
    assert_eq!(ps.sm_state(), StateTag::Reviewing);
    assert!(ps.sm_reviewing_to_injecting());
    assert!(ps.sm_finish_injecting());

    ps.sm_start_recording();
    ps.sm_stop_recording();
    ps.sm_start_llm_refining();
    assert!(ps.sm_llm_to_reviewing());
    assert!(ps.sm_reviewing_to_injecting());
    assert!(ps.sm_finish_injecting());

    ps.sm_start_recording();
    ps.sm_stop_recording();
    ps.sm_transcribing_to_reviewing();
    assert!(ps.sm_cancel_reviewing());
    assert_eq!(ps.sm_state(), StateTag::Idle);

    ps.sm_start_recording();
    ps.sm_reset();
    assert_eq!(ps.sm_state(), StateTag::Idle);

    assert!(!ps.sm_stop_recording()); // Idle cannot go to Transcribing
    assert_eq!(ps.sm_state(), StateTag::Idle);
}

#[test]
fn test_sm_verbs_control_flow_equivalence() {
    let mut ps = build_test_ps();
    let can_record = ps.sm_start_recording();
    assert!(can_record);
    let stop_ok = ps.sm_stop_recording();
    assert!(stop_ok);
}

#[test]
fn test_sm_record_only_verbs() {
    let mut ps = build_test_ps();
    assert_eq!(ps.sm_state(), StateTag::Idle);

    assert!(ps.sm_start_record_only());
    assert_eq!(ps.sm_state(), StateTag::RecordOnly);
    assert!(ps.sm_finish_record_only());
    assert_eq!(ps.sm_state(), StateTag::Idle);

    assert!(!ps.sm_finish_record_only());
    assert!(ps.sm_start_recording());
    assert!(!ps.sm_start_record_only());
    ps.sm_reset();
    assert_eq!(ps.sm_state(), StateTag::Idle);
}

#[test]
fn cancel_token_slot_set_take_roundtrip() {
    let mut ps = build_test_ps();
    assert!(ps.take_cancel_token().is_none(), "slot starts empty");

    let token = CancelToken::new(3);
    ps.set_cancel_token(token);
    let taken = ps.take_cancel_token();
    assert!(taken.is_some());
    let Some(taken) = taken else { return };
    assert_eq!(taken, token, "same token comes back out");
    assert!(ps.take_cancel_token().is_none(), "take-once semantics");
}

#[test]
fn cancel_token_snapshot_is_fresh_false_when_slot_empty() {
    let mut ps = build_test_ps();
    let snap = ps.cancel_token_snapshot();
    assert!(!snap.cancelled);
    let token = CancelToken::new(3);
    ps.set_cancel_token(token);
    let snap = ps.cancel_token_snapshot();
    assert_eq!(snap, token);
    ps.set_cancel_token(CancelToken { id: 3, cancelled: true });
    let snap = ps.cancel_token_snapshot();
    assert!(snap.cancelled);
    assert!(ps.take_cancel_token().is_some());
}

#[test]
fn test_record_only_session_slot_roundtrip() {
    let mut ps = build_test_ps();
    assert!(ps.take_record_only_session().is_none());
    ps.set_record_only_session(ActiveRecordOnly {
        stem: "2026-08-18_10-00-00".to_string(),
        policy: RecordOnlyPolicy {
            data_saving_path: "dir".to_string(),
            language: Language::Zh,
            whisper_model: WhisperModel::default(),
        },
    });
    let taken = ps.take_record_only_session();
    assert!(taken.is_some());
    assert!(ps.take_record_only_session().is_none());
}

#[test]
fn stopping_hands_out_what_was_gathered_once() {
    let mut ps = build_test_ps();
    let mut rt = RealtimeTranscriber::start(48_000);
    rt.accumulated = "说了".to_string();
    ps.realtime = Some(rt);
    let (acts, text) = ps.stop_recording_resources();
    assert_eq!(acts.len(), 2);
    assert_eq!(text.as_deref(), Some("说了"));
    let (acts, text) = ps.stop_recording_resources();
    assert_eq!(acts.len(), 1);
    assert!(text.is_none());
    ps.realtime = Some(RealtimeTranscriber::start(48_000));
    assert!(ps.stop_recording_resources().1.is_none());
    ps.realtime = Some(RealtimeTranscriber::start(48_000));
    assert_eq!(ps.stop_recording_resources_graceful().len(), 2);
    assert!(ps.realtime.is_none());
}
