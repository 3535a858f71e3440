//! Record-only mode.

use dl_voice_typing::commands::actions::Action;
use dl_voice_typing::commands::pipeline_state::PipelineState;
use dl_voice_typing::commands::record_only_session::{
    exceeds_drop_threshold, FinalizeInfo, MonitorStep, RecordOnlyPolicy, RecordOnlyPress,
    RecordOnlySession,
};
use dl_voice_typing::commands::{FieldValue, Payload};
use dl_voice_typing::config::{AppConfig, ConfigCache, Language, WhisperModel};
use dl_voice_typing::error::AppError;
use dl_voice_typing::perf::PerfHistory;
use dl_voice_typing::state::StateTag;

fn record_only_config(dir: &str) -> AppConfig {
    AppConfig {
        record_only_enabled: true,
        data_saving_path: dir.to_string(),
        ..Default::default()
    }
}

fn build_ps(config: AppConfig) -> PipelineState {
    PipelineState::new(ConfigCache::new(config), PerfHistory::new())
}

fn events(acts: &[Action]) -> Vec<&'static str> {
    acts.iter()
        .filter_map(|a| match a {
            Action::Emit(name, _) => Some(*name),
            _ => None,
        })
        .collect()
}

fn started(ps: &mut PipelineState) {
    let policy = match RecordOnlySession::on_press(ps).1 {
        RecordOnlyPress::Start(policy) => policy,
        RecordOnlyPress::Ignored => panic!("expected a start"),
    };
    let acts = RecordOnlySession::on_started(ps, policy, Ok("2026-08-18_10-00-00".to_string()));
    assert_eq!(events(&acts), vec!["record-only-started"]);
}

fn info(dropped_blocks: u64) -> Result<FinalizeInfo, AppError> {
    Ok(FinalizeInfo { duration_ms: 12_500, dropped_blocks })
}

#[test]
fn test_press_starts_session() {
    let mut ps = build_ps(record_only_config("dir"));
    started(&mut ps);
    assert_eq!(ps.sm_state(), StateTag::RecordOnly);
    assert!(ps.take_record_only_session().is_some());
}

#[test]
fn test_press_rejected_when_not_idle() {
    let mut ps = build_ps(record_only_config("dir"));
    assert!(ps.sm_start_recording());
    let (acts, step) = RecordOnlySession::on_press(&mut ps);
    assert!(acts.is_empty());
    assert!(matches!(step, RecordOnlyPress::Ignored));
    assert_eq!(ps.sm_state(), StateTag::Recording);
    assert!(ps.take_record_only_session().is_none());
}

#[test]
fn test_press_ignored_when_disabled() {
    let mut cfg = record_only_config("dir");
    cfg.record_only_enabled = false;
    let mut ps = build_ps(cfg);
    RecordOnlySession::on_press(&mut ps);
    assert_eq!(ps.sm_state(), StateTag::Idle);
    assert!(ps.take_record_only_session().is_none());
}

#[test]
fn test_press_empty_path_errors_and_resets() {
    let mut ps = build_ps(record_only_config(""));
    let (acts, _) = RecordOnlySession::on_press(&mut ps);
    assert_eq!(ps.sm_state(), StateTag::Idle);
    assert_eq!(events(&acts), vec!["record-only-error"]);
    assert!(ps.take_record_only_session().is_none());
}

#[test]
fn a_failed_start_is_reported_and_reset() {
    let mut ps = build_ps(record_only_config("dir"));
    let policy = match RecordOnlySession::on_press(&mut ps).1 {
        RecordOnlyPress::Start(policy) => policy,
        RecordOnlyPress::Ignored => panic!("expected a start"),
    };
    let rate = RecordOnlySession::capture_rate(Ok(()), None);
    assert!(matches!(&rate, Err(AppError::Audio(m)) if m == "sample rate unavailable after start"));
    let acts = RecordOnlySession::on_started(&mut ps, policy, Err(rate.err().unwrap()));
    assert!(matches!(&acts[..], [Action::Emit("record-only-error", _), Action::StopCapture]));
    assert_eq!(ps.sm_state(), StateTag::Idle);
    assert_eq!(RecordOnlySession::capture_rate(Ok(()), Some(44_100)).unwrap(), 44_100);
}

#[test]
fn test_recover_happy_path_writes_pending_json() {
    let mut ps = build_ps(record_only_config("dir"));
    started(&mut ps);
    let (acts, session) = RecordOnlySession::recover(&mut ps);
    assert!(matches!(&acts[..], [Action::StopCapture]));
    let session = session.unwrap();
    assert_eq!(session.stem, "2026-08-18_10-00-00");
    let outcome = info(0);
    let (name, metadata) =
        RecordOnlySession::session_json(&session.policy, &session.stem, &outcome, "t".to_string());
    assert_eq!(name, "2026-08-18_10-00-00.json");
    assert_eq!(metadata.source.as_deref(), Some("record_only"));
    assert_eq!(metadata.transcription_status.as_deref(), Some("pending"));
    assert_eq!(metadata.dropped_blocks, 0);
    assert_eq!(metadata.duration_ms, Some(12_500));
    assert_eq!(metadata.sample_rate, Some(16_000));
    assert!(metadata.segments.is_empty());
    assert!(metadata.transcription.is_none());
    let acts = RecordOnlySession::finish_recover(&mut ps, session, &outcome, Ok(()));
    assert_eq!(events(&acts), vec!["record-only-finished"]);
    assert_eq!(ps.sm_state(), StateTag::Idle);
    assert!(ps.take_record_only_session().is_none());
}

#[test]
fn test_recover_json_failure_still_returns_idle() {
    let mut ps = build_ps(record_only_config("dir"));
    started(&mut ps);
    let session = RecordOnlySession::recover(&mut ps).1.unwrap();
    let failed = Err(AppError::Io("is a directory".to_string()));
    let acts = RecordOnlySession::finish_recover(&mut ps, session, &info(0), failed);
    assert_eq!(events(&acts), vec!["record-only-error", "record-only-finished"]);
    assert_eq!(ps.sm_state(), StateTag::Idle);
}

#[test]
fn test_recover_is_idempotent() {
    let mut ps = build_ps(record_only_config("dir"));
    started(&mut ps);
    let session = RecordOnlySession::recover(&mut ps).1.unwrap();
    RecordOnlySession::finish_recover(&mut ps, session, &info(0), Ok(()));
    assert!(RecordOnlySession::recover(&mut ps).1.is_none());
    assert_eq!(ps.sm_state(), StateTag::Idle);
}

#[test]
fn test_recover_orphaned_state_resets() {
    let mut ps = build_ps(record_only_config("dir"));
    assert!(ps.sm_start_record_only());
    assert!(RecordOnlySession::recover(&mut ps).1.is_none());
    assert_eq!(ps.sm_state(), StateTag::Idle);
}

#[test]
fn test_backpressure_monitor_controlled_stop() {
    let mut ps = build_ps(record_only_config("dir"));
    assert_eq!(RecordOnlySession::monitor(&ps, 51), MonitorStep::Exit);
    started(&mut ps);
    assert_eq!(RecordOnlySession::monitor(&ps, 50), MonitorStep::Wait(250));
    assert_eq!(RecordOnlySession::monitor(&ps, 51), MonitorStep::Recover);
    let session = RecordOnlySession::recover(&mut ps).1.unwrap();
    let outcome = info(51);
    let (_, metadata) =
        RecordOnlySession::session_json(&session.policy, &session.stem, &outcome, "t".to_string());
    assert_eq!(metadata.transcription_status.as_deref(), Some("failed"));
    assert_eq!(metadata.dropped_blocks, 51);
    let acts = RecordOnlySession::finish_recover(&mut ps, session, &outcome, Ok(()));
    match &acts[0] {
        Action::Emit("record-only-finished", Payload::Fields(fields)) => {
            assert_eq!(fields[0].name, "stem");
            assert!(matches!(&fields[1].value, FieldValue::Text(s) if s == "failed"));
            assert!(matches!(fields[2].value, FieldValue::Number(51)));
        }
        _ => panic!("expected the event"),
    }
    assert_eq!(ps.sm_state(), StateTag::Idle);
}

#[test]
fn test_on_release_ignores_non_record_only_state() {
    let mut ps = build_ps(record_only_config("dir"));
    assert!(!RecordOnlySession::on_release(&ps));
    assert_eq!(ps.sm_state(), StateTag::Idle);
    started(&mut ps);
    assert!(RecordOnlySession::on_release(&ps));
}

#[test]
fn test_write_session_json_finalize_failure_records_failed() {
    let policy = RecordOnlyPolicy {
        data_saving_path: "dir".to_string(),
        language: Language::Zh,
        whisper_model: WhisperModel::default(),
    };
    let outcome = Err(AppError::Audio("simulated finalize failure".to_string()));
    let (name, parsed) =
        RecordOnlySession::session_json(&policy, "2026-08-19_12-00-00", &outcome, "t".to_string());
    assert_eq!(name, "2026-08-19_12-00-00.json");
    assert_eq!(parsed.transcription_status.as_deref(), Some("failed"));
    assert_eq!(parsed.source.as_deref(), Some("record_only"));
    assert_eq!(parsed.duration_ms, Some(0));
    assert_eq!(parsed.dropped_blocks, 0);
}

#[test]
fn fifty_lost_blocks_are_tolerated() {
    assert!(!exceeds_drop_threshold(0));
    assert!(!exceeds_drop_threshold(50));
    assert!(exceeds_drop_threshold(51));
}
