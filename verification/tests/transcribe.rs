//! Transcribing saved recordings.

use dl_voice_typing::clipboard::MockClipboard;
use dl_voice_typing::commands::actions::Action;
use dl_voice_typing::commands::data_management::names::ChildProbe;
use dl_voice_typing::commands::pipeline_state::PipelineState;
use dl_voice_typing::commands::transcribe::{
    do_inject, get_recording_segments, note_error, report_progress, run_transcription,
    segments_from_metadata, task_failed, transcript_corrected, transcript_written,
    write_final_text, LlmChoice, NoteFault, PendingTranscribe, TargetEvent, TargetStep,
    TranscribeNext,
};
use dl_voice_typing::commands::{FieldValue, Payload};
use dl_voice_typing::config::{AppConfig, ConfigCache};
use dl_voice_typing::data_saving::{set_segment_result, RecordingMetadata};
use dl_voice_typing::error::{AppError, CommandError};
use dl_voice_typing::llm::LLMClient;
use dl_voice_typing::perf::PerfHistory;
use dl_voice_typing::speech::Segment;
use dl_voice_typing::wav::write_wav;

const STEM: &str = "2026-08-18_10-00-00";

fn build_ps(config: AppConfig) -> PipelineState {
    PipelineState::new(ConfigCache::new(config), PerfHistory::new())
}

fn saving() -> PipelineState {
    build_ps(AppConfig { data_saving_path: "dir".to_string(), ..Default::default() })
}

fn llm_config() -> AppConfig {
    AppConfig {
        llm_enabled: true,
        llm_api_url: "http://llm.local".to_string(),
        llm_api_key: "k".to_string(),
        llm_model: "m".to_string(),
        ..Default::default()
    }
}

fn probe(path: &str) -> ChildProbe {
    ChildProbe { plain: path.to_string(), canonical: Some((path.to_string(), true)), exists: true }
}

fn outside() -> ChildProbe {
    ChildProbe { plain: "p".to_string(), canonical: Some(("q".to_string(), false)), exists: true }
}

fn event_names(acts: &[Action]) -> Vec<&'static str> {
    acts.iter()
        .map(|a| match a {
            Action::Emit(name, _) => *name,
            _ => "other",
        })
        .collect()
}

fn segment(text: &str) -> Segment {
    Segment { text: text.to_string(), start_ms: 0, end_ms: 1000 }
}

#[test]
fn test_begin_transcription_rejects_reentry() {
    let mut pt = PendingTranscribe::new();
    let first = pt.begin_transcription();
    assert!(first.is_ok());
    let second = pt.begin_transcription();
    assert!(second.is_err());
    pt.end_transcription();
    let third = pt.begin_transcription();
    assert!(third.is_ok());
}

#[test]
fn test_cancel_token_set_on_window_close() {
    let mut pt = PendingTranscribe::new();
    let token = pt.begin_transcription().ok().unwrap();
    assert!(!token.cancelled);
    let acts = pt.on_transcribe_window_closed();
    assert!(matches!(&acts[..], [Action::CancelTranscription(id)] if *id == token.id));
    assert!(pt.cancel_token.is_none());
    assert!(pt.cancel_transcription().1.is_err());
    assert!(pt.on_transcribe_window_closed().is_empty());
}

#[test]
fn test_window_close_clears_hwnd() {
    let mut pt = PendingTranscribe::new();
    pt.hwnd = Some(12345);
    pt.on_transcribe_window_closed();
    assert!(pt.hwnd.is_none());
}

#[test]
fn a_transcription_in_flight_can_be_cancelled() {
    let mut pt = PendingTranscribe::new();
    let token = pt.begin_transcription().ok().unwrap();
    let (acts, r) = pt.cancel_transcription();
    assert!(r.is_ok());
    assert!(matches!(&acts[..], [Action::CancelTranscription(id)] if *id == token.id));
    assert_eq!(pt.cancel_token.map(|t| (t.id, t.cancelled)), Some((token.id, true)));
    let e = pt.open_window(5).err().unwrap();
    assert_eq!(e.message, "转录进行中，请等待完成或取消");
    pt.end_transcription();
    assert!(pt.open_window(5).is_ok());
    assert_eq!(pt.hwnd, Some(5));
    assert!(PendingTranscribe::window_opened(Some(Ok(()))).is_ok());
    let e = PendingTranscribe::window_opened(None).err().unwrap();
    assert_eq!(e.message, "转录窗口未初始化");
    let e = PendingTranscribe::window_opened(Some(Err("gone".to_string()))).err().unwrap();
    assert_eq!(e.message, "显示转录窗口失败: gone");
}

#[test]
fn test_run_transcription_happy_path() {
    let ps = build_ps(AppConfig::default());
    let mut pending = RecordingMetadata {
        transcription_status: Some("pending".to_string()),
        source: Some("record_only".to_string()),
        ..Default::default()
    };
    let (acts, next) =
        run_transcription(&ps, STEM, false, Ok(vec![segment("测试转录文本")]), false);
    assert!(acts.is_empty());
    let t = match next {
        TranscribeNext::Write(t) => t,
        _ => panic!("expected a result"),
    };
    set_segment_result(&mut pending, &t.segments, &t.transcription, t.llm_corrected.as_deref());
    assert_eq!(pending.transcription_status.as_deref(), Some("done"));
    assert_eq!(pending.transcription.as_deref(), Some("测试转录文本"));
    assert_eq!(pending.segments.len(), 1);
    assert!(pending.llm_corrected.is_none());
    let acts = transcript_written(STEM, Ok(()));
    assert_eq!(event_names(&acts), vec!["transcription-done"]);
    let acts = transcript_written(STEM, Err(AppError::Io("full".to_string())));
    assert_eq!(event_names(&acts), vec!["transcription-error"]);
}

#[test]
fn test_run_transcription_cancelled_keeps_pending() {
    let ps = build_ps(AppConfig::default());
    let (acts, next) = run_transcription(
        &ps,
        "2026-08-18_10-00-01",
        true,
        Err(AppError::Speech("cancelled".to_string())),
        false,
    );
    assert_eq!(event_names(&acts), vec!["transcription-cancelled"]);
    assert!(matches!(next, TranscribeNext::Done));
}

#[test]
fn a_failed_transcription_is_reported() {
    let ps = build_ps(AppConfig::default());
    let failed = Err(AppError::Speech("no model".to_string()));
    let (acts, next) = run_transcription(&ps, STEM, false, failed, true);
    assert!(matches!(next, TranscribeNext::Done));
    match &acts[..] {
        [Action::Emit("transcription-error", Payload::Fields(f))] => {
            assert!(matches!(&f[0].value, FieldValue::Text(s) if s == "转录失败，请查看日志"));
        }
        _ => panic!("expected the event"),
    }
}

#[test]
fn test_run_transcription_with_llm_correction() {
    let mut ps = build_ps(llm_config());
    ps.cached_llm =
        Some(LLMClient::new("http://llm.local".to_string(), "k".to_string(), "m".to_string()));
    let (acts, next) = run_transcription(&ps, STEM, false, Ok(vec![segment("原文")]), true);
    assert_eq!(event_names(&acts), vec!["transcription-progress"]);
    let t = match next {
        TranscribeNext::Correct(t, LlmChoice::Cached) => t,
        _ => panic!("expected a correction by the client at hand"),
    };
    let (acts, t) = transcript_corrected(t, Ok("纠正后的文本".to_string()));
    assert!(acts.is_empty());
    assert_eq!(t.llm_corrected.as_deref(), Some("纠正后的文本"));
    assert_eq!(t.transcription, "原文");
}

#[test]
fn a_correction_may_need_a_new_client_or_fail() {
    let ps = build_ps(llm_config());
    let (_, next) = run_transcription(&ps, STEM, false, Ok(vec![segment("原文")]), true);
    let t = match next {
        TranscribeNext::Correct(t, LlmChoice::Fresh(c)) => {
            assert!(c.matches_config("http://llm.local", "k", "m"));
            t
        }
        _ => panic!("expected a correction by a new client"),
    };
    let (acts, t) = transcript_corrected(t, Err(AppError::Llm("down".to_string())));
    assert_eq!(event_names(&acts), vec!["transcription-error"]);
    assert!(t.llm_corrected.is_none());
    let off = build_ps(AppConfig { llm_api_key: String::new(), ..llm_config() });
    let (acts, next) = run_transcription(&off, STEM, false, Ok(vec![segment("原文")]), true);
    assert!(acts.is_empty());
    assert!(matches!(next, TranscribeNext::Write(_)));
}

#[test]
fn test_segments_from_metadata_defaults_for_classic() {
    let metadata = RecordingMetadata {
        duration_ms: Some(2500),
        transcription: Some("你好".to_string()),
        ..Default::default()
    };
    let out = segments_from_metadata(&metadata);
    assert!(out.segments.is_empty());
    assert_eq!(out.duration_ms, 2500);
    assert_eq!(out.transcription_status, "pending");
    assert_eq!(out.dropped_blocks, 0);
}

#[test]
fn test_segments_from_metadata_full() {
    let metadata = RecordingMetadata {
        duration_ms: Some(1000),
        segments: vec![segment("你好")],
        transcription_status: Some("done".to_string()),
        dropped_blocks: 3,
        ..Default::default()
    };
    let out = segments_from_metadata(&metadata);
    assert_eq!(out.segments.len(), 1);
    assert_eq!(out.segments[0].text, "你好");
    assert_eq!(out.transcription_status, "done");
    assert_eq!(out.dropped_blocks, 3);
    let long = RecordingMetadata { duration_ms: Some(u64::MAX), ..Default::default() };
    assert_eq!(segments_from_metadata(&long).duration_ms, u32::MAX);
}

fn inject(
    clipboard: &mut MockClipboard,
    text: &str,
    valid: bool,
    focus: bool,
) -> Result<(), CommandError> {
    let mut step = do_inject(text, TargetEvent::Begin(valid));
    loop {
        step = match step {
            TargetStep::Save => do_inject(text, TargetEvent::Saved(clipboard.save())),
            TargetStep::Focus => do_inject(text, TargetEvent::Focused(focus)),
            TargetStep::Paste(t) => {
                let pasted = clipboard.inject_text(&t);
                do_inject(text, TargetEvent::Pasted(pasted))
            }
            TargetStep::CopyAndFail(t, e) => {
                let _ = clipboard.set_text(&t);
                return Err(e);
            }
            TargetStep::Fail(e) => return Err(e),
            TargetStep::RestoreAndFail(e) => {
                let _ = clipboard.restore();
                return Err(e);
            }
            TargetStep::RestoreAndFinish => {
                let _ = clipboard.restore();
                return Ok(());
            }
        };
    }
}

#[test]
fn test_do_inject_invalid_hwnd_leaves_clipboard() {
    let mut clipboard = MockClipboard::new();
    let result = inject(&mut clipboard, "注入文本", false, false);
    assert!(result.is_err());
    if let Err(e) = result {
        assert!(e.message.contains("剪贴板"));
    }
    assert_eq!(clipboard.set_texts, vec!["注入文本".to_string()]);
    assert!(clipboard.injected.is_empty());
}

#[test]
fn test_do_inject_focus_failure_leaves_clipboard() {
    let mut clipboard = MockClipboard::new();
    let result = inject(&mut clipboard, "聚焦失败文本", true, false);
    assert!(result.is_err());
    assert!(clipboard.saved);
    assert_eq!(clipboard.set_texts, vec!["聚焦失败文本".to_string()]);
    assert!(clipboard.injected.is_empty());
    assert!(!clipboard.restored);
}

#[test]
fn test_do_inject_success_path() {
    let mut clipboard = MockClipboard::new();
    let result = inject(&mut clipboard, "成功文本", true, true);
    assert!(result.is_ok());
    assert!(clipboard.saved);
    assert_eq!(clipboard.injected, vec!["成功文本".to_string()]);
    assert!(clipboard.restored);
}

#[test]
fn test_do_inject_save_failure_aborts() {
    let mut clipboard = MockClipboard::new().with_save_error("clipboard busy");
    let result = inject(&mut clipboard, "文本", true, true);
    assert!(result.is_err());
    assert!(clipboard.injected.is_empty());
}

#[test]
fn test_write_final_text_preserves_transcription() {
    let mut m = RecordingMetadata {
        transcription_status: Some("pending".to_string()),
        ..Default::default()
    };
    set_segment_result(&mut m, &vec![segment("原始转录")], "原始转录", Some("LLM纠正"));
    write_final_text(&mut m, "编辑后注入文本");
    assert_eq!(m.final_text.as_deref(), Some("编辑后注入文本"));
    assert_eq!(m.transcription.as_deref(), Some("原始转录"));
    assert_eq!(m.llm_corrected.as_deref(), Some("LLM纠正"));
    assert_eq!(m.transcription_status.as_deref(), Some("done"));
}

#[test]
fn unusable_notes_are_reported() {
    let e = note_error(NoteFault::Unreadable("gone".to_string()));
    assert_eq!((e.code.as_str(), e.message.as_str()), ("IO", "failed to read recording metadata: gone"));
    let ps = saving();
    let broken = Err(NoteFault::Unparsable("eof".to_string()));
    let e = get_recording_segments(&ps, STEM, probe("j"), broken).err().unwrap();
    assert_eq!(e.message, "failed to parse recording metadata: eof");
    let ok = Ok(RecordingMetadata::default());
    assert!(get_recording_segments(&ps, "../x", probe("j"), ok).is_err());
    let ok = Ok(RecordingMetadata::default());
    assert!(get_recording_segments(&ps, STEM, probe("j"), ok).is_ok());
    let e = task_failed("segments", "boom");
    assert_eq!((e.code.as_str(), e.message.as_str()), ("INTERNAL", "segments task failed: boom"));
}

#[test]
fn a_recording_is_taken_up_for_transcription() {
    let ps = saving();
    let mut pt = PendingTranscribe::new();
    let bytes = write_wav(&vec![1, -2, 3], 16_000);
    let job = pt
        .transcribe_recording(&ps, STEM, probe("w"), probe("j"), Ok(bytes.clone()))
        .ok()
        .unwrap();
    assert_eq!(job.json_path, "j");
    assert_eq!(job.samples, vec![1, -2, 3]);
    assert!(!job.token.cancelled);
    let e = pt
        .transcribe_recording(&ps, STEM, probe("w"), probe("j"), Ok(bytes.clone()))
        .err()
        .unwrap();
    assert_eq!(e.code, "STATE");
    pt.end_transcription();
    let refused = |pt: &mut PendingTranscribe, ps: &PipelineState, wav, json, bytes| {
        pt.transcribe_recording(ps, STEM, wav, json, bytes).err().unwrap().message
    };
    let unset = build_ps(AppConfig::default());
    assert_eq!(refused(&mut pt, &unset, probe("w"), probe("j"), Ok(vec![])), "未设置数据保存路径");
    assert_eq!(refused(&mut pt, &ps, outside(), probe("j"), Ok(vec![])), "path escapes data_saving_path");
    assert_eq!(
        refused(&mut pt, &ps, probe("w"), probe("j"), Err("busy".to_string())),
        "failed to read recording: busy"
    );
    assert!(pt.cancel_token.is_none());
}

#[test]
fn a_target_is_pasted_into_once() {
    let ps = saving();
    let mut pt = PendingTranscribe::new();
    assert!(pt.open_window(77).is_ok());
    assert_eq!(
        pt.inject_transcript_text(&ps, STEM, "  ", probe("j")).err().unwrap().message,
        "注入文本不能为空"
    );
    let target = pt.inject_transcript_text(&ps, STEM, " 文本 ", probe("j")).ok().unwrap();
    assert_eq!(target, (77, "j".to_string(), "文本".to_string()));
    assert_eq!(
        pt.inject_transcript_text(&ps, STEM, "文本", probe("j")).err().unwrap().message,
        "目标窗口句柄已失效，请重新打开转录窗口"
    );
}

#[test]
fn progress_names_the_stage() {
    match &report_progress(40, "transcribing")[..] {
        [Action::Emit("transcription-progress", Payload::Fields(f))] => {
            assert!(matches!(f[0].value, FieldValue::Number(40)));
            assert!(matches!(&f[1].value, FieldValue::Text(s) if s == "transcribing"));
        }
        _ => panic!("expected the event"),
    }
}
