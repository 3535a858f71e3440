//! Speech engines.

use dl_voice_typing::config::Language;
use dl_voice_typing::error::AppError;
use dl_voice_typing::speech::mock::MockEngine;
use dl_voice_typing::speech::noop::NoopEngine;
use dl_voice_typing::speech::whisper::{
    cancelable_outcome, collect_segments, collect_text, compute_mode, context_prompt,
    initial_prompt_for_lang, last_n_chars, load_outcome, progress_percent, LoadedOn, RawSegment,
    StatePool,
};
use dl_voice_typing::speech::{
    clip_duration_ms, merge_segments, whole_clip_segments, Segment, CANCELLED_MESSAGE,
};

#[test]
fn test_from_whisper_converts_centiseconds() {
    let seg = Segment::from_whisper("你好".to_string(), 0, 150);
    assert_eq!(seg.start_ms, 0);
    assert_eq!(seg.end_ms, 1500);
}

#[test]
fn test_from_whisper_clamps_negative() {
    let seg = Segment::from_whisper("x".to_string(), -5, -1);
    assert_eq!(seg.start_ms, 0);
    assert_eq!(seg.end_ms, 0);
}

#[test]
fn test_from_whisper_large_values_saturate() {
    let seg = Segment::from_whisper("x".to_string(), i64::MAX, i64::MAX / 2);
    assert_eq!(seg.start_ms, u32::MAX);
    assert!(seg.end_ms > 0);
}

#[test]
fn test_default_segments_impl_single_segment() {
    let engine = MockEngine::new("hello world");
    let samples = vec![0.0f32; 16000];
    let result = engine.transcribe_with_segments_sync(
        &samples,
        false,
    );
    assert!(result.is_ok());
    let Ok(segments) = result else { return };
    assert_eq!(segments.len(), 1);
    assert_eq!(segments[0].text, "hello world");
    assert_eq!(segments[0].start_ms, 0);
    assert_eq!(segments[0].end_ms, 1000);
}

#[test]
fn test_default_segments_impl_cancelled() {
    let engine = MockEngine::new("hello");
    let result = engine.transcribe_with_segments_sync(
        &[0.0f32; 100],
        true,
    );
    assert!(result.is_err());
    if let Err(e) = result {
        assert!(e.to_string().contains(CANCELLED_MESSAGE));
    }
}

#[test]
fn test_default_segments_impl_duration_from_samples() {
    let engine = MockEngine::new("x");
    let samples = vec![0.0f32; 16000 * 90];
    let result = engine.transcribe_with_segments_sync(
        &samples,
        false,
    );
    assert!(result.is_ok());
    let Ok(segments) = result else { return };
    assert_eq!(segments[0].end_ms, 90_000);
}

#[test]
fn test_mock_transcribe_sync() {
    let engine = MockEngine::new("hello world");
    let result = engine.transcribe_sync(&[0.0]);
    assert!(result.is_ok(), "transcribe_sync should succeed");
    assert_eq!(result.unwrap_or_default(), "hello world");
}

#[test]
fn test_mock_not_ready() {
    let mut engine = MockEngine::new("test");
    engine.set_ready(false);
    let result = engine.transcribe_sync(&[0.0]);
    assert!(
        result.is_err(),
        "transcribe_sync should fail when not ready"
    );
}

#[test]
fn test_mock_name() {
    let engine = MockEngine::new("test");
    assert_eq!(engine.name(), "Mock");
}

#[test]
fn test_mock_transcribe_sync_with_context_ignores_context() {
    let engine = MockEngine::new("hello");
    let with_ctx = engine.transcribe_sync_with_context(&[0.5f32; 100], Some("ignored context"));
    let without_ctx = engine.transcribe_sync(&[0.5f32; 100]);
    assert!(
        with_ctx.is_ok(),
        "transcribe_sync_with_context should succeed"
    );
    assert_eq!(with_ctx.unwrap_or_default(), "hello");
    assert_eq!(without_ctx.unwrap_or_default(), "hello");
}

#[test]
fn test_mock_with_segments_override() {
    let engine = MockEngine::new("ignored").with_segments(vec![]);
    let result = engine.transcribe_with_segments_sync(
        &[0.0f32; 100],
        false,
    );
    assert!(result.is_ok());
    assert_eq!(result.unwrap_or_default().len(), 0);
}

#[test]
fn test_noop_returns_error_when_whisper_disabled() {
    let engine = NoopEngine::new();
    let result = engine.transcribe_sync(&[0.5f32; 100]);
    assert!(
        result.is_err(),
        "transcribe_sync should return Err when whisper feature disabled"
    );
}

#[test]
fn test_noop_is_not_ready() {
    let engine = NoopEngine::new();
    assert!(!engine.is_ready());
}

#[test]
fn test_noop_compute_mode_is_unloaded() {
    let engine = NoopEngine::new();
    assert_eq!(engine.compute_mode(), "unloaded");
}

#[test]
fn segments_merge_into_one_text() {
    let segments = vec![
        Segment::from_whisper("你好".to_string(), 0, 50),
        Segment::from_whisper("，世界".to_string(), 50, 100),
    ];
    assert_eq!(merge_segments(&segments), "你好，世界");
}

#[test]
fn context_ends_with_the_latest_characters() {
    assert_eq!(last_n_chars("今天天气", 2), "天气");
    assert_eq!(last_n_chars("ab", 5), "ab");
    assert!(initial_prompt_for_lang(Language::Zh).is_some());
    assert!(context_prompt(Language::Zh, Some("今天天气")).unwrap().contains("今天天气"));
}

#[test]
fn cancelled_transcriptions_fail() {
    let outcome = cancelable_outcome(true, Ok("text".to_string()));
    assert!(matches!(outcome, Err(AppError::Speech(m)) if m == CANCELLED_MESSAGE));
    assert_eq!(cancelable_outcome(false, Ok("text".to_string())).unwrap(), "text");
}

#[test]
fn progress_stays_in_range() {
    assert_eq!(progress_percent(-3), 0);
    assert_eq!(progress_percent(42), 42);
    assert_eq!(progress_percent(1000), 100);
}

#[test]
fn states_are_pooled() {
    let mut pool: StatePool<u32> = StatePool::new();
    assert!(pool.pop_state().is_none());
    assert!(pool.push_state(7).is_none());
    assert_eq!(pool.pop_state(), Some(7));
}

#[test]
fn the_badge_tells_how_the_model_computes() {
    assert_eq!(compute_mode(None), "unloaded");
    assert_eq!(compute_mode(Some(LoadedOn::Gpu)), "gpu");
    assert_eq!(compute_mode(Some(LoadedOn::Cpu)), "cpu");
}

#[test]
fn a_mock_says_what_it_is_told() {
    let mut engine = MockEngine::new("before");
    engine.set_response("after");
    assert_eq!(engine.transcribe_sync(&[0.0f32; 4]).unwrap(), "after");
}

fn raw(text: &str, no_speech: bool) -> RawSegment {
    RawSegment { no_speech, text: Ok(text.to_string()), start_cs: 10, end_cs: 25 }
}

fn unreadable() -> RawSegment {
    RawSegment { no_speech: false, text: Err("bad utf-8".to_string()), start_cs: 0, end_cs: 0 }
}

#[test]
fn silence_is_left_out_of_the_text() {
    let segments = vec![raw(" 你好", false), raw("噪音", true), raw("世界 ", false)];
    assert_eq!(collect_text(&segments).unwrap(), "你好世界");
    assert_eq!(collect_text(&vec![]).unwrap(), "");
    let failed = collect_text(&vec![raw("a", false), unreadable()]).unwrap_err();
    assert_eq!(failed.to_string(), "speech recognition error: segment text failed: bad utf-8");
}

#[test]
fn segments_keep_their_times() {
    let segments = vec![raw(" a ", false), raw("x", true), raw("  ", false)];
    let found = collect_segments(Ok(()), false, &segments).unwrap();
    assert_eq!(found.len(), 1);
    assert_eq!((found[0].text.as_str(), found[0].start_ms, found[0].end_ms), ("a", 100, 250));
}

#[test]
fn failed_and_cancelled_segments_are_errors() {
    let segments = vec![raw("a", false)];
    let failed = collect_segments(Err("oom".to_string()), true, &segments).unwrap_err();
    assert!(failed.to_string().ends_with("transcription failed: oom"));
    let cancelled = collect_segments(Ok(()), true, &segments).unwrap_err();
    assert!(cancelled.to_string().ends_with(CANCELLED_MESSAGE));
    let failed = collect_segments(Ok(()), false, &vec![unreadable()]).unwrap_err();
    assert!(failed.to_string().ends_with("segment text failed: bad utf-8"));
}

#[test]
fn the_gpu_is_tried_before_the_cpu() {
    let no = || Err("no".to_string());
    assert_eq!(load_outcome(true, "m", Ok(()), no()).unwrap(), LoadedOn::Gpu);
    assert_eq!(load_outcome(true, "m", no(), Ok(())).unwrap(), LoadedOn::Cpu);
    let failed = load_outcome(true, "m", no(), Err("cpu".to_string())).unwrap_err();
    assert!(failed.to_string().ends_with("failed to load model (GPU and CPU): cpu"));
    let missing = load_outcome(false, "m.bin", Ok(()), Ok(())).unwrap_err();
    assert!(missing.to_string().ends_with("model file not found: m.bin"));
}

#[test]
fn a_text_spans_the_whole_clip() {
    assert_eq!(clip_duration_ms(16_000), 1000);
    assert_eq!(clip_duration_ms(15), 0);
    let found = whole_clip_segments(false, Ok("a".to_string()), 8_000).unwrap();
    assert_eq!((found[0].start_ms, found[0].end_ms), (0, 500));
    assert!(whole_clip_segments(true, Ok("a".to_string()), 8_000).is_err());
}
