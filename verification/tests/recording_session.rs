//! A dictation from the press of the hotkey to the delivery of the text.

use dl_voice_typing::commands::actions::Action;
use dl_voice_typing::commands::pipeline_state::PipelineState;
use dl_voice_typing::commands::recording_session::{
    cancel_active_pipeline, decide_release, normalize_chinese_punctuation, review_window_shown, DeliverStep, Delivery,
    PendingRelease, PipelineJob, PipelineNext, RecordingSession, ReleaseAction, ReleaseActionKind,
    SessionPolicy, KNOWN_UNSNAPSHOTED_FIELDS,
};
use dl_voice_typing::commands::text_injector::{text_injected, InjectionContext};
use dl_voice_typing::commands::Payload;
use dl_voice_typing::config::{AppConfig, ConfigCache, Language, PipelineMode, WhisperModel};
use dl_voice_typing::data_saving::SaveResult;
use dl_voice_typing::error::AppError;
use dl_voice_typing::perf::{PerfHistory, PerfMetrics};
use dl_voice_typing::state::StateTag;

fn session(config: AppConfig) -> RecordingSession {
    RecordingSession::new(PipelineState::new(ConfigCache::new(config), PerfHistory::new()))
}

fn names(acts: &[Action]) -> Vec<String> {
    acts.iter()
        .map(|a| match a {
            Action::ShowFloating => "show-floating".to_string(),
            Action::HideFloating => "hide-floating".to_string(),
            Action::ShowReview => "show-review".to_string(),
            Action::HideReview => "hide-review".to_string(),
            Action::RestoreForeground(h) => format!("foreground {h}"),
            Action::EvalReviewJs(js) => format!("eval {js}"),
            Action::EmitReviewFinalText(t) => format!("final {t}"),
            Action::Emit(name, Payload::Null) => format!("emit {name}"),
            Action::Emit(name, Payload::Text(t)) => format!("emit {name} {t}"),
            Action::Emit(name, _) => format!("emit {name} .."),
            Action::CancelDelivery(id) => format!("cancel delivery {id}"),
            Action::CancelTranscription(id) => format!("cancel transcription {id}"),
            Action::ClearRing => "clear-ring".to_string(),
            Action::StartCapture => "start-capture".to_string(),
            Action::StopCapture => "stop-capture".to_string(),
            Action::StartRealtime(r) => format!("start-realtime {r}"),
            Action::StopRealtime => "stop-realtime".to_string(),
            Action::SaveClipboard => "save-clipboard".to_string(),
            Action::RestoreClipboard => "restore-clipboard".to_string(),
            Action::RestoreClipboardIfSaved => "restore-clipboard-if-saved".to_string(),
            Action::SaveAndInject(t) => format!("save-and-inject {t}"),
            Action::SetClipboard(t) => format!("set-clipboard {t}"),
            Action::InjectText(t) => format!("inject {t}"),
            Action::Sleep(ms) => format!("sleep {ms}"),
            Action::UpdateJson(p, raw, llm, text) => format!("note {p} {raw} {llm:?} {text:?}"),
        })
        .collect()
}

fn press(s: &mut RecordingSession) {
    s.on_press(100, true);
    s.on_capture_started(Ok(()), Some(48_000), 7, 130);
}

fn release(s: &mut RecordingSession) -> PendingRelease {
    match s.on_release(500, Some(48_000)).1 {
        ReleaseAction::TakeAudio(p) => p,
        ReleaseAction::Done => panic!("expected a recording"),
    }
}

fn full(s: &mut RecordingSession) -> PipelineJob {
    let pending = release(s);
    match s.on_audio_taken(pending, 96_000, false, 505).1 {
        Delivery::Full(job) => job,
        _ => panic!("expected a full delivery"),
    }
}

#[test]
fn from_config_snapshots_all_fields() {
    let cfg = AppConfig {
        llm_enabled: true,
        language: Language::En,
        llm_api_url: "https://example.com/v1".to_string(),
        llm_model: "gpt-4".to_string(),
        realtime_transcription: true,
        review_before_paste: true,
        ..Default::default()
    };

    let policy = SessionPolicy::from_config(&cfg);

    assert_eq!(policy.mode, PipelineMode::RealtimeReview);
    assert!(policy.llm_enabled);
    assert_eq!(policy.language, Language::En);
    assert_eq!(policy.llm_api_url, "https://example.com/v1");
    assert_eq!(policy.llm_api_model, "gpt-4");
    assert_eq!(policy.save.language, cfg.language);
    assert_eq!(policy.save.whisper_model, WhisperModel::Base);
}

#[test]
fn snapshot_is_immutable_after_config_cache_changes() {
    let cfg_a = AppConfig {
        llm_enabled: false,
        language: Language::Zh,
        ..Default::default()
    };

    let policy = SessionPolicy::from_config(&cfg_a);

    let _cfg_b = AppConfig {
        llm_enabled: true,
        language: Language::En,
        llm_api_url: "https://other.com".to_string(),
        ..cfg_a.clone()
    };

    assert!(!policy.llm_enabled, "policy llm_enabled frozen at snapshot");
    assert_eq!(
        policy.language,
        Language::Zh,
        "policy language frozen at snapshot"
    );
    assert_eq!(
        policy.llm_api_url, "",
        "policy llm_api_url frozen at snapshot"
    );
}

#[test]
fn session_policy_does_not_contain_api_key() {
    let cfg = AppConfig::default();
    let _policy = SessionPolicy::from_config(&cfg);
}

#[test]
fn known_unsnapshoted_fields_audit_anchor() {
    assert!(!KNOWN_UNSNAPSHOTED_FIELDS.is_empty());
    assert!(KNOWN_UNSNAPSHOTED_FIELDS.contains(&"llm_api_key"));
    assert!(KNOWN_UNSNAPSHOTED_FIELDS.contains(&"autostart"));
    assert!(KNOWN_UNSNAPSHOTED_FIELDS.contains(&"review_before_paste"));
    assert!(KNOWN_UNSNAPSHOTED_FIELDS.contains(&"hotkey"));
}

#[test]
fn test_between_chinese() {
    assert_eq!(normalize_chinese_punctuation("你好,世界"), "你好，世界");
    assert_eq!(normalize_chinese_punctuation("今天.明天"), "今天。明天");
}

#[test]
fn test_mixed_language_unchanged() {
    assert_eq!(normalize_chinese_punctuation("Hello,世界"), "Hello,世界");
    assert_eq!(normalize_chinese_punctuation("你好, world"), "你好, world");
}

#[test]
fn test_decimal_unchanged() {
    assert_eq!(normalize_chinese_punctuation("版本3.5"), "版本3.5");
    assert_eq!(normalize_chinese_punctuation("3.14"), "3.14");
}

#[test]
fn test_already_fullwidth_unchanged() {
    assert_eq!(normalize_chinese_punctuation("你好，世界"), "你好，世界");
    assert_eq!(normalize_chinese_punctuation("今天。明天"), "今天。明天");
}

#[test]
fn test_multiple_replacements() {
    assert_eq!(
        normalize_chinese_punctuation("你好,今天天气不错.我们去玩吧"),
        "你好，今天天气不错。我们去玩吧"
    );
}

#[test]
fn test_boundary_cases() {
    assert_eq!(normalize_chinese_punctuation(","), ",");
    assert_eq!(normalize_chinese_punctuation("你好."), "你好。");
    assert_eq!(normalize_chinese_punctuation("你好,"), "你好，");
    assert_eq!(normalize_chinese_punctuation(",你好"), ",你好");
}

#[test]
fn test_end_of_string_not_cjk() {
    assert_eq!(normalize_chinese_punctuation("3."), "3.");
    assert_eq!(normalize_chinese_punctuation("hello."), "hello.");
}

#[test]
fn release_paths_follow_the_mode() {
    use_kind(PipelineMode::ClassicDirect, Some("x"), ReleaseActionKind::DeliverFull);
    use_kind(PipelineMode::ClassicReview, None, ReleaseActionKind::DeliverFull);
    use_kind(PipelineMode::RealtimeDirect, Some("x"), ReleaseActionKind::DeliverFast);
    use_kind(PipelineMode::RealtimeReview, Some("x"), ReleaseActionKind::Done);
    use_kind(PipelineMode::RealtimeDirect, None, ReleaseActionKind::DeliverFull);
    use_kind(PipelineMode::RealtimeReview, None, ReleaseActionKind::DeliverFull);
}

fn use_kind(mode: PipelineMode, text: Option<&str>, kind: ReleaseActionKind) {
    assert_eq!(decide_release(mode, text), kind);
}

#[test]
fn a_press_begins_a_recording() {
    let mut s = session(AppConfig::default());
    let acts = s.on_press(100, true);
    assert_eq!(
        names(&acts),
        vec!["show-floating", "emit recording-start", "clear-ring", "start-capture"]
    );
    assert_eq!(s.ps.sm_state(), StateTag::Recording);
    let acts = s.on_capture_started(Ok(()), Some(48_000), 7, 130);
    assert!(acts.is_empty());
    assert_eq!(s.perf_slot.unwrap().press_latency_ms, Some(30));
    assert_eq!(s.perf_slot.unwrap().cycle_id, 1);
    assert!(s.on_press(140, true).is_empty());
}

#[test]
fn a_press_before_the_model_is_loaded_is_reported() {
    let mut s = session(AppConfig::default());
    let acts = s.on_press(100, false);
    assert_eq!(names(&acts), vec!["hide-floating", "emit speech-error 模型加载中，请稍候..."]);
    assert_eq!(s.ps.sm_state(), StateTag::Idle);
}

#[test]
fn a_failed_capture_is_reported() {
    let mut s = session(AppConfig::default());
    s.on_press(100, true);
    let acts = s.on_capture_started(Err(AppError::Audio("no microphone".to_string())), None, 7, 130);
    assert_eq!(
        names(&acts),
        vec!["hide-floating", "emit speech-error 录音启动失败: audio error: no microphone"]
    );
    assert_eq!(s.ps.sm_state(), StateTag::Idle);
    assert!(s.perf_slot.is_none());
}

#[test]
fn a_live_review_is_shown_on_press_and_handed_over_on_release() {
    let mut s = session(AppConfig {
        realtime_transcription: true,
        review_before_paste: true,
        ..Default::default()
    });
    assert_eq!(
        names(&s.on_press(100, true)),
        vec!["emit recording-start", "clear-ring", "start-capture"]
    );
    let acts = s.on_capture_started(Ok(()), Some(48_000), 7, 130);
    assert_eq!(names(&acts), vec!["start-realtime 48000", "show-review"]);
    assert!(s.ps.review.shown_on_press);
    assert_eq!(s.ps.review.foreground_hwnd, Some(7));
    s.ps.realtime.as_mut().unwrap().accumulated = "你好".to_string();
    let (acts, action) = s.on_release(500, Some(48_000));
    assert_eq!(
        names(&acts),
        vec!["stop-capture", "stop-realtime", "save-clipboard", "hide-floating"]
    );
    assert!(matches!(action, ReleaseAction::Done));
    assert_eq!(s.ps.sm_state(), StateTag::Reviewing);
}

#[test]
fn realtime_text_is_pasted_without_transcription() {
    let mut s = session(AppConfig { realtime_transcription: true, ..Default::default() });
    press(&mut s);
    s.ps.realtime.as_mut().unwrap().accumulated = "你好,世界".to_string();
    let pending = release(&mut s);
    assert_eq!(pending.accumulated.as_deref(), Some("你好,世界"));
    let job = match s.on_audio_taken(pending, 0, true, 505).1 {
        Delivery::Fast(job) => job,
        _ => panic!("expected the fast path"),
    };
    assert_eq!(s.ps.sm_state(), StateTag::Transcribing);
    let (acts, next) = s.run_realtime_fast_path(job);
    assert!(acts.is_empty());
    let (job, text) = match next {
        PipelineNext::Deliver(job, text) => (job, text),
        _ => panic!("expected a delivery"),
    };
    assert_eq!(text, "你好，世界");
    let (acts, step) = s.deliver(job, text, 7);
    assert_eq!(names(&acts), vec!["save-and-inject 你好，世界"]);
    assert!(matches!(step, DeliverStep::AwaitPaste(_)));
    assert_eq!(s.ps.sm_state(), StateTag::Injecting);
}

#[test]
fn silence_is_not_transcribed() {
    let mut s = session(AppConfig::default());
    press(&mut s);
    let pending = release(&mut s);
    let (acts, delivery) = s.on_audio_taken(pending, 4800, true, 505);
    assert_eq!(names(&acts), vec!["hide-floating"]);
    assert!(matches!(delivery, Delivery::Nothing));
    assert_eq!(s.ps.sm_state(), StateTag::Idle);
}

#[test]
fn a_release_that_nobody_waits_for_is_dropped() {
    let mut s = session(AppConfig::default());
    press(&mut s);
    s.ps.sm_reset();
    let pending = release(&mut s);
    let (acts, delivery) = s.on_audio_taken(pending, 4800, false, 505);
    assert_eq!(names(&acts), vec!["hide-floating"]);
    assert!(matches!(delivery, Delivery::Nothing));
}

#[test]
fn a_dictation_is_transcribed_and_pasted() {
    let mut s = session(AppConfig { language: Language::En, ..Default::default() });
    press(&mut s);
    let job = full(&mut s);
    assert_eq!(job.perf.audio_samples, 96_000);
    assert_eq!(job.perf.audio_sample_rate, 48_000);
    assert_eq!(job.perf.release_latency_ms, Some(5));
    let saved = SaveResult { wav_path: "a.wav".to_string(), json_path: "a.json".to_string() };
    let (acts, next) = s.run_pipeline(job, Ok("hello".to_string()), 70, Some(saved));
    assert_eq!(names(&acts), vec!["emit transcription-complete hello"]);
    let (job, text) = match next {
        PipelineNext::Deliver(job, text) => (job, text),
        _ => panic!("expected a delivery"),
    };
    assert_eq!(job.perf.transcription_ms, Some(70));
    assert_eq!(job.perf.audio_duration_ms, Some(400));
    let (_, step) = s.deliver(job, text, 7);
    let ctx = match step {
        DeliverStep::AwaitPaste(ctx) => ctx,
        _ => panic!("expected a paste"),
    };
    let (acts, m) = text_injected(&mut s.ps, ctx, Ok(()), 40, 600);
    assert_eq!(
        names(&acts),
        vec![
            "emit injection-complete",
            "hide-floating",
            "note a.json hello None Some(\"hello\")",
            "emit perf-metrics .."
        ]
    );
    assert_eq!(m.injection_ms, Some(40));
    assert_eq!(m.end_to_end_ms, Some(500));
    assert_eq!(m.text_length, 5);
    assert_eq!(s.ps.sm_state(), StateTag::Idle);
    assert_eq!(s.ps.perf_history.recent(10).len(), 1);
}

#[test]
fn a_failed_transcription_ends_the_session() {
    let mut s = session(AppConfig::default());
    press(&mut s);
    let job = full(&mut s);
    let (acts, next) = s.run_pipeline(job, Err("engine lost".to_string()), 70, None);
    assert_eq!(
        names(&acts),
        vec!["emit speech-error engine lost", "hide-floating", "hide-floating"]
    );
    assert!(matches!(next, PipelineNext::Idle));
    assert_eq!(s.ps.sm_state(), StateTag::Idle);
}

#[test]
fn an_empty_transcription_ends_the_session() {
    let mut s = session(AppConfig::default());
    press(&mut s);
    let job = full(&mut s);
    let (acts, next) = s.run_pipeline(job, Ok(String::new()), 70, None);
    assert_eq!(names(&acts), vec!["emit transcription-complete ", "hide-floating"]);
    assert!(matches!(next, PipelineNext::Idle));
    assert_eq!(s.ps.sm_state(), StateTag::Idle);
}

fn correcting(s: &mut RecordingSession) -> PipelineJob {
    press(s);
    let job = full(s);
    let (acts, next) = s.run_pipeline(job, Ok("原文".to_string()), 70, None);
    assert_eq!(names(&acts), vec!["emit transcription-complete 原文", "emit llm-refining"]);
    match next {
        PipelineNext::Correct(job) => job,
        _ => panic!("expected a correction"),
    }
}

fn llm_config() -> AppConfig {
    AppConfig {
        llm_enabled: true,
        llm_api_url: "http://llm.local".to_string(),
        llm_api_key: "k".to_string(),
        llm_model: "m".to_string(),
        ..Default::default()
    }
}

#[test]
fn a_correction_replaces_the_transcription() {
    let mut s = session(llm_config());
    let job = correcting(&mut s);
    assert_eq!(s.ps.sm_state(), StateTag::LLMRefining);
    assert!(s.ps.cached_llm.as_ref().unwrap().matches_config("http://llm.local", "k", "m"));
    let (acts, job, text) = s.on_corrected(job, Ok("纠正,文本".to_string()), 12);
    assert_eq!(names(&acts), vec!["emit llm-complete 纠正,文本"]);
    assert_eq!(text, "纠正，文本");
    assert_eq!(job.perf.llm_correction_ms, Some(12));
    assert!(job.perf.llm_enabled);
    s.deliver(job, text, 7);
    assert_eq!(s.ps.sm_state(), StateTag::Injecting);
}

#[test]
fn a_failed_correction_keeps_the_transcription() {
    let mut s = session(llm_config());
    let job = correcting(&mut s);
    let (acts, _, text) = s.on_corrected(job, Err(AppError::Llm("down".to_string())), 12);
    assert_eq!(names(&acts), vec!["emit llm-error LLM error: down"]);
    assert_eq!(text, "原文");
}

#[test]
fn a_rotated_key_renews_the_client() {
    let mut s = session(llm_config());
    correcting(&mut s);
    let rotated = AppConfig { llm_api_key: "k2".to_string(), ..llm_config() };
    s.ps.config_cache.save_cached(&rotated, Ok(())).unwrap();
    s.ps.sm_reset();
    correcting(&mut s);
    assert!(s.ps.cached_llm.as_ref().unwrap().matches_config("http://llm.local", "k2", "m"));
}

#[test]
fn a_review_is_shown_and_falls_back_to_a_paste() {
    let mut s = session(AppConfig { review_before_paste: true, ..Default::default() });
    press(&mut s);
    let job = full(&mut s);
    assert!(job.review);
    let saved = SaveResult { wav_path: "a.wav".to_string(), json_path: "a.json".to_string() };
    let (job, text) = match s.run_pipeline(job, Ok("好".to_string()), 70, Some(saved)).1 {
        PipelineNext::Deliver(job, text) => (job, text),
        _ => panic!("expected a delivery"),
    };
    let (acts, step) = s.deliver(job, text, 9);
    assert_eq!(names(&acts), vec!["save-clipboard", "show-review"]);
    assert_eq!(s.ps.review.foreground_hwnd, Some(9));
    assert_eq!(s.ps.review.get_review_text().as_deref(), Some("好"));
    assert!(s.ps.review.get_review_text().is_none());
    let pending = match step {
        DeliverStep::AwaitWindow(p) => p,
        _ => panic!("expected a window"),
    };
    let acts = review_window_shown(&mut s.ps, pending, true);
    assert!(acts.is_empty());
    assert_eq!(s.ps.review.data_saving.as_ref().unwrap().json_path, "a.json");
    let acts = s.ps.review.consume_and_save(Some("好的"));
    assert_eq!(names(&acts), vec!["note a.json 好 None Some(\"好的\")"]);
    assert!(s.ps.review.consume_and_save(None).is_empty());
}

#[test]
fn a_missing_review_window_leads_to_a_paste() {
    let mut s = session(AppConfig { review_before_paste: true, ..Default::default() });
    press(&mut s);
    let job = full(&mut s);
    let (job, text) = match s.run_pipeline(job, Ok("好".to_string()), 70, None).1 {
        PipelineNext::Deliver(job, text) => (job, text),
        _ => panic!("expected a delivery"),
    };
    let pending = match s.deliver(job, text, 9).1 {
        DeliverStep::AwaitWindow(p) => p,
        _ => panic!("expected a window"),
    };
    let acts = review_window_shown(&mut s.ps, pending, false);
    assert_eq!(
        names(&acts),
        vec!["save-clipboard", "inject 好", "emit injection-complete", "hide-floating"]
    );
}

#[test]
fn a_visible_review_window_is_updated() {
    let mut s = session(AppConfig {
        realtime_transcription: true,
        review_before_paste: true,
        ..Default::default()
    });
    press(&mut s);
    let job = full(&mut s);
    let (job, text) = match s.run_pipeline(job, Ok("a\"b".to_string()), 70, None).1 {
        PipelineNext::Deliver(job, text) => (job, text),
        _ => panic!("expected a delivery"),
    };
    let acts = names(&s.deliver(job, text, 9).0);
    assert_eq!(acts[0], "save-clipboard");
    assert!(acts[1].contains("t.value=\"a\\\"b\";"), "{}", acts[1]);
    assert_eq!(acts[2], "final a\"b");
}

#[test]
fn a_dead_delivery_is_cleaned_up() {
    let mut s = session(AppConfig::default());
    press(&mut s);
    let acts = s.recover();
    assert_eq!(
        names(&acts),
        vec![
            "hide-floating",
            "restore-clipboard-if-saved",
            "emit speech-error 转录流程异常，已恢复"
        ]
    );
    assert_eq!(s.ps.sm_state(), StateTag::Idle);
}

#[test]
fn test_inject_success() {
    let mut s = session(AppConfig::default());
    assert!(s.ps.sm_start_recording());
    assert!(s.ps.sm_stop_recording());
    assert!(s.ps.sm_transcribing_to_injecting());
    let ctx = InjectionContext {
        text: "hello world".to_string(),
        transcription: "hello world".to_string(),
        save_result: None,
        llm_enabled: false,
        perf: PerfMetrics::new(0),
        t_press_for_e2e: 0,
    };
    let (_, perf) = text_injected(&mut s.ps, ctx, Ok(()), 3, 10);
    assert_eq!(s.ps.sm_state(), StateTag::Idle);
    assert!(perf.injection_ms.is_some());
    assert!(perf.end_to_end_ms.is_some());
    assert_eq!(perf.text_length, 11);
}

#[test]
fn a_failed_paste_is_reported_and_the_length_counts_characters() {
    let mut s = session(AppConfig::default());
    let ctx = InjectionContext {
        text: "你好".to_string(),
        transcription: "你好".to_string(),
        save_result: None,
        llm_enabled: false,
        perf: PerfMetrics::new(0),
        t_press_for_e2e: 50,
    };
    let (acts, perf) = text_injected(&mut s.ps, ctx, Err("busy".to_string()), 3, 10);
    assert_eq!(names(&acts)[0], "emit injection-error busy");
    assert_eq!(perf.text_length, 2);
    assert_eq!(perf.end_to_end_ms, Some(0));
}

#[test]
fn the_escape_key_cancels_a_delivery() {
    let mut s = session(AppConfig::default());
    press(&mut s);
    let (acts, cancelled) = cancel_active_pipeline(&mut s.ps);
    assert!(acts.is_empty() && !cancelled);
    let job = full(&mut s);
    let token = s.ps.cancel_token_snapshot();
    assert!(!token.cancelled);
    assert_eq!(token.id, job.perf.cycle_id);
    let (acts, cancelled) = cancel_active_pipeline(&mut s.ps);
    let cancel = format!("cancel delivery {}", token.id);
    assert_eq!(names(&acts), vec![cancel.as_str(), "hide-floating", "emit pipeline-cancelled"]);
    assert!(cancelled);
    assert!(s.ps.cancel_token_snapshot().cancelled);
    assert_eq!(s.ps.sm_state(), StateTag::Idle);
    let (_, next) = s.run_pipeline(job, Err("transcription cancelled".to_string()), 5, None);
    assert!(matches!(next, PipelineNext::Idle));
    assert!(s.ps.take_cancel_token().is_none());
}

#[test]
fn a_delivered_text_leaves_no_token() {
    let mut s = session(AppConfig::default());
    press(&mut s);
    assert!(s.ps.cancel_token.is_none());
    let job = full(&mut s);
    assert!(s.ps.cancel_token.is_some());
    let (job, text) = match s.run_pipeline(job, Ok("好".to_string()), 5, None).1 {
        PipelineNext::Deliver(job, text) => (job, text),
        _ => panic!("expected a delivery"),
    };
    let ctx = match s.deliver(job, text, 7).1 {
        DeliverStep::AwaitPaste(ctx) => ctx,
        _ => panic!("expected a paste"),
    };
    assert!(s.ps.cancel_token.is_some());
    text_injected(&mut s.ps, ctx, Ok(()), 1, 600);
    assert!(s.ps.cancel_token.is_none());
}

#[test]
fn decimal_points_stay_in_chinese_text() {
    assert_eq!(normalize_chinese_punctuation("大约3.5米,很长."), "大约3.5米，很长。");
}
