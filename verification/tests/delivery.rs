//! Delivery of a text, directly or after a review.

use dl_voice_typing::commands::actions::Action;
use dl_voice_typing::commands::delivery_controller::{
    push_to_review, review_script, task_failure, DeliveryController, ReviewStep,
};
use dl_voice_typing::commands::pipeline_state::PipelineState;
use dl_voice_typing::config::{AppConfig, ConfigCache};
use dl_voice_typing::data_saving::SaveResult;
use dl_voice_typing::perf::{PerfHistory, PerfMetrics};
use dl_voice_typing::state::StateTag;

fn state_at(tag: StateTag) -> PipelineState {
    let mut ps = PipelineState::new(ConfigCache::new(AppConfig::default()), PerfHistory::new());
    if tag == StateTag::Idle {
        return ps;
    }
    ps.sm_start_recording();
    if tag == StateTag::Recording {
        return ps;
    }
    ps.sm_stop_recording();
    if tag == StateTag::LLMRefining {
        ps.sm_start_llm_refining();
    }
    if tag == StateTag::Reviewing {
        ps.sm_transcribing_to_reviewing();
    }
    ps
}

fn saved() -> Option<SaveResult> {
    Some(SaveResult { wav_path: "a.wav".to_string(), json_path: "a.json".to_string() })
}

fn perf() -> PerfMetrics {
    PerfMetrics::new(5)
}

#[test]
fn a_direct_paste_ends_the_cycle() {
    let mut ps = state_at(StateTag::Transcribing);
    let mut d = DeliveryController::new();
    let (acts, injection) = d.inject_direct(
        &mut ps,
        "text".to_string(),
        "raw".to_string(),
        saved(),
        true,
        perf(),
        100,
        false,
    );
    assert!(matches!(&acts[..], [Action::SaveAndInject(t)] if t == "text"));
    assert_eq!(ps.sm_state(), StateTag::Injecting);
    let acts = d.direct_injected(&mut ps, injection.unwrap(), Ok(()), 20, 150);
    assert_eq!(ps.sm_state(), StateTag::Idle);
    assert!(matches!(
        &acts[..],
        [Action::Emit("injection-complete", _), Action::HideFloating, Action::UpdateJson(p, raw, Some(llm), Some(t)), Action::Emit("perf-metrics", _)]
            if p == "a.json" && raw == "raw" && llm == "text" && t == "text"
    ));
    let recorded = ps.perf_history.recent(1);
    assert_eq!(recorded[0].cycle_id, 5);
    assert_eq!(recorded[0].injection_ms, Some(20));
    assert_eq!(recorded[0].end_to_end_ms, Some(50));
    assert_eq!(recorded[0].text_length, 4);
}

#[test]
fn a_refused_transition_pastes_nothing() {
    let mut ps = state_at(StateTag::Idle);
    let mut d = DeliveryController::new();
    let (acts, injection) =
        d.inject_direct(&mut ps, "t".to_string(), "t".to_string(), None, false, perf(), 0, true);
    assert!(acts.is_empty());
    assert!(injection.is_none());
    assert_eq!(ps.sm_state(), StateTag::Idle);
}

#[test]
fn a_failed_direct_paste_restores_the_clipboard() {
    let mut ps = state_at(StateTag::LLMRefining);
    let mut d = DeliveryController::new();
    let (_, injection) =
        d.inject_direct(&mut ps, "t".to_string(), "t".to_string(), None, true, perf(), 0, true);
    let acts = d.direct_injected(&mut ps, injection.unwrap(), Err("busy".to_string()), 1, 1);
    assert!(matches!(
        &acts[..],
        [Action::Emit("injection-error", _), Action::RestoreClipboard, Action::HideFloating]
    ));
    assert_eq!(ps.sm_state(), StateTag::Idle);
    assert!(ps.perf_history.recent(10).is_empty());
}

#[test]
fn a_review_is_confirmed_with_the_focus_back_first() {
    let mut ps = state_at(StateTag::Transcribing);
    let mut d = DeliveryController::new();
    let (acts, step) = d.show_review(
        &mut ps,
        "final".to_string(),
        "raw".to_string(),
        saved(),
        false,
        perf(),
        100,
        false,
        77,
    );
    assert!(matches!(&acts[..], [Action::SaveClipboard, Action::ShowReview]));
    let pending = match step {
        ReviewStep::AwaitWindow(p) => p,
        ReviewStep::Settled => panic!("expected a window"),
    };
    let (acts, fallback) = d.review_shown(&mut ps, pending, true);
    assert!(acts.is_empty() && fallback.is_none());
    assert_eq!(ps.sm_state(), StateTag::Reviewing);

    let (acts, confirmation) = d.confirm_review(&mut ps, "edited".to_string());
    assert!(matches!(
        &acts[..],
        [Action::RestoreForeground(77), Action::Sleep(100), Action::SaveAndInject(t)] if t == "edited"
    ));
    let acts = d.confirm_injected(&mut ps, confirmation.unwrap(), Ok(()), 10, 400);
    assert!(matches!(
        &acts[..],
        [Action::Emit("injection-complete", _), Action::HideReview, Action::HideFloating, Action::UpdateJson(_, _, None, Some(t)), Action::Emit("perf-metrics", _)]
            if t == "edited"
    ));
    assert_eq!(ps.sm_state(), StateTag::Idle);
    assert_eq!(ps.perf_history.recent(1)[0].end_to_end_ms, Some(300));
    assert!(d.confirm_review(&mut ps, "again".to_string()).1.is_err());
}

#[test]
fn a_failed_confirmation_restores_clipboard_and_focus() {
    let mut ps = state_at(StateTag::Reviewing);
    let mut d = DeliveryController::new();
    d.context.foreground_hwnd = Some(3);
    let (_, confirmation) = d.confirm_review(&mut ps, "x".to_string());
    let failure = task_failure("boom");
    assert_eq!(failure, "inject task panicked: boom");
    let acts = d.confirm_injected(&mut ps, confirmation.unwrap(), Err(failure), 1, 1);
    assert!(matches!(
        &acts[..],
        [
            Action::Emit("injection-error", _),
            Action::RestoreClipboard,
            Action::RestoreForeground(3),
            Action::HideReview,
            Action::HideFloating
        ]
    ));
    assert_eq!(ps.sm_state(), StateTag::Idle);
}

#[test]
fn a_confirmation_that_comes_too_late_ends_quietly() {
    let mut ps = state_at(StateTag::Reviewing);
    let mut d = DeliveryController::new();
    let (_, confirmation) = d.confirm_review(&mut ps, "x".to_string());
    ps.sm_reset();
    assert!(d.confirm_injected(&mut ps, confirmation.unwrap(), Ok(()), 1, 1).is_empty());
    assert!(ps.perf_history.recent(10).is_empty());
}

#[test]
fn commands_in_the_wrong_state_are_refused() {
    let mut d = DeliveryController::new();
    let mut ps = state_at(StateTag::Idle);
    let (acts, r) = d.confirm_review(&mut ps, "x".to_string());
    assert!(acts.is_empty());
    let e = r.err().unwrap();
    assert_eq!((e.code.as_str(), e.message.as_str()), ("STATE", "cannot confirm from current state"));
    let (acts, r) = d.cancel_review(&mut ps);
    assert!(acts.is_empty());
    let e = r.err().unwrap();
    assert_eq!((e.code.as_str(), e.message.as_str()), ("STATE", "cannot cancel from current state"));

    let mut ps = state_at(StateTag::Recording);
    ps.review.shown_on_press = true;
    let (acts, r) = d.confirm_review(&mut ps, "x".to_string());
    assert!(r.is_err());
    assert!(matches!(&acts[..], [Action::StopCapture, Action::HideFloating, Action::HideReview]));
    assert_eq!(ps.sm_state(), StateTag::Idle);
    assert!(!ps.review.shown_on_press);
}

#[test]
fn a_cancelled_review_notes_no_final_text() {
    let mut ps = state_at(StateTag::Transcribing);
    let mut d = DeliveryController::new();
    ps.review.shown_on_press = true;
    ps.review.save_foreground(11);
    let (acts, step) = d.show_review(
        &mut ps,
        "final".to_string(),
        "raw".to_string(),
        saved(),
        true,
        perf(),
        100,
        false,
        77,
    );
    assert!(matches!(step, ReviewStep::Settled));
    assert!(matches!(
        &acts[..],
        [Action::SaveClipboard, Action::EvalReviewJs(_), Action::EmitReviewFinalText(t)] if t == "final"
    ));
    let (acts, r) = d.cancel_review(&mut ps);
    assert!(r.is_ok());
    assert!(matches!(
        &acts[..],
        [
            Action::RestoreClipboardIfSaved,
            Action::RestoreForeground(11),
            Action::HideFloating,
            Action::HideReview,
            Action::UpdateJson(_, _, Some(_), None)
        ]
    ));
    assert_eq!(ps.sm_state(), StateTag::Idle);
    assert!(!ps.review.shown_on_press);
}

#[test]
fn a_recording_can_be_cancelled_from_the_review_window() {
    let mut ps = state_at(StateTag::Transcribing);
    let mut d = DeliveryController::new();
    let (acts, r) = d.cancel_review(&mut ps);
    assert!(r.is_ok());
    assert!(matches!(
        &acts[..],
        [Action::StopCapture, Action::RestoreClipboardIfSaved, Action::HideFloating, Action::HideReview]
    ));
    assert_eq!(ps.sm_state(), StateTag::Idle);
}

#[test]
fn a_missing_review_window_falls_back_to_a_paste() {
    let mut ps = state_at(StateTag::LLMRefining);
    let mut d = DeliveryController::new();
    let (_, step) = d.show_review(
        &mut ps,
        "final".to_string(),
        "raw".to_string(),
        None,
        true,
        perf(),
        100,
        true,
        77,
    );
    let pending = match step {
        ReviewStep::AwaitWindow(p) => p,
        ReviewStep::Settled => panic!("expected a window"),
    };
    let (acts, fallback) = d.review_shown(&mut ps, pending, false);
    assert!(matches!(&acts[..], [Action::SaveAndInject(t)] if t == "final"));
    assert!(d.context.foreground_hwnd.is_none());
    let acts = d.fallback_injected(&mut ps, fallback.unwrap(), Ok(()), 10, 150);
    assert!(matches!(
        &acts[..],
        [Action::Emit("injection-complete", _), Action::HideReview, Action::HideFloating, Action::Emit("perf-metrics", _)]
    ));
    assert_eq!(ps.sm_state(), StateTag::Idle);

    let mut ps = state_at(StateTag::Transcribing);
    let (_, step) = d.show_review(
        &mut ps,
        "final".to_string(),
        "raw".to_string(),
        None,
        false,
        perf(),
        100,
        false,
        77,
    );
    let pending = match step {
        ReviewStep::AwaitWindow(p) => p,
        ReviewStep::Settled => panic!("expected a window"),
    };
    let fallback = d.review_shown(&mut ps, pending, false).1.unwrap();
    let acts = d.fallback_injected(&mut ps, fallback, Err("busy".to_string()), 10, 150);
    assert!(matches!(
        &acts[..],
        [Action::Emit("injection-error", _), Action::RestoreClipboard, Action::HideReview, Action::HideFloating]
    ));
}

#[test]
fn a_review_that_is_refused_restores_the_clipboard() {
    let mut ps = state_at(StateTag::Idle);
    let mut d = DeliveryController::new();
    let (acts, step) = d.show_review(
        &mut ps,
        "final".to_string(),
        "raw".to_string(),
        None,
        false,
        perf(),
        100,
        false,
        77,
    );
    assert!(matches!(&acts[..], [Action::SaveClipboard, Action::RestoreClipboard]));
    assert!(matches!(step, ReviewStep::Settled));
    assert!(ps.review.text.is_none());
}

#[test]
fn a_live_review_is_handed_over() {
    let mut ps = state_at(StateTag::Recording);
    let mut d = DeliveryController::new();
    ps.review.save_foreground(21);
    let acts = d.realtime_review_handoff(&mut ps, Some("so far".to_string()));
    assert!(matches!(&acts[..], [Action::SaveClipboard, Action::HideFloating]));
    assert_eq!(ps.sm_state(), StateTag::Reviewing);
    assert_eq!(ps.review.text.as_deref(), Some("so far"));
    assert_eq!(d.context.foreground_hwnd, Some(21));
    assert!(ps.review.foreground_hwnd.is_none());
}

#[test]
fn the_script_sets_text_preview_and_button() {
    assert_eq!(
        review_script("\"x\""),
        "(function(){var t=document.getElementById('review-text');if(t){t.value=\"x\";\
         t.selectionStart=t.selectionEnd=t.value.length;t.scrollTop=t.scrollHeight;}\
         var p=document.getElementById('preview');\
         if(p){p.textContent='';p.classList.remove('visible');}\
         var b=document.getElementById('btn-confirm');if(b){b.disabled=false;}})()"
    );
}

#[test]
fn dictated_text_is_escaped_in_the_script() {
    let mut acts = Vec::new();
    push_to_review(&mut acts, "说\"a\\b\"\n\r\t\u{8}\u{c}\u{1}\u{1f}/</script>");
    let literal = r#""说\"a\\b\"\n\r\t\b\f\u0001\u001f/</script>""#;
    match &acts[..] {
        [Action::EvalReviewJs(js), Action::EmitReviewFinalText(_)] => {
            assert_eq!(js, &review_script(literal));
            assert!(js.contains("t.value=\"说"));
        }
        _ => panic!("expected a script and the text"),
    }
    let mut acts = Vec::new();
    push_to_review(&mut acts, "");
    assert!(matches!(&acts[0], Action::EvalReviewJs(js) if *js == review_script("\"\"")));
}
