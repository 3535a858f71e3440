//! The state of a review.

use dl_voice_typing::commands::actions::Action;
use dl_voice_typing::commands::review::{PendingReview, ReviewData};
use dl_voice_typing::commands::review_provider::{MockReviewProvider, MOCK_FOREGROUND};
use dl_voice_typing::commands::window_controller::{NoopWindowController, WindowController};

#[test]
fn test_foreground_save_and_take() {
    let mut review = PendingReview::new();
    review.save_foreground(99);
    let hwnd = review.take_foreground();
    assert!(hwnd.is_some());
    let hwnd2 = review.take_foreground();
    assert!(hwnd2.is_none());
}

#[test]
fn test_take_foreground_empty() {
    let mut review = PendingReview::new();
    assert!(review.take_foreground().is_none());
}

#[test]
fn test_take_foreground_idempotent() {
    let mut review = PendingReview::new();
    review.save_foreground(99);
    assert!(review.take_foreground().is_some());
    assert!(review.take_foreground().is_none());
    assert!(review.take_foreground().is_none());
}

#[test]
fn test_store_and_get_text() {
    let mut provider = MockReviewProvider::new();
    provider.store_text("hello".to_string());
    assert_eq!(provider.get_text(), Some("hello".to_string()));
}

#[test]
fn test_foreground_lifecycle() {
    let mut provider = MockReviewProvider::new();
    assert!(provider.take_foreground().is_none());
    provider.save_foreground();
    assert!(provider.take_foreground().is_some());
    assert!(provider.take_foreground().is_none());
}

#[test]
fn test_shown_on_press_flag() {
    let mut provider = MockReviewProvider::new();
    assert!(!provider.was_shown_on_press());
    provider.set_shown_on_press(true);
    assert!(provider.was_shown_on_press());
    provider.set_shown_on_press(false);
    assert!(!provider.was_shown_on_press());
}

#[test]
fn test_store_review_data() {
    let mut provider = MockReviewProvider::new();
    let data = ReviewData {
        json_path: "test.json".to_string(),
        raw_transcription: "raw".to_string(),
        llm_text: Some("corrected".to_string()),
    };
    provider.store_review_data(data);
    let stored = provider.review_data.as_ref().map(|d| d.raw_transcription.clone());
    assert_eq!(stored, Some("raw".to_string()));
}

#[test]
fn the_mock_remembers_a_fixed_window() {
    let mut provider = MockReviewProvider::new();
    assert!(provider.get_foreground().is_none());
    provider.save_foreground();
    assert_eq!(provider.take_foreground(), Some(MOCK_FOREGROUND));
    assert_eq!(MOCK_FOREGROUND, 42);
}

#[test]
fn a_cancelled_review_is_noted_without_a_final_text() {
    let mut review = PendingReview::new();
    assert!(review.consume_and_save(None).is_empty());
    review.data_saving = Some(ReviewData {
        json_path: "a.json".to_string(),
        raw_transcription: "raw".to_string(),
        llm_text: None,
    });
    let acts = review.consume_and_save(None);
    assert!(matches!(
        &acts[..],
        [Action::UpdateJson(p, raw, None, None)] if p == "a.json" && raw == "raw"
    ));
    assert!(review.data_saving.is_none());
}

#[test]
fn windows_that_are_not_there_are_not_found() {
    let w = NoopWindowController;
    w.hide_floating();
    w.hide_review();
    w.emit_review_show();
    w.emit_review_final_text("x");
    assert_eq!(w.show_floating_near_caret(), w.show_review_near_caret());
    assert_eq!(w.focus_review(), w.eval_review_js("1"));
}
