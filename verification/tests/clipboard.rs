//! The clipboard.

use dl_voice_typing::clipboard::{
    after_write_attempt, text_units, timeout_error, AnyClipboard, ClipboardManager, MockClipboard,
    PasteAction, PasteEvent, RetryStep, MAX_RETRIES, PASTE_POLL_MS, PASTE_WAIT_MS,
};
use dl_voice_typing::error::AppError;

fn fault() -> AppError {
    AppError::Clipboard("open failed".to_string())
}

#[test]
fn test_with_clipboard_timeout_times_out() {
    let err = timeout_error("test_op", "100ms").to_string();
    assert!(err.contains("timed out"), "error should mention timeout: {err}");
    assert!(err.contains("test_op"), "error should mention operation name: {err}");
    assert_eq!(err, "clipboard error: test_op timed out after 100ms");
}

#[test]
fn test_new_clipboard_manager() {
    let manager = ClipboardManager::new();
    assert!(manager.saved_content.is_none());
}

#[test]
fn test_save_and_restore_cycle() {
    let mut manager = ClipboardManager::new();
    assert!(manager.save(Ok("before".to_string())).is_ok());
    assert!(manager.was_saved());
    assert!(manager.restore(Err(fault())).is_err());
    assert!(manager.was_saved());
    assert!(manager.restore(Ok(())).is_ok());
    assert!(!manager.was_saved());
    assert!(manager.save(Err(fault())).is_ok());
    assert!(!manager.was_saved());
    assert!(manager.restore(Err(fault())).is_ok());
}

#[test]
fn test_mock_clipboard() {
    let mut mock = MockClipboard::new();
    mock.save().unwrap();
    assert!(mock.saved);
    mock.inject_text("hello").unwrap();
    assert_eq!(mock.injected, vec!["hello"]);
    mock.restore().unwrap();
    assert!(mock.restored);
}

#[test]
fn test_any_clipboard_windows() {
    let mut cb = AnyClipboard::Windows(ClipboardManager::new());
    assert!(cb.save(Ok("before".to_string())).is_ok());
    assert!(cb.was_saved());
}

#[test]
fn test_any_clipboard_mock() {
    let mut cb = AnyClipboard::Mock(MockClipboard::new());
    cb.save(Err(fault())).unwrap();
    assert!(matches!(cb.inject_text("test", PasteEvent::Begin), PasteAction::Finish(Ok(()))));
    cb.restore(Ok(())).unwrap();
    let mock = match &cb {
        AnyClipboard::Mock(m) => m,
        _ => panic!("expected mock"),
    };
    assert!(mock.saved);
    assert_eq!(mock.injected, vec!["test"]);
    assert!(mock.restored);
}

#[test]
fn a_mock_fails_as_it_is_told() {
    let mut mock = MockClipboard::new().with_save_error("busy");
    mock.inject_error = Some("no".to_string());
    mock.restore_error = Some("never".to_string());
    assert!(matches!(mock.save(), Err(AppError::Clipboard(m)) if m == "busy"));
    assert!(matches!(mock.inject_text("x"), Err(AppError::Clipboard(m)) if m == "no"));
    assert!(matches!(mock.restore(), Err(AppError::Clipboard(m)) if m == "never"));
    assert!(!mock.saved && !mock.restored && mock.injected.is_empty());
}

#[test]
fn writing_is_tried_three_times() {
    assert!(matches!(after_write_attempt(0, Err(fault())), RetryStep::TryAgain(50)));
    assert!(matches!(after_write_attempt(1, Err(fault())), RetryStep::TryAgain(50)));
    assert!(matches!(after_write_attempt(MAX_RETRIES - 1, Err(fault())), RetryStep::Failed(_)));
    assert!(matches!(after_write_attempt(0, Ok(())), RetryStep::Written));
}

#[test]
fn a_paste_waits_and_puts_the_content_back() {
    let manager = ClipboardManager { saved_content: Some("before".to_string()) };
    assert!(matches!(manager.inject_text("new", PasteEvent::Begin), PasteAction::Write(t) if t == "new"));
    assert!(matches!(manager.inject_text("new", PasteEvent::Written(Ok(()))), PasteAction::Paste));
    assert!(matches!(
        manager.inject_text("new", PasteEvent::Pasted(Ok(()))),
        PasteAction::Wait(PASTE_WAIT_MS)
    ));
    assert!(matches!(
        manager.inject_text("new", PasteEvent::Waited(Some(Ok("new".to_string())))),
        PasteAction::Wait(PASTE_POLL_MS)
    ));
    assert!(matches!(
        manager.inject_text("new", PasteEvent::Waited(None)),
        PasteAction::WriteBack(t) if t == "before"
    ));
    assert!(matches!(
        manager.inject_text("new", PasteEvent::Waited(Some(Ok("other".to_string())))),
        PasteAction::WriteBack(_)
    ));
    assert!(matches!(manager.inject_text("new", PasteEvent::WrittenBack), PasteAction::Finish(Ok(()))));
    assert!(matches!(
        manager.inject_text("new", PasteEvent::Written(Err(fault()))),
        PasteAction::Finish(Err(_))
    ));
    let empty = ClipboardManager::new();
    assert!(matches!(
        empty.inject_text("new", PasteEvent::Waited(Some(Err(fault())))),
        PasteAction::Finish(Ok(()))
    ));
}

#[test]
fn the_terminator_is_not_text() {
    assert_eq!(text_units(12, 99), 5);
    assert_eq!(text_units(1, 99), 0);
    assert_eq!(text_units(0, 7), 7);
}

#[test]
fn restoring_clears_what_was_saved() {
    let mut mock = MockClipboard::new();
    assert!(!mock.was_saved());
    mock.save().unwrap();
    assert!(mock.was_saved());
    mock.restore().unwrap();
    assert!(!mock.was_saved());
    mock.save().unwrap();
    assert!(mock.was_saved());
    let mut cb = AnyClipboard::Mock(mock);
    cb.restore(Ok(())).unwrap();
    assert!(!cb.was_saved());
}
