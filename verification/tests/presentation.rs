//! Masking of the API key.

use dl_voice_typing::config::{ApiKeyMask, MASKED_MARKER};

#[test]
fn test_mask_empty_returns_empty() {
    assert_eq!(ApiKeyMask::mask(""), "");
}

#[test]
fn test_mask_non_empty_returns_marker() {
    assert_eq!(ApiKeyMask::mask("sk-secret"), MASKED_MARKER);
}

#[test]
fn test_unmask_marker_keeps_current() {
    assert_eq!(
        ApiKeyMask::unmask_or_keep(MASKED_MARKER, "sk-old"),
        "sk-old"
    );
}

#[test]
fn test_unmask_empty_with_current_keeps_current() {
    assert_eq!(ApiKeyMask::unmask_or_keep("", "sk-old"), "sk-old");
}

#[test]
fn test_unmask_empty_without_current_stays_empty() {
    assert_eq!(ApiKeyMask::unmask_or_keep("", ""), "");
}

#[test]
fn test_unmask_new_key_replaces_current() {
    assert_eq!(ApiKeyMask::unmask_or_keep("sk-new", "sk-old"), "sk-new");
}

#[test]
fn test_unmask_marker_with_empty_current_stays_empty() {
    assert_eq!(ApiKeyMask::unmask_or_keep(MASKED_MARKER, ""), "");
}

#[test]
fn test_whitespace_and_special_chars_passthrough() {
    assert_eq!(
        ApiKeyMask::unmask_or_keep("  sk-key-with-spaces  ", "sk-old"),
        "  sk-key-with-spaces  "
    );
    assert_eq!(
        ApiKeyMask::unmask_or_keep("sk-key\nwith-newline", "sk-old"),
        "sk-key\nwith-newline"
    );
}

#[test]
fn test_masked_marker_value() {
    assert_eq!(MASKED_MARKER, "__MASKED__");
}
