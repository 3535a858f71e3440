//! Errors and what commands make of them.

use dl_voice_typing::error::{AppError, CommandError};

#[test]
fn test_io_error_conversion() {
    let io_err = std::io::Error::new(std::io::ErrorKind::NotFound, "file not found");
    let app_err: AppError = io_err.into();
    assert!(matches!(app_err, AppError::Io(_)));
    assert!(app_err.to_string().contains("file not found"));
}

#[test]
fn test_json_error_conversion() {
    let json_err = serde_json::from_str::<serde_json::Value>("invalid json");
    let app_err: AppError = json_err.unwrap_err().into();
    assert!(matches!(app_err, AppError::Json(_)));
}

#[test]
fn test_error_display() {
    let err = AppError::Audio("no microphone".to_string());
    assert_eq!(err.to_string(), "audio error: no microphone");
}

#[test]
fn test_command_error_from_app_error() {
    let err = AppError::Speech("model not loaded".to_string());
    let cmd_err: CommandError = err.into();
    assert_eq!(cmd_err.code, "SPEECH");
    assert_eq!(cmd_err.message, "model not loaded");
}

#[test]
fn test_command_error_display() {
    let err = CommandError {
        code: "CONFIG".to_string(),
        message: "bad value".to_string(),
    };
    assert_eq!(err.to_string(), "CONFIG: bad value");
}

#[test]
fn test_command_error_new_generic() {
    let err = CommandError::new("CUSTOM", "detail");
    assert_eq!(err.code, "CUSTOM");
    assert_eq!(err.message, "detail");
}

#[test]
fn test_command_error_state_helper() {
    let err = CommandError::state("cannot confirm from current state");
    assert_eq!(err.code, "STATE");
    assert_eq!(err.message, "cannot confirm from current state");
}

#[test]
fn test_command_error_lock_helper() {
    let err = CommandError::lock(std::io::Error::other("poisoned"));
    assert_eq!(err.code, "LOCK");
    assert!(err.message.contains("poisoned"));
}

#[test]
fn test_command_error_io_helper() {
    let err = CommandError::io(std::io::Error::other("disk full"), "save_settings");
    assert_eq!(err.code, "IO");
    assert_eq!(err.message, "save_settings: disk full");
}

#[test]
fn test_command_error_validation_helper() {
    let err = CommandError::validation("invalid filename");
    assert_eq!(err.code, "VALIDATION");
    assert_eq!(err.message, "invalid filename");
}

#[test]
fn test_state_helper_byte_identical_to_struct_literal() {
    let helper = CommandError::state("cannot confirm from current state");
    let literal = CommandError {
        code: "STATE".to_string(),
        message: "cannot confirm from current state".to_string(),
    };
    assert_eq!(helper.code, literal.code);
    assert_eq!(helper.message, literal.message);

    let helper2 = CommandError::state("cancel_reviewing failed");
    let literal2 = CommandError {
        code: "STATE".to_string(),
        message: "cancel_reviewing failed".to_string(),
    };
    assert_eq!(helper2.code, literal2.code);
    assert_eq!(helper2.message, literal2.message);

    let helper3 = CommandError::state("cannot cancel from current state");
    let literal3 = CommandError {
        code: "STATE".to_string(),
        message: "cannot cancel from current state".to_string(),
    };
    assert_eq!(helper3.code, literal3.code);
    assert_eq!(helper3.message, literal3.message);
}

#[test]
fn test_download_cancelled_message_byte_identical() {
    let err = CommandError::new("CANCELLED", "download cancelled");
    assert_eq!(err.message, "download cancelled");
    assert_eq!(err.message.len(), "download cancelled".len());
}
