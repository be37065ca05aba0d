use space_recorder::hotkeys::{hotkey_event, HotkeyEvent, ListenedKey};
use space_recorder::pipeline::{from_io_failure, spawn_failure, PipelineError};

#[test]
fn test_hotkey_event_equality() {
    assert_eq!(HotkeyEvent::IncreaseOpacity, HotkeyEvent::IncreaseOpacity);
    assert_eq!(HotkeyEvent::DecreaseOpacity, HotkeyEvent::DecreaseOpacity);
    assert_ne!(HotkeyEvent::IncreaseOpacity, HotkeyEvent::DecreaseOpacity);
}

#[test]
fn hotkey_keys() {
    assert_eq!(hotkey_event(ListenedKey::Equal, false), Some(HotkeyEvent::IncreaseOpacity));
    assert_eq!(hotkey_event(ListenedKey::Minus, true), Some(HotkeyEvent::DecreaseOpacity));
    assert_eq!(hotkey_event(ListenedKey::Q, false), None);
    assert_eq!(hotkey_event(ListenedKey::Other, true), None);
}

#[test]
fn test_pipeline_error_display() {
    let msg = PipelineError::FfmpegNotFound.to_string();
    assert!(msg.contains("FFmpeg not found"));
    assert!(msg.contains("brew install ffmpeg"));
}

#[test]
fn test_process_failed_error() {
    let err = PipelineError::ProcessFailed { exit_code: Some(1), stderr: "Error message".to_string() };
    let msg = err.to_string();
    assert!(msg.contains("1"));
    assert!(msg.contains("Error message"));
}

#[test]
fn process_failed_message_exact() {
    let err = PipelineError::ProcessFailed { exit_code: Some(-9), stderr: "killed".to_string() };
    assert_eq!(err.to_string(), "FFmpeg exited with code Some(-9)\nkilled");
    let err = PipelineError::ProcessFailed { exit_code: None, stderr: String::new() };
    assert_eq!(err.to_string(), "FFmpeg exited with code None\n");
}

#[test]
fn pipeline_io_failures_name_a_missing_tool() {
    assert!(matches!(from_io_failure(true, "x"), PipelineError::FfmpegNotFound));
    assert!(matches!(from_io_failure(false, "broken pipe"), PipelineError::IoError(m) if m == "broken pipe"));
    assert!(matches!(spawn_failure(true, "x"), PipelineError::FfmpegNotFound));
    assert!(matches!(spawn_failure(false, "denied"), PipelineError::SpawnFailed(m) if m == "denied"));
}
