use space_recorder::fal::client::{
    is_content_policy_error, parse_status_reply, status_from_reply, submission_failure, validate_prompt, video_size, FalError,
    GenerationStatus,
};
use space_recorder::fal::video_replacement::VideoReplacementError;

#[test]
fn test_video_replacement_error_display() {
    let err1 = VideoReplacementError::FileNotFound("/test/video.mp4".to_string());
    assert!(err1.to_string().contains("/test/video.mp4"));
    let err2 = VideoReplacementError::ProbeError("ffprobe failed".to_string());
    assert!(err2.to_string().contains("ffprobe failed"));
    let err3 = VideoReplacementError::UnsupportedFormat("mkv".to_string());
    assert!(err3.to_string().contains("mkv"));
}

#[test]
fn prompt_validation() {
    assert!(matches!(validate_prompt(""), Err(FalError::EmptyPrompt)));
    assert!(matches!(validate_prompt(" \t\n"), Err(FalError::EmptyPrompt)));
    assert!(validate_prompt(" neon city ").is_ok());
}

#[test]
fn content_policy_detection() {
    assert!(is_content_policy_error("Request BLOCKED by Moderation"));
    assert!(is_content_policy_error("This violates our Content Policy"));
    assert!(!is_content_policy_error("internal server error"));
}

#[test]
fn submission_failures() {
    match submission_failure(429, "429 Too Many Requests", None, Some(30)) {
        FalError::RateLimit { message, retry_after_secs } => {
            assert_eq!(message, "Rate limit exceeded");
            assert_eq!(retry_after_secs, Some(30));
        }
        other => panic!("unexpected {:?}", other),
    }
    match submission_failure(400, "400 Bad Request", Some("prompt is NSFW".to_string()), None) {
        FalError::ContentPolicyViolation { message } => assert_eq!(message, "prompt is NSFW"),
        other => panic!("unexpected {:?}", other),
    }
    match submission_failure(500, "500 Internal Server Error", None, None) {
        FalError::ApiError(m) => assert_eq!(m, "API request failed with status 500 Internal Server Error: Unknown error"),
        other => panic!("unexpected {:?}", other),
    }
    let e = submission_failure(500, "500 Internal Server Error", Some("prohibited".to_string()), None);
    assert!(matches!(e, FalError::ApiError(_)));
}

#[test]
fn status_replies() {
    assert_eq!(parse_status_reply("in_queue", None, None, None).unwrap(), GenerationStatus::Pending);
    assert_eq!(status_from_reply("IN_PROGRESS", None, None, None).unwrap(), GenerationStatus::InProgress);
    assert_eq!(
        parse_status_reply("completed", Some("v".to_string()), Some("r".to_string()), None).unwrap(),
        GenerationStatus::Completed { video_url: "v".to_string() }
    );
    assert_eq!(
        status_from_reply("OK", None, Some("r".to_string()), None).unwrap(),
        GenerationStatus::Completed { video_url: "r".to_string() }
    );
    assert!(matches!(status_from_reply("OK", None, None, None), Err(FalError::ApiError(_))));
    assert_eq!(
        parse_status_reply("failed", None, None, None).unwrap(),
        GenerationStatus::Failed { error: "Unknown error occurred during generation".to_string() }
    );
    match parse_status_reply("weird", None, None, None) {
        Err(FalError::ApiError(m)) => assert_eq!(m, "Unknown generation status: WEIRD"),
        other => panic!("unexpected {:?}", other),
    }
}

#[test]
fn fal_error_messages() {
    assert_eq!(
        FalError::NetworkError { message: "timeout".to_string(), attempts: 4 }.to_string(),
        "Network error: timeout (after 4 attempts)"
    );
    assert_eq!(FalError::EmptyPrompt.to_string(), "Empty prompt");
}

#[test]
fn video_size_needs_both_sides() {
    assert_eq!(video_size(Some(1280), Some(720)), Some((1280, 720)));
    assert_eq!(video_size(Some(1280), None), None);
    assert_eq!(video_size(None, Some(720)), None);
    assert_eq!(video_size(None, None), None);
}
