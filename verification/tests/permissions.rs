use space_recorder::permissions::{
    accessibility_from_output, camera_from_output, format_permission_errors, from_launch_failure,
    microphone_from_output, screen_recording_from_output, verify_permissions, PermissionCheckResult,
    PermissionError, PermissionType,
};

#[test]
fn test_permission_type_name() {
    assert_eq!(PermissionType::ScreenRecording.name(), "Screen Recording");
    assert_eq!(PermissionType::Camera.name(), "Camera");
    assert_eq!(PermissionType::Microphone.name(), "Microphone");
    assert_eq!(PermissionType::Accessibility.name(), "Accessibility");
}

#[test]
fn test_permission_type_system_preferences_path() {
    assert!(PermissionType::ScreenRecording.system_preferences_path().contains("Screen Recording"));
    assert!(PermissionType::Camera.system_preferences_path().contains("Camera"));
    assert!(PermissionType::Microphone.system_preferences_path().contains("Microphone"));
    assert!(PermissionType::Accessibility.system_preferences_path().contains("Accessibility"));
}

#[test]
fn test_permission_type_system_preferences_url() {
    assert!(PermissionType::ScreenRecording.system_preferences_url().contains("ScreenCapture"));
    assert!(PermissionType::Camera.system_preferences_url().contains("Camera"));
    assert!(PermissionType::Microphone.system_preferences_url().contains("Microphone"));
    assert!(PermissionType::Accessibility.system_preferences_url().contains("Accessibility"));
}

#[test]
fn test_permission_check_result_granted() {
    let result = PermissionCheckResult::granted(PermissionType::Camera);
    assert!(result.granted);
    assert_eq!(result.permission_type, PermissionType::Camera);
    assert!(result.details.is_none());
}

#[test]
fn test_permission_check_result_denied() {
    let result = PermissionCheckResult::denied(PermissionType::Microphone, Some("Test error".to_string()));
    assert!(!result.granted);
    assert_eq!(result.permission_type, PermissionType::Microphone);
    assert_eq!(result.details, Some("Test error".to_string()));
}

#[test]
fn test_permission_error_display() {
    let error = PermissionError { permission_type: PermissionType::ScreenRecording, details: None };
    let msg = error.to_string();
    assert!(msg.contains("Screen Recording permission is required"));
    assert!(msg.contains("System Settings"));
    assert!(msg.contains("open \""));
}

#[test]
fn test_permission_error_display_with_details() {
    let error = PermissionError {
        permission_type: PermissionType::Camera,
        details: Some("Camera not accessible".to_string()),
    };
    let msg = error.to_string();
    assert!(msg.contains("Camera permission is required"));
    assert!(msg.contains("Camera not accessible"));
}

#[test]
fn test_verify_permissions_none_required() {
    let errors = verify_permissions(None, None, None, None);
    assert!(errors.is_empty(), "No permissions required should return no errors");
}

#[test]
fn verify_permissions_reports_denied_in_order() {
    let errors = verify_permissions(
        Some(PermissionCheckResult::denied(PermissionType::ScreenRecording, Some("a".to_string()))),
        Some(PermissionCheckResult::granted(PermissionType::Camera)),
        None,
        Some(PermissionCheckResult::denied(PermissionType::Accessibility, None)),
    );
    assert_eq!(errors.len(), 2);
    assert_eq!(errors[0].permission_type, PermissionType::ScreenRecording);
    assert_eq!(errors[0].details, Some("a".to_string()));
    assert_eq!(errors[1].permission_type, PermissionType::Accessibility);
    assert!(errors[1].details.is_none());
}

#[test]
fn probe_outputs_decide_permissions() {
    assert!(!screen_recording_from_output("[avfoundation] Could not open screen").granted);
    assert!(screen_recording_from_output("frame=1").granted);
    assert!(camera_from_output("").granted);
    assert!(microphone_from_output("").granted);
    let acc = accessibility_from_output("execution error: Not authorized... not allowed assistive access");
    assert!(!acc.granted);
    assert_eq!(acc.details, Some("AppleScript access denied".to_string()));
    assert!(accessibility_from_output("").granted);
}

#[test]
fn launch_failure_details() {
    let r = from_launch_failure(PermissionType::Camera, true, "No such file");
    assert_eq!(r.details, Some("FFmpeg not found".to_string()));
    let r = from_launch_failure(PermissionType::Microphone, false, "boom");
    assert_eq!(r.details, Some("Failed to run FFmpeg: boom".to_string()));
    let r = from_launch_failure(PermissionType::Accessibility, true, "boom");
    assert_eq!(r.details, Some("Failed to run osascript: boom".to_string()));
}

#[test]
fn permission_report_text() {
    assert_eq!(format_permission_errors(&[]), "");
    let errors = vec![PermissionError { permission_type: PermissionType::Camera, details: Some("x".to_string()) }];
    let report = format_permission_errors(&errors);
    assert_eq!(
        report,
        "\nMissing permissions detected:\n\n1. Camera\n   Grant permission in: System Settings > Privacy & Security > Camera\n   Or run: open \"x-apple.systempreferences:com.apple.preference.security?Privacy_Camera\"\n   Details: x\n\nAfter granting permissions, you may need to restart the application.\n\n"
    );
}
