use space_recorder::capture::errors::CaptureError;

#[test]
fn errors_test_capture_error_display() {
    let msg = CaptureError::NoScreenDevices.to_string();
    assert!(msg.contains("No screen capture devices"));
    assert!(msg.contains("Screen Recording"));
}

#[test]
fn errors_test_screen_not_found_error() {
    let err = CaptureError::ScreenNotFound { requested: 3, available: 2 };
    let msg = err.to_string();
    assert!(msg.contains("Screen 3 not found"));
    assert!(msg.contains("2 screen(s) available"));
}

#[test]
fn errors_test_no_webcam_devices_error() {
    let msg = CaptureError::NoWebcamDevices.to_string();
    assert!(msg.contains("No webcam devices"));
    assert!(msg.contains("Camera"));
}

#[test]
fn errors_test_webcam_not_found_error() {
    let err = CaptureError::WebcamNotFound {
        requested: "USB Camera".to_string(),
        available: vec!["FaceTime HD Camera".to_string()],
    };
    let msg = err.to_string();
    assert!(msg.contains("Webcam 'USB Camera' not found"));
    assert!(msg.contains("FaceTime HD Camera"));
}

#[test]
fn errors_test_no_audio_devices_error() {
    let msg = CaptureError::NoAudioDevices.to_string();
    assert!(msg.contains("No audio devices"));
    assert!(msg.contains("Microphone"));
}

#[test]
fn errors_test_audio_device_not_found_error() {
    let err = CaptureError::AudioDeviceNotFound {
        requested: "External USB Mic".to_string(),
        available: vec!["MacBook Pro Microphone".to_string()],
    };
    let msg = err.to_string();
    assert!(msg.contains("Audio device 'External USB Mic' not found"));
    assert!(msg.contains("MacBook Pro Microphone"));
}

#[test]
fn errors_test_app_not_running_error_display() {
    let err = CaptureError::AppNotRunning {
        app_name: "MyApp".to_string(),
        available_apps: vec!["Terminal".to_string(), "Safari".to_string()],
    };
    let msg = err.to_string();
    assert!(msg.contains("MyApp"));
    assert!(msg.contains("not running"));
    assert!(msg.contains("Terminal"));
    assert!(msg.contains("Safari"));
    assert!(msg.contains("Running applications with windows"));
}

#[test]
fn errors_test_app_not_running_error_display_empty_list() {
    let err = CaptureError::AppNotRunning { app_name: "MyApp".to_string(), available_apps: vec![] };
    let msg = err.to_string();
    assert!(msg.contains("MyApp"));
    assert!(msg.contains("not running"));
    assert!(!msg.contains("Running applications with windows"));
}

#[test]
fn errors_test_app_no_windows_error_display() {
    let err = CaptureError::AppNoWindows { app_name: "MyApp".to_string() };
    let msg = err.to_string();
    assert!(msg.contains("MyApp"));
    assert!(msg.contains("no visible windows"));
    assert!(msg.contains("at least one window"));
}

#[test]
fn errors_test_window_bounds_failed_error_display() {
    let err = CaptureError::WindowBoundsFailed {
        app_name: "MyApp".to_string(),
        message: "Some error".to_string(),
    };
    let msg = err.to_string();
    assert!(msg.contains("MyApp"));
    assert!(msg.contains("Some error"));
    assert!(msg.contains("Accessibility"));
}

#[test]
fn app_not_running_lists_at_most_ten_apps() {
    let apps: Vec<String> = (0..12).map(|i| format!("App{}", i)).collect();
    let err = CaptureError::AppNotRunning { app_name: "X".to_string(), available_apps: apps };
    let msg = err.to_string();
    assert!(msg.contains("App9"));
    assert!(!msg.contains("App10"));
    assert!(msg.contains("2 more"));
}
