use space_recorder::fal::video_replacement::{
    build_normalization_filter, needs_conversion, StreamShape, VideoReplacementError, VideoReplacementManager,
};
use std::time::Duration;

#[test]
fn test_video_replacement_build_normalization_filter() {
    let filter = build_normalization_filter(1280, 720, "0.50", "[2:v]", "[ai]");
    assert!(filter.contains("[2:v]"), "Should have input label");
    assert!(filter.contains("scale=1280:720"), "Should scale to target resolution");
    assert!(filter.contains("format=rgba"), "Should convert to rgba");
    assert!(filter.contains("colorchannelmixer=aa=0.50"), "Should apply opacity");
    assert!(filter.contains("[ai]"), "Should have output label");
}

#[test]
fn test_video_replacement_build_normalization_filter_different_opacity() {
    let filter = build_normalization_filter(1920, 1080, "0.25", "[1:v]", "[out]");
    assert!(filter.contains("scale=1920:1080"));
    assert!(filter.contains("colorchannelmixer=aa=0.25"));
}

#[test]
fn replacement_normalization_filter_exact_text() {
    assert_eq!(
        build_normalization_filter(1280, 720, "0.50", "[2:v]", "[ai]"),
        "[2:v]scale=1280:720:force_original_aspect_ratio=decrease,pad=1280:720:(ow-iw)/2:(oh-ih)/2,format=rgba,colorchannelmixer=aa=0.50[ai]"
    );
}

#[test]
fn test_video_replacement_needs_conversion_unknown_format() {
    assert!(needs_conversion(None, 1280, 720));
}

#[test]
fn test_video_replacement_needs_conversion_matching_format() {
    let f = StreamShape { width: 1280, height: 720, codec: "h264".to_string() };
    assert!(!needs_conversion(Some(&f), 1280, 720));
}

#[test]
fn test_video_replacement_needs_conversion_different_resolution() {
    let f = StreamShape { width: 1920, height: 1080, codec: "h264".to_string() };
    assert!(needs_conversion(Some(&f), 1280, 720));
}

#[test]
fn test_video_replacement_needs_conversion_unusual_codec() {
    let f = StreamShape { width: 1280, height: 720, codec: "prores".to_string() };
    assert!(needs_conversion(Some(&f), 1280, 720));
}

#[test]
fn replacement_codec_names_ignore_case() {
    for codec in ["H264", "HEVC", "Vp9", "av1"] {
        let f = StreamShape { width: 640, height: 480, codec: codec.to_string() };
        assert!(!needs_conversion(Some(&f), 640, 480));
    }
}

#[test]
fn test_video_replacement_manager_new() {
    let manager: VideoReplacementManager<String> = VideoReplacementManager::new();
    assert!(!manager.has_pending());
    assert!(manager.last_replacement_duration().is_none());
    assert_eq!(manager.replacement_count(), 0);
}

#[test]
fn test_video_replacement_manager_queue_replacement_file_not_found() {
    let mut manager: VideoReplacementManager<String> = VideoReplacementManager::new();
    let path = "/nonexistent/video.mp4";
    let result = manager.queue_replacement(path.to_string(), path, false);
    assert!(result.is_err());
    assert!(matches!(result, Err(VideoReplacementError::FileNotFound(p)) if p == path));
    assert!(!manager.has_pending());
}

#[test]
fn replacement_manager_queue_and_take() {
    let mut manager: VideoReplacementManager<String> = VideoReplacementManager::new();
    assert!(manager.queue_replacement("/tmp/v.mp4".to_string(), "/tmp/v.mp4", true).is_ok());
    assert!(manager.has_pending());
    assert_eq!(manager.take_pending(), Some("/tmp/v.mp4".to_string()));
    assert!(!manager.has_pending());
    assert_eq!(manager.take_pending(), None);
}

#[test]
fn test_video_replacement_manager_record_replacement() {
    let mut manager: VideoReplacementManager<String> = VideoReplacementManager::new();
    manager.record_replacement(Duration::from_millis(250));
    assert_eq!(manager.replacement_count(), 1);
    assert_eq!(manager.last_replacement_duration(), Some(Duration::from_millis(250)));
    assert!(manager.last_replacement_was_fast());
}

#[test]
fn test_video_replacement_manager_record_multiple_replacements() {
    let mut manager: VideoReplacementManager<String> = VideoReplacementManager::new();
    manager.record_replacement(Duration::from_millis(100));
    manager.record_replacement(Duration::from_millis(200));
    manager.record_replacement(Duration::from_millis(150));
    assert_eq!(manager.replacement_count(), 3);
    assert_eq!(manager.last_replacement_duration(), Some(Duration::from_millis(150)));
}

#[test]
fn test_video_replacement_manager_last_replacement_was_fast_slow() {
    let mut manager: VideoReplacementManager<String> = VideoReplacementManager::new();
    manager.record_replacement(Duration::from_millis(600));
    assert!(!manager.last_replacement_was_fast());
}

#[test]
fn test_video_replacement_manager_last_replacement_was_fast_boundary() {
    let mut manager: VideoReplacementManager<String> = VideoReplacementManager::new();
    manager.record_replacement(Duration::from_millis(500));
    assert!(!manager.last_replacement_was_fast());
    manager.record_replacement(Duration::from_millis(499));
    assert!(manager.last_replacement_was_fast());
}

#[test]
fn replacement_manager_without_history_counts_as_fast() {
    let manager: VideoReplacementManager<String> = VideoReplacementManager::new();
    assert!(manager.last_replacement_was_fast());
}
