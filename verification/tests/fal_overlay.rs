use std::path::PathBuf;
use space_recorder::fal::overlay::{OverlaySlots, TransitionPhase, DEFAULT_CROSSFADE_DURATION_MS};

fn slots() -> OverlaySlots<String> {
    OverlaySlots::new(DEFAULT_CROSSFADE_DURATION_MS)
}

#[test]
fn overlay_first_video_shows_at_once() {
    let mut s = slots();
    assert_eq!(s.crossfade_duration_ms(), 500);
    s.queue_video("a.mp4".to_string());
    assert_eq!(s.current_video(), Some(&"a.mp4".to_string()));
    assert_eq!(s.pending_video(), None);
    assert_eq!(s.phase(), TransitionPhase::Idle);
}

#[test]
fn overlay_second_video_crossfades_then_replaces() {
    let mut s = slots();
    s.queue_video("a.mp4".to_string());
    s.queue_video("b.mp4".to_string());
    assert!(s.is_crossfading());
    assert_eq!(s.phase(), TransitionPhase::CrossfadeIn { duration_ms: 500 });
    assert_eq!(s.current_video(), Some(&"a.mp4".to_string()));
    assert_eq!(s.pending_video(), Some(&"b.mp4".to_string()));
    s.finish_transition();
    assert_eq!(s.current_video(), Some(&"b.mp4".to_string()));
    assert_eq!(s.pending_video(), None);
    assert_eq!(s.phase(), TransitionPhase::Idle);
}

#[test]
fn overlay_zero_duration_cuts() {
    let mut s = slots();
    s.queue_video("a.mp4".to_string());
    s.queue_video_with_duration("b.mp4".to_string(), 0);
    assert_eq!(s.current_video(), Some(&"b.mp4".to_string()));
    assert_eq!(s.phase(), TransitionPhase::Idle);
    s.cut_to_video("c.mp4".to_string());
    assert_eq!(s.current_video(), Some(&"c.mp4".to_string()));
}

#[test]
fn overlay_clear_fades_out_then_empties() {
    let mut s = slots();
    s.clear();
    assert_eq!(s.phase(), TransitionPhase::Idle);
    s.queue_video("a.mp4".to_string());
    s.queue_video("b.mp4".to_string());
    s.clear();
    assert!(s.is_fading_out());
    assert_eq!(s.pending_video(), None);
    assert_eq!(s.current_video(), Some(&"a.mp4".to_string()));
    s.finish_transition();
    assert_eq!(s.current_video(), None);
    assert_eq!(s.phase(), TransitionPhase::Idle);
}

#[test]
fn overlay_complete_crossfade_immediately() {
    let mut s = slots();
    s.queue_video("a.mp4".to_string());
    s.complete_crossfade_immediately();
    assert_eq!(s.current_video(), Some(&"a.mp4".to_string()));
    s.queue_video("b.mp4".to_string());
    s.complete_crossfade_immediately();
    assert_eq!(s.current_video(), Some(&"b.mp4".to_string()));
    assert!(!s.is_crossfading());
    s.clear_immediate();
    assert_eq!(s.current_video(), None);
}

#[test]
fn overlay_filters() {
    let mut s = slots();
    assert_eq!(s.filter_with_resolution(1280, 720, "0.30", "0.50", "0.15"), "");
    s.queue_video("a.mp4".to_string());
    assert_eq!(
        s.filter_with_resolution(1280, 720, "0.30", "0.50", "0.15"),
        "loop=-1:size=9999,scale=1280:720,format=rgba,colorchannelmixer=aa=0.30"
    );
    s.queue_video("b.mp4".to_string());
    assert_eq!(
        s.filter_with_resolution(640, 480, "0.30", "0.50", "0.15"),
        "[ai_current]loop=-1:size=9999,scale=640:480[ai_c];[ai_pending]loop=-1:size=9999,scale=640:480[ai_p];[ai_c][ai_p]xfade=transition=fade:duration=0.50:offset=0,format=rgba,colorchannelmixer=aa=0.30"
    );
    s.clear();
    assert_eq!(
        s.filter_with_resolution(1280, 720, "0.30", "0.50", "0.15"),
        "loop=-1:size=9999,scale=1280:720,format=rgba,colorchannelmixer=aa=0.15"
    );
}

#[test]
fn overlay_duration_setting() {
    let mut s = slots();
    s.set_crossfade_duration_ms(1000);
    s.queue_video("a.mp4".to_string());
    s.queue_video("b.mp4".to_string());
    assert_eq!(s.phase(), TransitionPhase::CrossfadeIn { duration_ms: 1000 });
}


fn manager() -> OverlaySlots<PathBuf> {
    OverlaySlots::new(DEFAULT_CROSSFADE_DURATION_MS)
}

/// The overlay filter at 30% opacity, with the crossfade's duration in
/// seconds written with two decimals.
fn filter_at(m: &OverlaySlots<PathBuf>, width: u32, height: u32) -> String {
    let duration = match m.phase() {
        TransitionPhase::CrossfadeIn { duration_ms } => format!("{:.2}", duration_ms as f32 / 1000.0),
        _ => String::new(),
    };
    m.filter_with_resolution(width, height, "0.30", &duration, "0.00")
}

fn get_ffmpeg_filter(m: &OverlaySlots<PathBuf>) -> String {
    filter_at(m, 1280, 720)
}

#[test]
fn test_overlay_manager_tracks_current_video() {
    let mut manager = manager();
    assert!(manager.current_video().is_none());
    manager.queue_video(PathBuf::from("/path/to/video.mp4"));
    assert_eq!(manager.current_video(), Some(&PathBuf::from("/path/to/video.mp4")));
    assert_eq!(manager.phase(), TransitionPhase::Idle);
}

#[test]
fn test_overlay_manager_tracks_pending_video() {
    let mut manager = manager();
    manager.queue_video(PathBuf::from("/path/to/video1.mp4"));
    assert_eq!(manager.phase(), TransitionPhase::Idle);
    manager.queue_video(PathBuf::from("/path/to/video2.mp4"));
    assert!(matches!(manager.phase(), TransitionPhase::CrossfadeIn { .. }));
}

#[test]
fn test_overlay_manager_tracks_transition_state() {
    let mut manager = manager();
    assert_eq!(manager.phase(), TransitionPhase::Idle);
    manager.queue_video(PathBuf::from("/video1.mp4"));
    assert_eq!(manager.phase(), TransitionPhase::Idle);
    manager.queue_video(PathBuf::from("/video2.mp4"));
    assert!(matches!(manager.phase(), TransitionPhase::CrossfadeIn { .. }));
    manager.finish_transition();
    assert_eq!(manager.phase(), TransitionPhase::Idle);
}

#[test]
fn test_queue_video_sets_pending() {
    let mut manager = manager();
    manager.queue_video(PathBuf::from("/video1.mp4"));
    manager.queue_video(PathBuf::from("/video2.mp4"));
    assert_eq!(manager.current_video(), Some(&PathBuf::from("/video1.mp4")));
    manager.finish_transition();
    assert_eq!(manager.current_video(), Some(&PathBuf::from("/video2.mp4")));
}

#[test]
fn test_queue_video_starts_crossfade_when_current_exists() {
    let mut manager = manager();
    manager.queue_video(PathBuf::from("/video1.mp4"));
    assert_eq!(manager.phase(), TransitionPhase::Idle);
    manager.queue_video(PathBuf::from("/video2.mp4"));
    assert_eq!(manager.phase(), TransitionPhase::CrossfadeIn { duration_ms: 500 });
}

#[test]
fn test_queue_video_directly_sets_current_when_no_existing() {
    let mut manager = manager();
    assert!(manager.current_video().is_none());
    manager.queue_video(PathBuf::from("/video.mp4"));
    assert_eq!(manager.current_video(), Some(&PathBuf::from("/video.mp4")));
    assert_eq!(manager.phase(), TransitionPhase::Idle);
}

#[test]
fn test_get_ffmpeg_filter_no_video_returns_empty() {
    let manager = manager();
    let filter = get_ffmpeg_filter(&manager);
    assert!(filter.is_empty(), "No video should return empty filter");
}

#[test]
fn test_get_ffmpeg_filter_single_video_contains_scale() {
    let mut manager = manager();
    manager.queue_video(PathBuf::from("/video.mp4"));
    assert!(get_ffmpeg_filter(&manager).contains("scale=1280:720"));
}

#[test]
fn test_get_ffmpeg_filter_crossfade_has_two_inputs() {
    let mut manager = manager();
    manager.queue_video(PathBuf::from("/video1.mp4"));
    manager.queue_video(PathBuf::from("/video2.mp4"));
    let filter = get_ffmpeg_filter(&manager);
    assert!(filter.contains("[ai_current]"));
    assert!(filter.contains("[ai_pending]"));
}

#[test]
fn test_get_ffmpeg_filter_crossfade_contains_xfade() {
    let mut manager = manager();
    manager.queue_video(PathBuf::from("/video1.mp4"));
    manager.queue_video(PathBuf::from("/video2.mp4"));
    let filter = get_ffmpeg_filter(&manager);
    assert!(filter.contains("xfade="));
    assert!(filter.contains("transition=fade"));
}

#[test]
fn test_get_ffmpeg_filter_custom_resolution() {
    let mut manager = manager();
    manager.queue_video(PathBuf::from("/video.mp4"));
    assert!(filter_at(&manager, 1920, 1080).contains("scale=1920:1080"));
}

#[test]
fn test_get_ffmpeg_filter_no_pending_during_crossfade_fallback() {
    let mut manager = manager();
    manager.queue_video(PathBuf::from("/video.mp4"));
    let filter = get_ffmpeg_filter(&manager);
    assert!(filter.contains("scale="));
    assert!(filter.contains("format=rgba"));
    assert!(filter.contains("colorchannelmixer=aa="));
    assert!(!filter.contains("xfade"));
}

#[test]
fn test_clear_removes_current_and_pending_videos() {
    let mut manager = manager();
    manager.queue_video(PathBuf::from("/video1.mp4"));
    manager.queue_video(PathBuf::from("/video2.mp4"));
    assert!(manager.current_video().is_some());
    assert!(manager.pending_video().is_some());
    manager.clear();
    assert!(manager.pending_video().is_none());
    assert!(manager.current_video().is_some());
    manager.finish_transition();
    assert!(manager.current_video().is_none());
}

#[test]
fn test_clear_triggers_fade_out_transition() {
    let mut manager = manager();
    manager.queue_video(PathBuf::from("/video.mp4"));
    assert_eq!(manager.phase(), TransitionPhase::Idle);
    manager.clear();
    assert_eq!(manager.phase(), TransitionPhase::FadeOut { duration_ms: 500 });
}

#[test]
fn test_clear_no_video_resets_to_idle() {
    let mut manager = manager();
    assert!(manager.current_video().is_none());
    manager.clear();
    assert_eq!(manager.phase(), TransitionPhase::Idle);
}

#[test]
fn test_clear_during_crossfade_clears_pending() {
    let mut manager = manager();
    manager.queue_video(PathBuf::from("/video1.mp4"));
    manager.queue_video(PathBuf::from("/video2.mp4"));
    assert!(matches!(manager.phase(), TransitionPhase::CrossfadeIn { .. }));
    assert!(manager.pending_video().is_some());
    manager.clear();
    assert!(manager.pending_video().is_none());
    assert!(matches!(manager.phase(), TransitionPhase::FadeOut { .. }));
}

#[test]
fn test_clear_immediate_no_transition() {
    let mut manager = manager();
    manager.queue_video(PathBuf::from("/video.mp4"));
    assert!(manager.current_video().is_some());
    manager.clear_immediate();
    assert!(manager.current_video().is_none());
    assert!(manager.pending_video().is_none());
    assert_eq!(manager.phase(), TransitionPhase::Idle);
}

#[test]
fn test_is_fading_out() {
    let mut manager = manager();
    manager.queue_video(PathBuf::from("/video.mp4"));
    assert!(!manager.is_fading_out());
    manager.clear();
    assert!(manager.is_fading_out());
    manager.finish_transition();
    assert!(!manager.is_fading_out());
}

#[test]
fn test_loop_filter_comes_before_scale() {
    let mut manager = manager();
    manager.queue_video(PathBuf::from("/video.mp4"));
    let filter = get_ffmpeg_filter(&manager);
    let loop_pos = filter.find("loop=").expect("Should have loop filter");
    let scale_pos = filter.find("scale=").expect("Should have scale filter");
    assert!(loop_pos < scale_pos);
}

#[test]
fn test_crossfade_configurable_duration_default() {
    let manager = manager();
    assert_eq!(manager.crossfade_duration_ms(), DEFAULT_CROSSFADE_DURATION_MS);
}

#[test]
fn test_crossfade_configurable_duration_custom() {
    let manager: OverlaySlots<PathBuf> = OverlaySlots::new(1000);
    assert_eq!(manager.crossfade_duration_ms(), 1000);
}

#[test]
fn test_crossfade_set_duration() {
    let mut manager = manager();
    manager.set_crossfade_duration_ms(750);
    assert_eq!(manager.crossfade_duration_ms(), 750);
}

#[test]
fn test_crossfade_instant_cut_fallback_with_zero_duration() {
    let mut manager = manager();
    manager.queue_video(PathBuf::from("/video1.mp4"));
    manager.queue_video_with_duration(PathBuf::from("/video2.mp4"), 0);
    assert_eq!(manager.phase(), TransitionPhase::Idle);
    assert_eq!(manager.current_video(), Some(&PathBuf::from("/video2.mp4")));
}

#[test]
fn test_cut_to_video_method() {
    let mut manager = manager();
    manager.queue_video(PathBuf::from("/video1.mp4"));
    manager.cut_to_video(PathBuf::from("/video2.mp4"));
    assert_eq!(manager.phase(), TransitionPhase::Idle);
    assert_eq!(manager.current_video(), Some(&PathBuf::from("/video2.mp4")));
}

#[test]
fn test_complete_crossfade_immediately_fallback() {
    let mut manager = manager();
    manager.queue_video(PathBuf::from("/video1.mp4"));
    manager.queue_video(PathBuf::from("/video2.mp4"));
    assert!(manager.is_crossfading());
    manager.complete_crossfade_immediately();
    assert_eq!(manager.phase(), TransitionPhase::Idle);
    assert_eq!(manager.current_video(), Some(&PathBuf::from("/video2.mp4")));
    assert!(manager.pending_video().is_none());
}

#[test]
fn test_is_crossfading() {
    let mut manager = manager();
    assert!(!manager.is_crossfading());
    manager.queue_video(PathBuf::from("/video1.mp4"));
    assert!(!manager.is_crossfading());
    manager.queue_video(PathBuf::from("/video2.mp4"));
    assert!(manager.is_crossfading());
    manager.finish_transition();
    assert!(!manager.is_crossfading());
}

#[test]
fn test_xfade_filter_format() {
    let mut manager = manager();
    manager.queue_video(PathBuf::from("/video1.mp4"));
    manager.queue_video(PathBuf::from("/video2.mp4"));
    let filter = get_ffmpeg_filter(&manager);
    assert!(filter.contains("xfade=transition=fade:duration=0.50:offset=0"), "got: {}", filter);
}

#[test]
fn test_crossfade_uses_configured_duration_when_queueing() {
    let mut manager = manager();
    manager.set_crossfade_duration_ms(1500);
    manager.queue_video(PathBuf::from("/video1.mp4"));
    manager.queue_video(PathBuf::from("/video2.mp4"));
    if let TransitionPhase::CrossfadeIn { duration_ms } = manager.phase() {
        assert_eq!(duration_ms, 1500);
    } else {
        panic!("Expected CrossfadeIn state");
    }
    assert!(get_ffmpeg_filter(&manager).contains("duration=1.50"));
}

#[test]
fn test_clear_uses_configured_crossfade_duration() {
    let mut manager: OverlaySlots<PathBuf> = OverlaySlots::new(1000);
    manager.queue_video(PathBuf::from("/video.mp4"));
    manager.clear();
    if let TransitionPhase::FadeOut { duration_ms } = manager.phase() {
        assert_eq!(duration_ms, 1000);
    } else {
        panic!("Expected FadeOut state");
    }
}
