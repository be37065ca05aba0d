use space_recorder::capture::{ScreenCapture, WebcamCapture, WindowBounds, WindowCapture};
use space_recorder::effects::VideoEffect;
use space_recorder::pipeline_config::{ghost_overlay_filter, OutputMode, PipelineLayout};

/// The opacity as the filter writes it.
fn alpha(opacity: f32) -> String {
    format!("{:.2}", opacity)
}

fn screen_only() -> PipelineLayout {
    PipelineLayout {
        screen_capture: ScreenCapture::new(0),
        screen_device: "Capture screen 0".to_string(),
        crop_filter: None,
        webcam_capture: WebcamCapture::disabled(),
        webcam_device_name: None,
        audio_device_name: None,
        audio_filter: None,
        effect: VideoEffect::NoEffect,
        vignette: false,
        grain: false,
        live_badge: false,
        timestamp: false,
        width: 1280,
        height: 720,
        ai_video_path: None,
        ai_video_alpha: alpha(0.3),
    }
}

fn with_webcam(mut l: PipelineLayout, webcam: WebcamCapture) -> PipelineLayout {
    l.webcam_capture = webcam;
    l.webcam_device_name = Some("FaceTime HD Camera".to_string());
    l
}

fn preview(l: &PipelineLayout, opacity: f32) -> Vec<String> {
    l.ffmpeg_args(&alpha(opacity), &OutputMode::Preview)
}

fn filter_of(args: &[String]) -> String {
    let idx = args.iter().position(|a| a == "-filter_complex").unwrap();
    args[idx + 1].clone()
}

fn ghost(opacity: f32, mirror: bool, effect: VideoEffect, vignette: bool, grain: bool) -> String {
    ghost_overlay_filter(&alpha(opacity), mirror, effect, vignette, grain, false, false, 1280, 720)
}

#[test]
fn test_build_ghost_overlay_filter_default() {
    let filter = ghost(0.3, false, VideoEffect::NoEffect, false, false);
    assert!(filter.contains("[0:v]scale=1280:720[screen]"));
    assert!(filter.contains("[1:v]scale=1280:720"));
    assert!(filter.contains("format=rgba"));
    assert!(filter.contains("colorchannelmixer=aa=0.30"));
    assert!(filter.contains("[screen][ghost]overlay=0:0"));
    assert!(filter.contains("[vout]"));
    assert!(!filter.contains("hflip"));
    assert!(!filter.contains("curves="));
    assert!(!filter.contains("eq="));
    assert!(!filter.contains("vignette"));
    assert!(!filter.contains("noise="));
}

#[test]
fn test_build_ghost_overlay_filter_with_mirror() {
    let filter = ghost(0.3, true, VideoEffect::NoEffect, false, false);
    assert!(filter.contains("hflip"));
    assert!(filter.contains("[0:v]scale=1280:720[screen]"));
    assert!(filter.contains("format=rgba"));
    assert!(filter.contains("colorchannelmixer=aa=0.30"));
}

#[test]
fn test_build_ghost_overlay_filter_opacity_values() {
    assert!(ghost(0.0, false, VideoEffect::NoEffect, false, false).contains("colorchannelmixer=aa=0.00"));
    assert!(ghost(1.0, false, VideoEffect::NoEffect, false, false).contains("colorchannelmixer=aa=1.00"));
    assert!(ghost(0.5, false, VideoEffect::NoEffect, false, false).contains("colorchannelmixer=aa=0.50"));
}

#[test]
fn test_build_ghost_overlay_filter_structure() {
    let filter = ghost(0.3, false, VideoEffect::NoEffect, false, false);
    let parts: Vec<&str> = filter.split(';').collect();
    assert_eq!(parts.len(), 3);
    assert!(parts[0].starts_with("[0:v]"));
    assert!(parts[0].ends_with("[screen]"));
    assert!(parts[1].starts_with("[1:v]"));
    assert!(parts[1].ends_with("[ghost]"));
    assert!(parts[2].contains("[screen][ghost]overlay"));
    assert!(parts[2].ends_with("[vout]"));
}

#[test]
fn test_build_ghost_overlay_filter_with_effect() {
    let filter = ghost(0.3, false, VideoEffect::Cyberpunk, false, false);
    assert!(filter.contains("curves="));
    assert!(filter.contains("saturation=1.4"));
    assert!(filter.contains("colorbalance="));
    assert!(filter.contains("[0:v]scale=1280:720[screen]"));
    assert!(filter.contains("[1:v]"));
    assert_eq!(filter.split(';').count(), 3);
}

#[test]
fn test_build_ghost_overlay_filter_effect_before_alpha() {
    let filter = ghost(0.5, false, VideoEffect::Cyberpunk, false, false);
    let webcam_chain_start = filter.find("[1:v]").unwrap();
    let effect_pos = filter.find("saturation=").unwrap();
    let rgba_pos = filter.find("format=rgba").unwrap();
    let alpha_pos = filter.find("colorchannelmixer=aa=").unwrap();
    assert!(webcam_chain_start < effect_pos);
    assert!(effect_pos < rgba_pos);
    assert!(rgba_pos < alpha_pos);
}

#[test]
fn test_build_ghost_overlay_filter_with_vignette_and_grain() {
    let filter = ghost(0.3, false, VideoEffect::NoEffect, true, true);
    assert_eq!(
        filter,
        "[0:v]scale=1280:720[screen];[1:v]scale=1280:720,format=rgba,colorchannelmixer=aa=0.30[ghost];\
         [screen][ghost]overlay=0:0:format=auto[composited];[composited]vignette=PI/5,noise=alls=10:allf=t[vout]"
    );
}

#[test]
fn test_pipeline_config_build_args_screen_only() {
    let args = preview(&screen_only(), 0.3);
    assert!(args.contains(&"-f".to_string()));
    assert!(args.contains(&"avfoundation".to_string()));
    assert!(args.contains(&"Capture screen 0".to_string()));
    let filter = filter_of(&args);
    assert!(filter.contains("[0:v]scale=1280:720[vout]"));
    assert!(!filter.contains("ghost"));
    assert!(!filter.contains("vignette"));
    assert!(!filter.contains("noise="));
    assert!(args.contains(&"libx264".to_string()));
    assert!(args.contains(&"ultrafast".to_string()));
    assert!(args.contains(&"zerolatency".to_string()));
}

#[test]
fn test_pipeline_config_build_args_with_webcam() {
    let config = with_webcam(screen_only(), WebcamCapture::new().with_mirror(true));
    let args_30 = preview(&config, 0.3);
    let args_70 = preview(&config, 0.7);
    assert!(args_30.contains(&"FaceTime HD Camera".to_string()));
    let filter_30 = filter_of(&args_30);
    assert!(filter_30.contains("colorchannelmixer=aa=0.30"));
    assert!(filter_30.contains("[screen][ghost]overlay"));
    assert!(filter_30.contains("hflip"));
    assert!(filter_of(&args_70).contains("colorchannelmixer=aa=0.70"));
}

#[test]
fn test_pipeline_config_build_args_with_audio() {
    let mut config = screen_only();
    config.audio_device_name = Some("MacBook Pro Microphone".to_string());
    config.audio_filter = Some("volume=0.80".to_string());
    let args = preview(&config, 0.3);
    assert!(args.contains(&":MacBook Pro Microphone".to_string()));
    assert!(filter_of(&args).contains("[1:a]volume=0.80[aout]"));
    assert!(args.contains(&"aac".to_string()));
    assert!(args.contains(&"128k".to_string()));
}

#[test]
fn test_pipeline_config_build_args_full() {
    let mut config = with_webcam(screen_only(), WebcamCapture::new());
    config.audio_device_name = Some("MacBook Pro Microphone".to_string());
    let args = preview(&config, 0.5);
    assert!(args.contains(&"Capture screen 0".to_string()));
    assert!(args.contains(&"FaceTime HD Camera".to_string()));
    assert!(args.contains(&":MacBook Pro Microphone".to_string()));
    let filter = filter_of(&args);
    assert!(filter.contains("colorchannelmixer=aa=0.50"));
    assert!(filter.contains("[2:a]"));
    assert!(filter.contains("[2:a]anull[aout]"));
    assert!(args.contains(&"pipe:1".to_string()));
    assert!(args.contains(&"nut".to_string()));
}

#[test]
fn test_pipeline_config_opacity_changes_only_filter() {
    let config = with_webcam(screen_only(), WebcamCapture::new());
    let args_low = preview(&config, 0.1);
    let args_high = preview(&config, 0.9);
    assert_eq!(args_low.len(), args_high.len());
    let idx_low = args_low.iter().position(|a| a == "-filter_complex").unwrap();
    let idx_high = args_high.iter().position(|a| a == "-filter_complex").unwrap();
    assert_ne!(args_low[idx_low + 1], args_high[idx_high + 1]);
    assert_eq!(idx_low, idx_high);
    assert!(args_low[idx_low + 1].contains("aa=0.10"));
    assert!(args_high[idx_high + 1].contains("aa=0.90"));
    for i in 0..args_low.len() {
        if i != idx_low + 1 {
            assert_eq!(args_low[i], args_high[i]);
        }
    }
}

#[test]
fn test_pipeline_config_no_effects() {
    let config = with_webcam(screen_only(), WebcamCapture::new());
    let filter = filter_of(&preview(&config, 0.3));
    assert!(!filter.contains("curves="));
    assert!(!filter.contains("saturation=1.4"));
    assert!(!filter.contains("colorbalance="));
    assert!(!filter.contains("brightness="));
    assert!(filter.contains("[screen][ghost]overlay"));
    assert!(filter.contains("colorchannelmixer=aa=0.30"));
    assert!(filter.contains("format=rgba"));
}

#[test]
fn test_pipeline_config_screen_only_with_vignette() {
    let mut config = screen_only();
    config.vignette = true;
    assert_eq!(filter_of(&preview(&config, 0.3)), "[0:v]scale=1280:720,vignette=PI/5[vout]");
}

fn window_crop() -> String {
    let mut window_capture = WindowCapture::new("Terminal");
    window_capture.bounds = Some(WindowBounds { x: 100, y: 50, width: 800, height: 600 });
    window_capture.crop_filter(false).unwrap()
}

#[test]
fn test_pipeline_config_with_window_capture_screen_only() {
    let mut config = screen_only();
    config.crop_filter = Some(window_crop());
    let filter = filter_of(&preview(&config, 0.3));
    assert!(filter.contains("crop="));
    assert!(filter.contains("scale=1280:720"));
    assert!(filter.find("crop=").unwrap() < filter.find("scale=").unwrap());
    assert_eq!(filter, "[0:v]crop=800:600:100:50,scale=1280:720[vout]");
}

#[test]
fn test_pipeline_config_with_window_capture_and_webcam() {
    let mut config = with_webcam(screen_only(), WebcamCapture::new());
    config.crop_filter = Some(window_crop());
    let filter = filter_of(&preview(&config, 0.3));
    assert!(filter.contains("crop="));
    assert!(filter.contains("[screen][ghost]overlay"));
    assert!(filter.find("crop=").unwrap() < filter.find("scale=1280:720[screen]").unwrap());
    assert!(filter.starts_with("[0:v]crop=800:600:100:50,scale=1280:720[screen];"));
}

#[test]
fn test_pipeline_config_window_capture_without_bounds() {
    let mut config = screen_only();
    config.crop_filter = WindowCapture::new("Terminal").crop_filter(false);
    assert!(!filter_of(&preview(&config, 0.3)).contains("crop="));
}

#[test]
fn test_output_mode_recording_args() {
    let mut config = screen_only();
    config.width = 1920;
    config.height = 1080;
    let args = config.ffmpeg_args(&alpha(0.3), &OutputMode::Recording("output.mp4".to_string()));
    assert!(args.contains(&"medium".to_string()));
    assert!(args.contains(&"-crf".to_string()));
    assert!(args.contains(&"23".to_string()));
    assert!(args.contains(&"output.mp4".to_string()));
    assert!(!args.contains(&"pipe:1".to_string()));
    assert_eq!(args.last().unwrap(), "output.mp4");
}

#[test]
fn test_output_mode_both_args() {
    let args = screen_only().ffmpeg_args(&alpha(0.3), &OutputMode::Both("recording.mp4".to_string()));
    assert!(args.contains(&"tee".to_string()));
    assert!(args.iter().any(|a| a.contains("pipe:1") && a.contains("recording.mp4")));
    assert_eq!(args.last().unwrap(), "[f=nut]pipe:1|[f=mp4:movflags=+faststart]recording.mp4");
}

#[test]
fn test_resolution_affects_filter() {
    let mut config = screen_only();
    config.width = 1920;
    config.height = 1080;
    assert!(filter_of(&preview(&config, 0.3)).contains("scale=1920:1080"));
}

#[test]
fn test_pipeline_config_with_ai_video_only() {
    let mut config = screen_only();
    config.ai_video_path = Some("/tmp/ai_video.mp4".to_string());
    config.ai_video_alpha = alpha(0.4);
    let args = preview(&config, 0.3);
    assert!(args.contains(&"-stream_loop".to_string()));
    assert!(args.contains(&"-1".to_string()));
    assert!(args.contains(&"/tmp/ai_video.mp4".to_string()));
    let filter = filter_of(&args);
    assert!(filter.contains("scale=1280:720"));
    assert!(filter.contains("colorchannelmixer=aa=0.40"));
    assert!(filter.contains("[screen][ai]overlay"));
}

fn three_inputs() -> PipelineLayout {
    let mut config = with_webcam(screen_only(), WebcamCapture::new());
    config.ai_video_path = Some("/tmp/ai_video.mp4".to_string());
    config
}

#[test]
fn test_pipeline_config_with_three_inputs() {
    let args = preview(&three_inputs(), 0.5);
    assert!(args.contains(&"Capture screen 0".to_string()));
    assert!(args.contains(&"FaceTime HD Camera".to_string()));
    assert!(args.contains(&"/tmp/ai_video.mp4".to_string()));
    let filter = filter_of(&args);
    assert!(filter.contains("[0:v]"));
    assert!(filter.contains("[1:v]"));
    assert!(filter.contains("[2:v]"));
    assert!(filter.contains("[screen][ghost]overlay"));
    assert!(filter.contains("[pre_ai][ai]overlay"));
}

#[test]
fn test_pipeline_config_three_inputs_layer_order() {
    let filter = filter_of(&preview(&three_inputs(), 0.3));
    let screen_ghost_pos = filter.find("[screen][ghost]overlay").unwrap();
    let pre_ai_pos = filter.find("[pre_ai][ai]overlay").unwrap();
    assert!(screen_ghost_pos < pre_ai_pos);
}

#[test]
fn test_pipeline_config_three_inputs_all_scaled() {
    let mut config = three_inputs();
    config.width = 1920;
    config.height = 1080;
    config.ai_video_alpha = alpha(0.5);
    let filter = filter_of(&preview(&config, 0.3));
    assert_eq!(filter.matches("scale=1920:1080").count(), 3);
}

#[test]
fn test_pipeline_config_three_inputs_with_audio() {
    let mut config = three_inputs();
    config.audio_device_name = Some("MacBook Pro Microphone".to_string());
    config.audio_filter = Some("volume=0.80".to_string());
    let args = preview(&config, 0.3);
    assert!(args.contains(&":MacBook Pro Microphone".to_string()));
    assert!(filter_of(&args).contains("[3:a]"));
}

#[test]
fn three_inputs_with_post_effects_exact() {
    let mut config = three_inputs();
    config.grain = true;
    let filter = filter_of(&preview(&config, 0.3));
    assert_eq!(
        filter,
        "[0:v]scale=1280:720[screen];[1:v]scale=1280:720,format=rgba,colorchannelmixer=aa=0.30[ghost];\
         [2:v]scale=1280:720,format=rgba,colorchannelmixer=aa=0.30[ai];[screen][ghost]overlay=0:0:format=auto[pre_ai];\
         [pre_ai][ai]overlay=0:0:format=auto[composited];[composited]noise=alls=10:allf=t[vout]"
    );
}

/// The composition filter at a webcam opacity.
#[allow(clippy::too_many_arguments)]
fn build_ghost_overlay_filter(
    opacity: f32,
    mirror: bool,
    effect: VideoEffect,
    vignette: bool,
    grain: bool,
    live_badge: bool,
    timestamp: bool,
    width: u32,
    height: u32,
) -> String {
    ghost_overlay_filter(&alpha(opacity), mirror, effect, vignette, grain, live_badge, timestamp, width, height)
}

#[test]
fn test_pipeline_config_build_args_with_effect() {
        let config = PipelineLayout {
            screen_capture: ScreenCapture::new(0),
            screen_device: "Capture screen 0".to_string(),
            crop_filter: None,
            webcam_capture: WebcamCapture::new(),
            webcam_device_name: Some("FaceTime HD Camera".to_string()),
            audio_filter: None,
            audio_device_name: None,
            effect: VideoEffect::Cyberpunk,
            vignette: false,
            grain: false,
            live_badge: false,
            timestamp: false,
            width: 1280,
            height: 720,
            ai_video_path: None,
            ai_video_alpha: alpha(0.3),
        };

        let args = preview(&config, 0.3);

        let filter_idx = args.iter().position(|a| a == "-filter_complex").unwrap();
        let filter = &args[filter_idx + 1];

        assert!(filter.contains("curves="));
        assert!(filter.contains("saturation=1.4"));
        assert!(filter.contains("colorbalance="));

        assert!(filter.contains("[0:v]scale=1280:720[screen]"));
    }

#[test]
fn test_build_ghost_overlay_filter_with_vignette() {
        let filter = build_ghost_overlay_filter(
            0.3,
            false,
            VideoEffect::NoEffect,
            true,
            false,
            false,
            false,
            1280,
            720,
        );

        assert!(filter.contains("vignette=PI/5"));

        let parts: Vec<&str> = filter.split(';').collect();
        assert_eq!(parts.len(), 4, "Should have 4 parts with vignette enabled");

        assert!(
            parts[2].contains("[composited]"),
            "Overlay should output to [composited]"
        );

        assert!(
            parts[3].contains("[composited]"),
            "Vignette should read from [composited]"
        );
        assert!(
            parts[3].contains("[vout]"),
            "Vignette should output to [vout]"
        );
        assert!(
            parts[3].contains("vignette=PI/5"),
            "Should apply vignette filter"
        );
    }

#[test]
fn test_build_ghost_overlay_filter_vignette_order() {
        let filter = build_ghost_overlay_filter(
            0.3,
            false,
            VideoEffect::Cyberpunk,
            true,
            false,
            false,
            false,
            1280,
            720,
        );

        let overlay_pos = filter.find("overlay=").unwrap();
        let vignette_pos = filter.find("vignette=").unwrap();
        assert!(
            overlay_pos < vignette_pos,
            "Overlay should come before vignette"
        );

        let effect_pos = filter.find("saturation=").unwrap();
        assert!(
            effect_pos < overlay_pos,
            "Color grading should come before overlay"
        );
    }

#[test]
fn test_pipeline_config_webcam_with_vignette() {
        let config = PipelineLayout {
            screen_capture: ScreenCapture::new(0),
            screen_device: "Capture screen 0".to_string(),
            crop_filter: None,
            webcam_capture: WebcamCapture::new(),
            webcam_device_name: Some("FaceTime HD Camera".to_string()),
            audio_filter: None,
            audio_device_name: None,
            effect: VideoEffect::NoEffect,
            vignette: true,
            grain: false,
            live_badge: false,
            timestamp: false,
            width: 1280,
            height: 720,
            ai_video_path: None,
            ai_video_alpha: alpha(0.3),
        };

        let args = preview(&config, 0.3);
        let filter_idx = args.iter().position(|a| a == "-filter_complex").unwrap();
        let filter = &args[filter_idx + 1];

        assert!(filter.contains("[screen][ghost]overlay"));
        assert!(filter.contains("vignette=PI/5"));
        assert!(filter.contains("[composited]"));
    }

#[test]
fn test_build_ghost_overlay_filter_with_grain() {
        let filter = build_ghost_overlay_filter(
            0.3,
            false,
            VideoEffect::NoEffect,
            false,
            true,
            false,
            false,
            1280,
            720,
        );

        assert!(filter.contains("noise=alls=10:allf=t"));

        let parts: Vec<&str> = filter.split(';').collect();
        assert_eq!(parts.len(), 4, "Should have 4 parts with grain enabled");

        assert!(
            parts[2].contains("[composited]"),
            "Overlay should output to [composited]"
        );

        assert!(
            parts[3].contains("[composited]"),
            "Grain should read from [composited]"
        );
        assert!(parts[3].contains("[vout]"), "Grain should output to [vout]");
        assert!(
            parts[3].contains("noise=alls=10:allf=t"),
            "Should apply grain filter"
        );
    }

#[test]
fn test_build_ghost_overlay_filter_grain_order() {
        let filter = build_ghost_overlay_filter(
            0.3,
            false,
            VideoEffect::Cyberpunk,
            false,
            true,
            false,
            false,
            1280,
            720,
        );

        let effect_pos = filter.find("saturation=").unwrap();
        let overlay_pos = filter.find("overlay=").unwrap();
        let grain_pos = filter.find("noise=").unwrap();

        assert!(
            effect_pos < overlay_pos,
            "Color grading should come before overlay"
        );
        assert!(overlay_pos < grain_pos, "Overlay should come before grain");
    }

#[test]
fn test_pipeline_config_screen_only_with_grain() {
        let config = PipelineLayout {
            screen_capture: ScreenCapture::new(0),
            screen_device: "Capture screen 0".to_string(),
            crop_filter: None,
            webcam_capture: WebcamCapture::disabled(),
            webcam_device_name: None,
            audio_filter: None,
            audio_device_name: None,
            effect: VideoEffect::NoEffect,
            vignette: false,
            grain: true,
            live_badge: false,
            timestamp: false,
            width: 1280,
            height: 720,
            ai_video_path: None,
            ai_video_alpha: alpha(0.3),
        };

        let args = preview(&config, 0.3);
        let filter_idx = args.iter().position(|a| a == "-filter_complex").unwrap();
        let filter = &args[filter_idx + 1];

        assert!(filter.contains("noise=alls=10:allf=t"));
        assert!(filter.contains("scale=1280:720"));
        assert!(filter.contains("[vout]"));
    }

#[test]
fn test_pipeline_config_webcam_with_grain() {
        let config = PipelineLayout {
            screen_capture: ScreenCapture::new(0),
            screen_device: "Capture screen 0".to_string(),
            crop_filter: None,
            webcam_capture: WebcamCapture::new(),
            webcam_device_name: Some("FaceTime HD Camera".to_string()),
            audio_filter: None,
            audio_device_name: None,
            effect: VideoEffect::NoEffect,
            vignette: false,
            grain: true,
            live_badge: false,
            timestamp: false,
            width: 1280,
            height: 720,
            ai_video_path: None,
            ai_video_alpha: alpha(0.3),
        };

        let args = preview(&config, 0.3);
        let filter_idx = args.iter().position(|a| a == "-filter_complex").unwrap();
        let filter = &args[filter_idx + 1];

        assert!(filter.contains("[screen][ghost]overlay"));
        assert!(filter.contains("noise=alls=10:allf=t"));
        assert!(filter.contains("[composited]"));
    }

#[test]
fn test_pipeline_config_webcam_with_vignette_and_grain() {
        let config = PipelineLayout {
            screen_capture: ScreenCapture::new(0),
            screen_device: "Capture screen 0".to_string(),
            crop_filter: None,
            webcam_capture: WebcamCapture::new(),
            webcam_device_name: Some("FaceTime HD Camera".to_string()),
            audio_filter: None,
            audio_device_name: None,
            effect: VideoEffect::NoEffect,
            vignette: true,
            grain: true,
            live_badge: false,
            timestamp: false,
            width: 1280,
            height: 720,
            ai_video_path: None,
            ai_video_alpha: alpha(0.3),
        };

        let args = preview(&config, 0.3);
        let filter_idx = args.iter().position(|a| a == "-filter_complex").unwrap();
        let filter = &args[filter_idx + 1];

        assert!(filter.contains("[screen][ghost]overlay"));
        assert!(filter.contains("vignette=PI/5"));
        assert!(filter.contains("noise=alls=10:allf=t"));
        let vignette_pos = filter.find("vignette=").unwrap();
        let grain_pos = filter.find("noise=").unwrap();
        assert!(vignette_pos < grain_pos, "Vignette should be before grain");
    }

#[test]
fn test_pipeline_config_without_window_capture_no_crop() {
        let config = PipelineLayout {
            screen_capture: ScreenCapture::new(0),
            screen_device: "Capture screen 0".to_string(),
            crop_filter: None,
            webcam_capture: WebcamCapture::disabled(),
            webcam_device_name: None,
            audio_filter: None,
            audio_device_name: None,
            effect: VideoEffect::NoEffect,
            vignette: false,
            grain: false,
            live_badge: false,
            timestamp: false,
            width: 1280,
            height: 720,
            ai_video_path: None,
            ai_video_alpha: alpha(0.3),
        };

        let args = preview(&config, 0.3);
        let filter_idx = args.iter().position(|a| a == "-filter_complex").unwrap();
        let filter = &args[filter_idx + 1];

        assert!(
            !filter.contains("crop="),
            "Should not contain crop filter without window capture"
        );
    }

#[test]
fn test_pipeline_config_ai_video_optional() {
        let config = PipelineLayout {
            screen_capture: ScreenCapture::new(0),
            screen_device: "Capture screen 0".to_string(),
            crop_filter: None,
            webcam_capture: WebcamCapture::new(),
            webcam_device_name: Some("FaceTime HD Camera".to_string()),
            audio_filter: None,
            audio_device_name: None,
            effect: VideoEffect::NoEffect,
            vignette: false,
            grain: false,
            live_badge: false,
            timestamp: false,
            width: 1280,
            height: 720,
            ai_video_path: None, // No AI video
            ai_video_alpha: alpha(0.3),
        };

        let args = preview(&config, 0.3);

        assert!(
            !args.contains(&"-stream_loop".to_string()),
            "Should not have stream_loop without AI video"
        );

        let filter_idx = args.iter().position(|a| a == "-filter_complex").unwrap();
        let filter = &args[filter_idx + 1];

        assert!(
            filter.contains("[screen][ghost]overlay"),
            "Should have screen+ghost overlay"
        );
        assert!(
            !filter.contains("[pre_ai]"),
            "Should not have AI layer without AI video"
        );
        assert!(
            !filter.contains("[ai]"),
            "Should not have AI label without AI video"
        );
    }

#[test]
fn test_pipeline_config_ai_video_with_effects() {
        let config = PipelineLayout {
            screen_capture: ScreenCapture::new(0),
            screen_device: "Capture screen 0".to_string(),
            crop_filter: None,
            webcam_capture: WebcamCapture::new(),
            webcam_device_name: Some("FaceTime HD Camera".to_string()),
            audio_filter: None,
            audio_device_name: None,
            effect: VideoEffect::Cyberpunk,
            vignette: true,
            grain: false,
            live_badge: true,
            timestamp: false,
            width: 1280,
            height: 720,
            ai_video_path: Some("/tmp/ai_video.mp4".to_string()),
            ai_video_alpha: alpha(0.25),
        };

        let args = preview(&config, 0.4);
        let filter_idx = args.iter().position(|a| a == "-filter_complex").unwrap();
        let filter = &args[filter_idx + 1];

        assert!(
            filter.contains("[screen][ghost]overlay"),
            "Should have ghost overlay"
        );
        assert!(
            filter.contains("[pre_ai][ai]overlay"),
            "Should have AI overlay"
        );

        assert!(
            filter.contains("[composited]"),
            "Should have composited intermediate"
        );
        assert!(filter.contains("vignette"), "Should have vignette effect");
        assert!(filter.contains("drawtext"), "Should have LIVE badge text");
        assert!(filter.contains("[vout]"), "Should have final output");
    }

#[test]
fn test_pipeline_config_filter_after_video_swap() {
        let mut config = PipelineLayout {
            screen_capture: ScreenCapture::new(0),
            screen_device: "Capture screen 0".to_string(),
            crop_filter: None,
            webcam_capture: WebcamCapture::new(),
            webcam_device_name: Some("FaceTime HD Camera".to_string()),
            audio_filter: None,
            audio_device_name: None,
            effect: VideoEffect::NoEffect,
            vignette: false,
            grain: false,
            live_badge: false,
            timestamp: false,
            width: 1280,
            height: 720,
            ai_video_path: None,
            ai_video_alpha: alpha(0.3),
        };

        let filter_without = config.filter_chain(&alpha(0.3));
        assert!(
            !filter_without.contains("[ai]"),
            "Should not have AI layer without video"
        );

        config.ai_video_path = Some("/tmp/video.mp4".to_string());

        let filter_with = config.filter_chain(&alpha(0.3));
        assert!(
            filter_with.contains("[ai]"),
            "Should have AI layer after swap"
        );
        assert!(
            filter_with.contains("[pre_ai][ai]overlay"),
            "Should composite AI layer"
        );
    }

#[test]
fn test_pipeline_config_args_after_video_swap() {
        let mut config = PipelineLayout {
            screen_capture: ScreenCapture::new(0),
            screen_device: "Capture screen 0".to_string(),
            crop_filter: None,
            webcam_capture: WebcamCapture::new(),
            webcam_device_name: Some("FaceTime HD Camera".to_string()),
            audio_filter: None,
            audio_device_name: None,
            effect: VideoEffect::NoEffect,
            vignette: false,
            grain: false,
            live_badge: false,
            timestamp: false,
            width: 1280,
            height: 720,
            ai_video_path: None,
            ai_video_alpha: alpha(0.3),
        };

        let args_without = preview(&config, 0.3);
        assert!(!args_without.contains(&"-stream_loop".to_string()));

        config.ai_video_path = Some("/tmp/video.mp4".to_string());

        let args_with = preview(&config, 0.3);
        assert!(args_with.contains(&"-stream_loop".to_string()));
        assert!(args_with.contains(&"/tmp/video.mp4".to_string()));
    }

#[test]
fn test_pipeline_config_handles_format_differences() {
        let config = PipelineLayout {
            screen_capture: ScreenCapture::new(0),
            screen_device: "Capture screen 0".to_string(),
            crop_filter: None,
            webcam_capture: WebcamCapture::disabled(),
            webcam_device_name: None,
            audio_filter: None,
            audio_device_name: None,
            effect: VideoEffect::NoEffect,
            vignette: false,
            grain: false,
            live_badge: false,
            timestamp: false,
            width: 1280,
            height: 720,
            ai_video_path: Some("/tmp/any_format_video.mp4".to_string()),
            ai_video_alpha: alpha(0.4),
        };

        let filter = config.filter_chain(&alpha(0.3));

        assert!(
            filter.contains("scale=1280:720"),
            "Should scale to output resolution"
        );
        assert!(
            filter.contains("format=rgba"),
            "Should convert to rgba for format handling"
        );
        assert!(
            filter.contains("colorchannelmixer=aa=0.40"),
            "Should apply AI video opacity"
        );
    }
