use space_recorder::ascii::{map_to_chars, render_braille, CharSet};
use space_recorder::camera::{Frame, FrameFormat};
use space_recorder::event_loop::{frame_chars, OverlayTrack};
use space_recorder::terminal::{ModalPosition, ModalSize};
use std::time::Instant;

#[test]
fn overlay_hiding_clears_the_old_area_once() {
    let mut t = OverlayTrack::new(ModalSize::Small, ModalPosition::BottomRight, true);
    assert_eq!(t.after_hotkey(true), None);
    assert_eq!(t.after_hotkey(false), Some((ModalSize::Small, ModalPosition::BottomRight)));
    assert_eq!(t.after_hotkey(false), None);
    assert!(!t.visible);
}

#[test]
fn overlay_move_or_resize_clears_the_previous_area() {
    let mut t = OverlayTrack::new(ModalSize::Small, ModalPosition::BottomRight, true);
    assert_eq!(t.after_frame(ModalSize::Small, ModalPosition::BottomRight), None);
    assert_eq!(
        t.after_frame(ModalSize::Large, ModalPosition::BottomRight),
        Some((ModalSize::Small, ModalPosition::BottomRight))
    );
    assert_eq!(
        t.after_frame(ModalSize::Large, ModalPosition::TopLeft),
        Some((ModalSize::Large, ModalPosition::BottomRight))
    );
    assert_eq!(t.size, ModalSize::Large);
    assert_eq!(t.position, ModalPosition::TopLeft);
}

#[test]
fn frame_chars_follow_the_charset() {
    let data: Vec<u8> = (0..4 * 4).flat_map(|i| {
        let v = (i * 16) as u8;
        [v, v, v]
    }).collect();
    let frame = Frame { data, width: 4, height: 4, format: FrameFormat::Rgb, timestamp: Instant::now() };
    let chars = frame_chars(&frame, 2, 2, CharSet::Standard, false);
    assert_eq!(chars.len(), 4);
    let gray: Vec<u8> = (0..16).map(|i| (i * 16) as u8).collect();
    let expected = map_to_chars(&space_recorder::ascii::downsample(&gray, 4, 4, 2, 2), CharSet::Standard.chars(), false);
    assert_eq!(chars, expected);
    let b = frame_chars(&frame, 1, 1, CharSet::Braille, false);
    assert_eq!(b, render_braille(&gray, 4, 4, 1, 1, 128, false));
}
