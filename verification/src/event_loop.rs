//! Decisions of the terminal's main loop: which screen area to clear when
//! the camera modal is hidden, moved or resized, and the characters of a
//! camera frame.
use vstd::prelude::*;
use crate::ascii::braille::{render, spec_render};
use crate::ascii::charset::CharSet;
use crate::ascii::downsample::{downsample, spec_downsample};
use crate::ascii::grayscale::{spec_grayscale, to_grayscale};
use crate::ascii::mapping::{map_to_chars, spec_map_to_chars};
use crate::camera::Frame;
use crate::terminal::{ModalPosition, ModalSize};

verus! {

/// Brightness from which a braille dot is raised.
pub const BRAILLE_THRESHOLD: u8 = 128;

/// The modal's size, position and visibility as last drawn, so that the
/// area it covered can be cleared when that changes.
#[derive(Debug, Clone, Copy, PartialEq, Eq, Structural)]
pub struct OverlayTrack {
    pub size: ModalSize,
    pub position: ModalPosition,
    pub visible: bool,
}

impl OverlayTrack {
    /// Track a modal drawn at `size` and `position`, visible or not.
    pub fn new(size: ModalSize, position: ModalPosition, visible: bool) -> (t: OverlayTrack)
        ensures
            t == (OverlayTrack { size, position, visible }),
    {
        OverlayTrack { size, position, visible }
    }

    /// After a handled hotkey left the modal `visible` or not: the area to
    /// clear when the modal was visible and is now hidden.
    pub fn after_hotkey(&mut self, visible: bool) -> (r: Option<(ModalSize, ModalPosition)>)
        ensures
            r == if old(self).visible && !visible {
                Some((old(self).size, old(self).position))
            } else {
                None
            },
            *final(self) == (OverlayTrack { visible, ..*old(self) }),
    {
        let clear = if self.visible && !visible {
            Some((self.size, self.position))
        } else {
            None
        };
        self.visible = visible;
        clear
    }

    /// After a frame was drawn at `size` and `position`: the area it covered
    /// before, to clear when the modal changed size or moved.
    pub fn after_frame(&mut self, size: ModalSize, position: ModalPosition) -> (r: Option<
        (ModalSize, ModalPosition),
    >)
        ensures
            r == if old(self).size != size || old(self).position != position {
                Some((old(self).size, old(self).position))
            } else {
                None
            },
            *final(self) == (OverlayTrack { size, position, ..*old(self) }),
    {
        if self.size != size || self.position != position {
            let old_area = (self.size, self.position);
            self.size = size;
            self.position = position;
            Some(old_area)
        } else {
            None
        }
    }
}

/// The characters of a camera frame in a modal of `modal_width` by
/// `modal_height` cells: braille dots for the braille set, otherwise the
/// downsampled brightness mapped onto the set's characters.
pub fn frame_chars(frame: &Frame, modal_width: u16, modal_height: u16, charset: CharSet, invert: bool) -> (r: Vec<
    char,
>)
    requires
        frame.width * frame.height <= u32::MAX,
    ensures
        charset == CharSet::Braille ==> r@.map_values(|c: char| c as int) == spec_render(
            spec_grayscale(frame.data@),
            frame.width as int,
            frame.height as int,
            modal_width as int,
            modal_height as int,
            BRAILLE_THRESHOLD,
            invert,
        ),
        charset != CharSet::Braille ==> r@ == spec_map_to_chars(
            spec_downsample(
                spec_grayscale(frame.data@),
                frame.width as int,
                frame.height as int,
                modal_width as int,
                modal_height as int,
            ),
            charset.spec_chars(),
            invert,
        ),
{
    let gray = to_grayscale(frame);
    if charset.is_braille() {
        render(gray.as_slice(), frame.width, frame.height, modal_width, modal_height, BRAILLE_THRESHOLD, invert)
    } else {
        let brightness = downsample(gray.as_slice(), frame.width, frame.height, modal_width, modal_height);
        map_to_chars(brightness.as_slice(), charset.chars(), invert)
    }
}

} // verus!
