//! Replacing the overlay video: the decision whether a new video needs
//! converting, the filter that normalizes it, and the bookkeeping of pending
//! and completed replacements.
use vstd::prelude::*;
use std::time::Duration;
use crate::fal::retry::{duration_nanos, nanos_of};
use crate::text::{chars_are, decimal, lowercase, push_str, push_u64, str_chars, to_lowercase};

verus! {

/// Error types for video replacement operations.
#[derive(Debug)]
pub enum VideoReplacementError {
    /// The video file does not exist (its path).
    FileNotFound(String),
    /// Failed to probe video format.
    ProbeError(String),
    /// Video format is not supported.
    UnsupportedFormat(String),
}

pub open spec fn replacement_message(e: VideoReplacementError) -> Seq<char> {
    match e {
        VideoReplacementError::FileNotFound(p) => "Video file not found: "@ + p@,
        VideoReplacementError::ProbeError(m) => "Failed to probe video format: "@ + m@,
        VideoReplacementError::UnsupportedFormat(m) => "Unsupported video format: "@ + m@,
    }
}

impl VideoReplacementError {
    /// The user-facing message of this error.
    pub fn to_string(&self) -> (r: String)
        ensures
            r@ == replacement_message(*self),
    {
        let mut s = String::new();
        match self {
            VideoReplacementError::FileNotFound(p) => {
                push_str(&mut s, "Video file not found: ");
                push_str(&mut s, p.as_str());
            },
            VideoReplacementError::ProbeError(m) => {
                push_str(&mut s, "Failed to probe video format: ");
                push_str(&mut s, m.as_str());
            },
            VideoReplacementError::UnsupportedFormat(m) => {
                push_str(&mut s, "Unsupported video format: ");
                push_str(&mut s, m.as_str());
            },
        }
        s
    }
}

/// What the conversion decision reads of a probed video: its size and its
/// codec's name.
#[derive(Debug, Clone)]
pub struct StreamShape {
    pub width: u32,
    pub height: u32,
    pub codec: String,
}

/// Codecs that the compositor takes as they are, by lowercase name.
pub open spec fn standard_codec(lower: Seq<char>) -> bool {
    lower == "h264"@ || lower == "hevc"@ || lower == "vp9"@ || lower == "av1"@
}

/// Whether a video needs converting: its format is unknown, its size differs
/// from the target, or its codec, ignoring case, is not a standard one.
pub open spec fn conversion_needed(format: Option<StreamShape>, target_width: u32, target_height: u32) -> bool {
    match format {
        None => true,
        Some(f) => f.width != target_width || f.height != target_height || !standard_codec(
            lowercase(f.codec@),
        ),
    }
}

/// Whether the new video requires format conversion before it is shown.
pub fn needs_conversion(format: Option<&StreamShape>, target_width: u32, target_height: u32) -> (b: bool)
    ensures
        b == conversion_needed(
            match format {
                None => None,
                Some(f) => Some(*f),
            },
            target_width,
            target_height,
        ),
{
    match format {
        None => true,
        Some(f) => {
            if f.width != target_width || f.height != target_height {
                return true;
            }
            let lower = to_lowercase(f.codec.as_str());
            let c = str_chars(lower.as_str());
            let t = c.as_slice();
            !(chars_are(t, "h264") || chars_are(t, "hevc") || chars_are(t, "vp9") || chars_are(t, "av1"))
        },
    }
}

/// The filter that scales a video into the target size (padding the rest),
/// turns it to RGBA and sets its alpha to `alpha` (the opacity as text with
/// two decimals).
pub open spec fn normalization_text(
    input_label: Seq<char>,
    width: u32,
    height: u32,
    alpha: Seq<char>,
    output_label: Seq<char>,
) -> Seq<char> {
    input_label + "scale="@ + decimal(width as nat) + ":"@ + decimal(height as nat)
        + ":force_original_aspect_ratio=decrease,pad="@ + decimal(width as nat) + ":"@ + decimal(
        height as nat,
    ) + ":(ow-iw)/2:(oh-ih)/2,format=rgba,colorchannelmixer=aa="@ + alpha + output_label
}

/// Build the filter that normalizes a new video to the target resolution
/// at the given opacity.
pub fn build_normalization_filter(
    target_width: u32,
    target_height: u32,
    alpha: &str,
    input_label: &str,
    output_label: &str,
) -> (r: String)
    ensures
        r@ == normalization_text(input_label@, target_width, target_height, alpha@, output_label@),
{
    let mut s = String::new();
    push_str(&mut s, input_label);
    push_str(&mut s, "scale=");
    push_u64(&mut s, target_width as u64);
    push_str(&mut s, ":");
    push_u64(&mut s, target_height as u64);
    push_str(&mut s, ":force_original_aspect_ratio=decrease,pad=");
    push_u64(&mut s, target_width as u64);
    push_str(&mut s, ":");
    push_u64(&mut s, target_height as u64);
    push_str(&mut s, ":(ow-iw)/2:(oh-ih)/2,format=rgba,colorchannelmixer=aa=");
    push_str(&mut s, alpha);
    push_str(&mut s, output_label);
    assert(s@ =~= normalization_text(input_label@, target_width, target_height, alpha@, output_label@));
    s
}

/// Nanoseconds under which a replacement counts as fast (half a second).
pub const FAST_REPLACEMENT_NANOS: u128 = 500_000_000;

/// Tracks the pending replacement (of type `R`) and the completed ones.
pub struct VideoReplacementManager<R> {
    pending: Option<R>,
    last_replacement_duration: Option<Duration>,
    replacement_count: u32,
}

impl<R> VideoReplacementManager<R> {
    /// The replacement waiting to be applied.
    pub closed spec fn pending_spec(&self) -> Option<R> {
        self.pending
    }

    /// How long the last completed replacement took.
    pub closed spec fn last_spec(&self) -> Option<Duration> {
        self.last_replacement_duration
    }

    /// How many replacements were completed.
    pub closed spec fn count_spec(&self) -> u32 {
        self.replacement_count
    }

    /// A manager with nothing pending and nothing completed.
    pub fn new() -> (m: Self)
        ensures
            m.pending_spec() is None,
            m.last_spec() is None,
            m.count_spec() == 0,
    {
        VideoReplacementManager { pending: None, last_replacement_duration: None, replacement_count: 0 }
    }

    /// Queue a new video, whose file is at `path`; `path_exists` tells
    /// whether that file exists. A missing file is refused and changes
    /// nothing; otherwise the video becomes the pending one.
    pub fn queue_replacement(&mut self, replacement: R, path: &str, path_exists: bool) -> (r: Result<
        (),
        VideoReplacementError,
    >)
        ensures
            final(self).last_spec() == old(self).last_spec(),
            final(self).count_spec() == old(self).count_spec(),
            path_exists ==> r is Ok && final(self).pending_spec() == Some(replacement),
            !path_exists ==> (r matches Err(VideoReplacementError::FileNotFound(p)) && p@ == path@)
                && final(self).pending_spec() == old(self).pending_spec(),
    {
        if !path_exists {
            return Err(VideoReplacementError::FileNotFound(String::from_str(path)));
        }
        self.pending = Some(replacement);
        Ok(())
    }

    /// Whether a replacement is pending.
    pub fn has_pending(&self) -> (b: bool)
        ensures
            b == self.pending_spec() is Some,
    {
        self.pending.is_some()
    }

    /// Take the pending replacement, leaving none pending.
    pub fn take_pending(&mut self) -> (r: Option<R>)
        ensures
            r == old(self).pending_spec(),
            final(self).pending_spec() is None,
            final(self).last_spec() == old(self).last_spec(),
            final(self).count_spec() == old(self).count_spec(),
    {
        self.pending.take()
    }

    /// Record that a replacement completed after `duration`.
    pub fn record_replacement(&mut self, duration: Duration)
        requires
            old(self).count_spec() < u32::MAX,
        ensures
            final(self).last_spec() == Some(duration),
            final(self).count_spec() == old(self).count_spec() + 1,
            final(self).pending_spec() == old(self).pending_spec(),
    {
        self.last_replacement_duration = Some(duration);
        self.replacement_count = self.replacement_count + 1;
    }

    /// How long the last replacement took, if one completed.
    pub fn last_replacement_duration(&self) -> (r: Option<Duration>)
        ensures
            r == self.last_spec(),
    {
        self.last_replacement_duration
    }

    /// How many replacements completed.
    pub fn replacement_count(&self) -> (r: u32)
        ensures
            r == self.count_spec(),
    {
        self.replacement_count
    }

    /// Whether the last replacement took under half a second; true when
    /// none completed yet.
    pub fn last_replacement_was_fast(&self) -> (b: bool)
        ensures
            b == match self.last_spec() {
                None => true,
                Some(d) => duration_nanos(d) < FAST_REPLACEMENT_NANOS,
            },
    {
        match self.last_replacement_duration {
            None => true,
            Some(d) => nanos_of(d) < FAST_REPLACEMENT_NANOS,
        }
    }
}

} // verus!
