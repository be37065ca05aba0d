//! Which generated video the overlay shows: the current video, the one
//! fading in over it, and the phase of the transition between them. The
//! transition's progress and the overlay's opacity are kept by the caller.
use vstd::prelude::*;
use crate::text::{decimal, push_str, push_u64};

verus! {

/// Default duration of a crossfade, in milliseconds.
pub const DEFAULT_CROSSFADE_DURATION_MS: u32 = 500;

/// Phase of the transition between overlay videos.
#[derive(Debug, Clone, Copy, PartialEq, Eq, Structural)]
pub enum TransitionPhase {
    /// No transition in progress
    Idle,
    /// The pending video fades in over the current one
    CrossfadeIn { duration_ms: u32 },
    /// The current video fades out (the overlay is being cleared)
    FadeOut { duration_ms: u32 },
}

/// The overlay's videos (of type `P`) and its transition phase.
pub struct OverlaySlots<P> {
    current_video: Option<P>,
    pending_video: Option<P>,
    phase: TransitionPhase,
    crossfade_duration_ms: u32,
}

impl<P> OverlaySlots<P> {
    /// The video shown.
    pub closed spec fn current(&self) -> Option<P> {
        self.current_video
    }

    /// The video fading in.
    pub closed spec fn pending(&self) -> Option<P> {
        self.pending_video
    }

    /// The transition phase.
    pub closed spec fn phase_spec(&self) -> TransitionPhase {
        self.phase
    }

    /// The duration of crossfades started by `queue_video` and of fade-outs.
    pub closed spec fn duration(&self) -> u32 {
        self.crossfade_duration_ms
    }

    /// An empty overlay whose transitions last `crossfade_duration_ms`.
    pub fn new(crossfade_duration_ms: u32) -> (s: Self)
        ensures
            s.current() is None,
            s.pending() is None,
            s.phase_spec() == TransitionPhase::Idle,
            s.duration() == crossfade_duration_ms,
    {
        OverlaySlots {
            current_video: None,
            pending_video: None,
            phase: TransitionPhase::Idle,
            crossfade_duration_ms,
        }
    }

    pub fn crossfade_duration_ms(&self) -> (d: u32)
        ensures
            d == self.duration(),
    {
        self.crossfade_duration_ms
    }

    pub fn set_crossfade_duration_ms(&mut self, duration_ms: u32)
        ensures
            final(self).duration() == duration_ms,
            final(self).current() == old(self).current(),
            final(self).pending() == old(self).pending(),
            final(self).phase_spec() == old(self).phase_spec(),
    {
        self.crossfade_duration_ms = duration_ms;
    }

    /// Show `video`: at once when nothing shows or `duration_ms` is 0;
    /// otherwise it becomes the pending video and fades in over
    /// `duration_ms` milliseconds.
    pub fn queue_video_with_duration(&mut self, video: P, duration_ms: u32)
        ensures
            final(self).duration() == old(self).duration(),
            old(self).current() is Some && duration_ms != 0 ==> {
                &&& final(self).current() == old(self).current()
                &&& final(self).pending() == Some(video)
                &&& final(self).phase_spec() == TransitionPhase::CrossfadeIn { duration_ms }
            },
            old(self).current() is None || duration_ms == 0 ==> {
                &&& final(self).current() == Some(video)
                &&& final(self).pending() is None
                &&& final(self).phase_spec() == TransitionPhase::Idle
            },
    {
        if self.current_video.is_some() && duration_ms != 0 {
            self.pending_video = Some(video);
            self.phase = TransitionPhase::CrossfadeIn { duration_ms };
        } else {
            self.current_video = Some(video);
            self.pending_video = None;
            self.phase = TransitionPhase::Idle;
        }
    }

    /// Show `video` with a crossfade of the configured duration.
    pub fn queue_video(&mut self, video: P)
        ensures
            final(self).duration() == old(self).duration(),
            old(self).current() is Some && old(self).duration() != 0 ==> {
                &&& final(self).current() == old(self).current()
                &&& final(self).pending() == Some(video)
                &&& final(self).phase_spec() == TransitionPhase::CrossfadeIn {
                    duration_ms: old(self).duration(),
                }
            },
            old(self).current() is None || old(self).duration() == 0 ==> {
                &&& final(self).current() == Some(video)
                &&& final(self).pending() is None
                &&& final(self).phase_spec() == TransitionPhase::Idle
            },
    {
        let d = self.crossfade_duration_ms;
        self.queue_video_with_duration(video, d);
    }

    /// Show `video` at once, without a transition.
    pub fn cut_to_video(&mut self, video: P)
        ensures
            final(self).duration() == old(self).duration(),
            final(self).current() == Some(video),
            final(self).pending() is None,
            final(self).phase_spec() == TransitionPhase::Idle,
    {
        self.queue_video_with_duration(video, 0);
    }

    /// The transition has run its course: a crossfade leaves the pending
    /// video showing (whatever was pending, none included), a fade-out
    /// leaves nothing showing; either way the overlay is idle. Nothing
    /// changes when idle.
    pub fn finish_transition(&mut self)
        ensures
            final(self).duration() == old(self).duration(),
            final(self).phase_spec() == TransitionPhase::Idle,
            match old(self).phase_spec() {
                TransitionPhase::Idle => final(self).current() == old(self).current() && final(self).pending()
                    == old(self).pending(),
                TransitionPhase::CrossfadeIn { .. } => final(self).current() == old(self).pending()
                    && final(self).pending() is None,
                TransitionPhase::FadeOut { .. } => final(self).current() is None && final(self).pending()
                    == old(self).pending(),
            },
    {
        match self.phase {
            TransitionPhase::Idle => {},
            TransitionPhase::CrossfadeIn { .. } => {
                self.current_video = self.pending_video.take();
                self.phase = TransitionPhase::Idle;
            },
            TransitionPhase::FadeOut { .. } => {
                self.current_video = None;
                self.phase = TransitionPhase::Idle;
            },
        }
    }

    /// Clear the overlay: drop the pending video and fade the current one
    /// out over the configured duration (idle when nothing shows).
    pub fn clear(&mut self)
        ensures
            final(self).duration() == old(self).duration(),
            final(self).current() == old(self).current(),
            final(self).pending() is None,
            final(self).phase_spec() == if old(self).current() is Some {
                TransitionPhase::FadeOut { duration_ms: old(self).duration() }
            } else {
                TransitionPhase::Idle
            },
    {
        self.pending_video = None;
        if self.current_video.is_some() {
            self.phase = TransitionPhase::FadeOut { duration_ms: self.crossfade_duration_ms };
        } else {
            self.phase = TransitionPhase::Idle;
        }
    }

    /// Clear the overlay at once.
    pub fn clear_immediate(&mut self)
        ensures
            final(self).duration() == old(self).duration(),
            final(self).current() is None,
            final(self).pending() is None,
            final(self).phase_spec() == TransitionPhase::Idle,
    {
        self.current_video = None;
        self.pending_video = None;
        self.phase = TransitionPhase::Idle;
    }

    /// End a crossfade at once, when a video is pending.
    pub fn complete_crossfade_immediately(&mut self)
        ensures
            final(self).duration() == old(self).duration(),
            (old(self).phase_spec() is CrossfadeIn && old(self).pending() is Some) ==> {
                &&& final(self).current() == old(self).pending()
                &&& final(self).pending() is None
                &&& final(self).phase_spec() == TransitionPhase::Idle
            },
            !(old(self).phase_spec() is CrossfadeIn && old(self).pending() is Some) ==> {
                &&& final(self).current() == old(self).current()
                &&& final(self).pending() == old(self).pending()
                &&& final(self).phase_spec() == old(self).phase_spec()
            },
    {
        if let TransitionPhase::CrossfadeIn { .. } = self.phase {
            if self.pending_video.is_some() {
                self.current_video = self.pending_video.take();
                self.phase = TransitionPhase::Idle;
            }
        }
    }

    pub fn is_fading_out(&self) -> (b: bool)
        ensures
            b == self.phase_spec() is FadeOut,
    {
        matches!(self.phase, TransitionPhase::FadeOut { .. })
    }

    pub fn is_crossfading(&self) -> (b: bool)
        ensures
            b == self.phase_spec() is CrossfadeIn,
    {
        matches!(self.phase, TransitionPhase::CrossfadeIn { .. })
    }

    pub fn phase(&self) -> (p: TransitionPhase)
        ensures
            p == self.phase_spec(),
    {
        self.phase
    }

    pub fn current_video(&self) -> (v: Option<&P>)
        ensures
            v == match self.current() {
                Some(p) => Some(&p),
                None => None::<&P>,
            },
    {
        self.current_video.as_ref()
    }

    pub fn pending_video(&self) -> (v: Option<&P>)
        ensures
            v == match self.pending() {
                Some(p) => Some(&p),
                None => None::<&P>,
            },
    {
        self.pending_video.as_ref()
    }

    /// The overlay's filter at `width` by `height`: nothing when no video
    /// shows; during a crossfade with a pending video and a non-zero
    /// duration, the two videos blended over `duration_text` seconds at
    /// `alpha`; while fading out, the video at `faded_alpha`; otherwise the
    /// video at `alpha`. The numbers are given as the filter writes them.
    pub fn filter_with_resolution(
        &self,
        width: u32,
        height: u32,
        alpha: &str,
        duration_text: &str,
        faded_alpha: &str,
    ) -> (r: String)
        ensures
            r@ == overlay_filter_text(
                self.current() is Some,
                self.pending() is Some,
                self.phase_spec(),
                width,
                height,
                alpha@,
                duration_text@,
                faded_alpha@,
            ),
    {
        if self.current_video.is_none() {
            return String::new();
        }
        match self.phase {
            TransitionPhase::CrossfadeIn { duration_ms } => {
                if self.pending_video.is_some() && duration_ms != 0 {
                    crossfade_filter(width, height, duration_text, alpha)
                } else {
                    single_filter(width, height, alpha)
                }
            },
            TransitionPhase::FadeOut { .. } => single_filter(width, height, faded_alpha),
            TransitionPhase::Idle => single_filter(width, height, alpha),
        }
    }
}

/// The looped, scaled video at `alpha`.
pub open spec fn single_text(width: u32, height: u32, alpha: Seq<char>) -> Seq<char> {
    "loop=-1:size=9999,scale="@ + decimal(width as nat) + ":"@ + decimal(height as nat)
        + ",format=rgba,colorchannelmixer=aa="@ + alpha
}

/// The current and pending videos blended over `duration` seconds at `alpha`.
pub open spec fn crossfade_text(width: u32, height: u32, duration: Seq<char>, alpha: Seq<char>) -> Seq<char> {
    "[ai_current]loop=-1:size=9999,scale="@ + decimal(width as nat) + ":"@ + decimal(height as nat)
        + "[ai_c];[ai_pending]loop=-1:size=9999,scale="@ + decimal(width as nat) + ":"@ + decimal(
        height as nat,
    ) + "[ai_p];[ai_c][ai_p]xfade=transition=fade:duration="@ + duration
        + ":offset=0,format=rgba,colorchannelmixer=aa="@ + alpha
}

/// The overlay's filter text; see `OverlaySlots::filter_with_resolution`.
pub open spec fn overlay_filter_text(
    showing: bool,
    pending: bool,
    phase: TransitionPhase,
    width: u32,
    height: u32,
    alpha: Seq<char>,
    duration: Seq<char>,
    faded_alpha: Seq<char>,
) -> Seq<char> {
    if !showing {
        Seq::empty()
    } else {
        match phase {
            TransitionPhase::CrossfadeIn { duration_ms } => if pending && duration_ms != 0 {
                crossfade_text(width, height, duration, alpha)
            } else {
                single_text(width, height, alpha)
            },
            TransitionPhase::FadeOut { .. } => single_text(width, height, faded_alpha),
            TransitionPhase::Idle => single_text(width, height, alpha),
        }
    }
}

fn single_filter(width: u32, height: u32, alpha: &str) -> (r: String)
    ensures
        r@ == single_text(width, height, alpha@),
{
    let mut s = String::from_str("loop=-1:size=9999,scale=");
    push_u64(&mut s, width as u64);
    push_str(&mut s, ":");
    push_u64(&mut s, height as u64);
    push_str(&mut s, ",format=rgba,colorchannelmixer=aa=");
    push_str(&mut s, alpha);
    proof {
        reveal_strlit("loop=-1:size=9999,scale=");
    }
    assert(s@ =~= single_text(width, height, alpha@));
    s
}

fn crossfade_filter(width: u32, height: u32, duration: &str, alpha: &str) -> (r: String)
    ensures
        r@ == crossfade_text(width, height, duration@, alpha@),
{
    let mut s = String::from_str("[ai_current]loop=-1:size=9999,scale=");
    push_u64(&mut s, width as u64);
    push_str(&mut s, ":");
    push_u64(&mut s, height as u64);
    push_str(&mut s, "[ai_c];[ai_pending]loop=-1:size=9999,scale=");
    push_u64(&mut s, width as u64);
    push_str(&mut s, ":");
    push_u64(&mut s, height as u64);
    push_str(&mut s, "[ai_p];[ai_c][ai_p]xfade=transition=fade:duration=");
    push_str(&mut s, duration);
    push_str(&mut s, ":offset=0,format=rgba,colorchannelmixer=aa=");
    push_str(&mut s, alpha);
    proof {
        reveal_strlit("[ai_current]loop=-1:size=9999,scale=");
    }
    assert(s@ =~= crossfade_text(width, height, duration@, alpha@));
    s
}

} // verus!
