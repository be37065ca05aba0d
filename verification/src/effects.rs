//! Video effects: color-grading presets for the webcam stream, and the
//! post-composition filters (vignette, grain, LIVE badge, timestamp) applied
//! to the composited frame.
use vstd::prelude::*;
use crate::text::{decimal, join, join_strings, lowercase, push_str, push_u64, str_eq, strings_view, to_lowercase};

verus! {

/// Font used by the text overlays.
pub const HELVETICA_FONT: &'static str = "/System/Library/Fonts/Helvetica.ttc";

/// Video effect preset that can be applied to the webcam stream.
#[derive(Debug, Clone, Copy, PartialEq, Eq, Structural)]
pub enum VideoEffect {
    /// No color grading, just the raw webcam feed
    NoEffect,
    /// Cyberpunk: blue/magenta color shift, increased saturation, slight contrast boost
    Cyberpunk,
    /// Dark-mode friendly: subtle brightness/contrast adjustment, preserves readability
    DarkMode,
}

impl Default for VideoEffect {
    fn default() -> (e: VideoEffect)
        ensures
            e == VideoEffect::NoEffect,
    {
        VideoEffect::NoEffect
    }
}

/// The effect that a lowercase name selects.
pub open spec fn effect_named(name: Seq<char>) -> Option<VideoEffect> {
    if name == "none"@ {
        Some(VideoEffect::NoEffect)
    } else if name == "cyberpunk"@ {
        Some(VideoEffect::Cyberpunk)
    } else if name == "dark_mode"@ || name == "darkmode"@ || name == "dark-mode"@ {
        Some(VideoEffect::DarkMode)
    } else {
        None
    }
}

/// Display name of each effect.
pub open spec fn effect_name(e: VideoEffect) -> Seq<char> {
    match e {
        VideoEffect::NoEffect => "none"@,
        VideoEffect::Cyberpunk => "cyberpunk"@,
        VideoEffect::DarkMode => "dark_mode"@,
    }
}

pub open spec fn cyberpunk_filter() -> Seq<char> {
    "curves=r='0/0 0.25/0.2 0.5/0.45 0.75/0.8 1/1':g='0/0 0.25/0.25 0.5/0.5 0.75/0.75 1/1':b='0/0 0.25/0.3 0.5/0.6 0.75/0.85 1/1',eq=saturation=1.4:contrast=1.1,colorbalance=rs=0.1:gs=-0.05:bs=0.2:rm=0.1:gm=-0.1:bm=0.15"@
}

pub open spec fn dark_mode_filter() -> Seq<char> {
    "eq=brightness=0.05:contrast=1.05:saturation=1.1,unsharp=5:5:0.5:5:5:0"@
}

/// The color-grading filter of each effect; `None` for no effect.
pub open spec fn effect_filter(e: VideoEffect) -> Option<Seq<char>> {
    match e {
        VideoEffect::NoEffect => None,
        VideoEffect::Cyberpunk => Some(cyberpunk_filter()),
        VideoEffect::DarkMode => Some(dark_mode_filter()),
    }
}

impl VideoEffect {
    /// Effect selected by a lowercase name: `none`, `cyberpunk`, or
    /// `dark_mode` / `darkmode` / `dark-mode`.
    pub fn from_name(name: &str) -> (r: Option<VideoEffect>)
        ensures
            r == effect_named(name@),
    {
        if str_eq(name, "none") {
            Some(VideoEffect::NoEffect)
        } else if str_eq(name, "cyberpunk") {
            Some(VideoEffect::Cyberpunk)
        } else if str_eq(name, "dark_mode") || str_eq(name, "darkmode") || str_eq(name, "dark-mode") {
            Some(VideoEffect::DarkMode)
        } else {
            None
        }
    }

    /// Parse an effect name, ignoring case.
    pub fn from_str(s: &str) -> (r: Option<VideoEffect>)
        ensures
            r == effect_named(lowercase(s@)),
    {
        let lower = to_lowercase(s);
        VideoEffect::from_name(lower.as_str())
    }

    /// The filter of this effect for the media tool; `None` when no effect
    /// is applied.
    pub fn to_filter(self) -> (r: Option<String>)
        ensures
            match effect_filter(self) {
                None => r is None,
                Some(f) => r matches Some(s) && s@ == f,
            },
    {
        match self {
            VideoEffect::NoEffect => None,
            VideoEffect::Cyberpunk => Some(String::from_str(
                "curves=r='0/0 0.25/0.2 0.5/0.45 0.75/0.8 1/1':g='0/0 0.25/0.25 0.5/0.5 0.75/0.75 1/1':b='0/0 0.25/0.3 0.5/0.6 0.75/0.85 1/1',eq=saturation=1.4:contrast=1.1,colorbalance=rs=0.1:gs=-0.05:bs=0.2:rm=0.1:gm=-0.1:bm=0.15",
            )),
            VideoEffect::DarkMode => Some(String::from_str(
                "eq=brightness=0.05:contrast=1.05:saturation=1.1,unsharp=5:5:0.5:5:5:0",
            )),
        }
    }

    /// Whether this effect applies any processing.
    pub fn is_active(&self) -> (b: bool)
        ensures
            b == !(*self is NoEffect),
    {
        !matches!(*self, VideoEffect::NoEffect)
    }

    /// Display name of this effect.
    pub fn to_string(&self) -> (r: String)
        ensures
            r@ == effect_name(*self),
    {
        match self {
            VideoEffect::NoEffect => String::from_str("none"),
            VideoEffect::Cyberpunk => String::from_str("cyberpunk"),
            VideoEffect::DarkMode => String::from_str("dark_mode"),
        }
    }
}

/// The display name of every effect parses back to that effect.
pub proof fn display_name_selects_effect(e: VideoEffect)
    ensures
        effect_named(effect_name(e)) == Some(e),
{
    reveal_strlit("none");
    reveal_strlit("cyberpunk");
    reveal_strlit("dark_mode");
    reveal_strlit("darkmode");
    reveal_strlit("dark-mode");
    match e {
        VideoEffect::NoEffect => {},
        VideoEffect::Cyberpunk => assert("cyberpunk"@.len() != "none"@.len()),
        VideoEffect::DarkMode => {
            assert("dark_mode"@.len() != "none"@.len());
            assert("dark_mode"@[0] != "cyberpunk"@[0]);
        },
    }
}

/// `scale=width:height`.
pub open spec fn scale_text(width: u32, height: u32) -> Seq<char> {
    "scale="@ + decimal(width as nat) + ":"@ + decimal(height as nat)
}

/// `scale=width:height`.
pub fn scale_filter(width: u32, height: u32) -> (r: String)
    ensures
        r@ == scale_text(width, height),
{
    let mut s = String::from_str("scale=");
    push_u64(&mut s, width as u64);
    push_str(&mut s, ":");
    push_u64(&mut s, height as u64);
    s
}

/// The steps of the webcam's filter chain, in order: the mirror flip (if
/// asked), the scale to the output size, the effect's color grading (if
/// any), then the conversion to RGBA with the overlay's alpha (`alpha` is
/// the opacity as written in the filter, two decimals).
pub open spec fn webcam_chain_steps(mirror: bool, effect: VideoEffect, alpha: Seq<char>, width: u32, height: u32) -> Seq<
    Seq<char>,
> {
    (if mirror { seq!["hflip"@] } else { Seq::empty() }) + seq![scale_text(width, height)] + match effect_filter(effect) {
        Some(f) => seq![f],
        None => Seq::empty(),
    } + seq!["format=rgba"@, "colorchannelmixer=aa="@ + alpha]
}

/// The webcam's filter chain: its steps joined by commas. Color grading
/// comes before the alpha blend, so the terminal under the overlay stays
/// untouched.
pub fn webcam_filter_chain(mirror: bool, effect: VideoEffect, alpha: &str, width: u32, height: u32) -> (r: String)
    ensures
        r@ == join(webcam_chain_steps(mirror, effect, alpha@, width, height), ","@),
{
    let mut steps: Vec<String> = Vec::new();
    if mirror {
        steps.push(String::from_str("hflip"));
    }
    steps.push(scale_filter(width, height));
    match effect.to_filter() {
        Some(f) => steps.push(f),
        None => {},
    }
    steps.push(String::from_str("format=rgba"));
    let mut mix = String::from_str("colorchannelmixer=aa=");
    push_str(&mut mix, alpha);
    steps.push(mix);
    assert(strings_view(steps@) =~= webcam_chain_steps(mirror, effect, alpha@, width, height));
    join_strings(&steps, ",")
}

/// The LIVE badge: red box, white 24pt text, top-left with a 20px margin.
pub open spec fn live_badge_text() -> Seq<char> {
    "drawtext=text='LIVE':fontfile="@ + HELVETICA_FONT@
        + ":fontsize=24:fontcolor=white:box=1:boxcolor=red@0.8:boxborderw=8:x=20:y=20"@
}

/// The timestamp: local time as HH:MM:SS, semi-transparent white 18pt text,
/// top-right with a 20px margin.
pub open spec fn timestamp_text() -> Seq<char> {
    "drawtext=text='%{localtime\\:%H\\\\\\:%M\\\\\\:%S}':fontfile="@ + HELVETICA_FONT@
        + ":fontsize=18:fontcolor=white@0.8:x=w-tw-20:y=20"@
}

pub open spec fn vignette_text() -> Seq<char> {
    "vignette=PI/5"@
}

pub open spec fn grain_text() -> Seq<char> {
    "noise=alls=10:allf=t"@
}

/// Filter of the LIVE badge overlay.
pub fn build_live_badge_filter() -> (r: String)
    ensures
        r@ == live_badge_text(),
{
    let mut s = String::from_str("drawtext=text='LIVE':fontfile=");
    push_str(&mut s, HELVETICA_FONT);
    push_str(&mut s, ":fontsize=24:fontcolor=white:box=1:boxcolor=red@0.8:boxborderw=8:x=20:y=20");
    s
}

/// Filter of the timestamp overlay.
pub fn build_timestamp_filter() -> (r: String)
    ensures
        r@ == timestamp_text(),
{
    let mut s = String::from_str("drawtext=text='%{localtime\\:%H\\\\\\:%M\\\\\\:%S}':fontfile=");
    push_str(&mut s, HELVETICA_FONT);
    push_str(&mut s, ":fontsize=18:fontcolor=white@0.8:x=w-tw-20:y=20");
    s
}

/// The enabled post-composition filters, in the order they are applied:
/// vignette, grain, LIVE badge, timestamp.
pub open spec fn post_composition_parts(vignette: bool, grain: bool, live_badge: bool, timestamp: bool) -> Seq<
    Seq<char>,
> {
    (if vignette { seq![vignette_text()] } else { Seq::empty() })
        + (if grain { seq![grain_text()] } else { Seq::empty() })
        + (if live_badge { seq![live_badge_text()] } else { Seq::empty() })
        + (if timestamp { seq![timestamp_text()] } else { Seq::empty() })
}

/// Filter chain applied after the overlay blend: the enabled filters joined
/// by commas, or `None` when none is enabled.
pub fn build_post_composition_filter(vignette: bool, grain: bool, live_badge: bool, timestamp: bool) -> (r:
    Option<String>)
    ensures
        post_composition_parts(vignette, grain, live_badge, timestamp).len() == 0 ==> r is None,
        post_composition_parts(vignette, grain, live_badge, timestamp).len() > 0 ==> (r matches Some(s)
            && s@ == join(post_composition_parts(vignette, grain, live_badge, timestamp), ","@)),
{
    let mut filters: Vec<String> = Vec::new();
    if vignette {
        filters.push(String::from_str("vignette=PI/5"));
    }
    if grain {
        filters.push(String::from_str("noise=alls=10:allf=t"));
    }
    if live_badge {
        filters.push(build_live_badge_filter());
    }
    if timestamp {
        filters.push(build_timestamp_filter());
    }
    assert(strings_view(filters@) =~= post_composition_parts(vignette, grain, live_badge, timestamp));
    if filters.len() == 0 {
        None
    } else {
        Some(join_strings(&filters, ","))
    }
}

/// Text overlays come last: the timestamp, when enabled, is the last
/// post-composition filter, and the LIVE badge, when enabled with it, comes
/// just before it.
pub proof fn timestamp_is_applied_last(vignette: bool, grain: bool, live_badge: bool)
    ensures
        post_composition_parts(vignette, grain, live_badge, true).last() == timestamp_text(),
        live_badge ==> {
            let p = post_composition_parts(vignette, grain, true, true);
            p[p.len() - 2] == live_badge_text()
        },
{
}

} // verus!
