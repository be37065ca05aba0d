//! The media tool's command line for a capture session: the inputs (screen,
//! webcam, generated video, audio), the filter graph that composites them,
//! and the encoding for the chosen output.
//!
//! Opacities enter as the text the filter shows (two decimals), so that the
//! graph is built from whole numbers and strings alone.
use vstd::prelude::*;
use crate::capture::{audio_args, audio_input_args, screen_args, webcam_args, ScreenCapture, WebcamCapture};
use crate::effects::{
    build_post_composition_filter, post_composition_parts, scale_filter, scale_text, webcam_chain_steps,
    webcam_filter_chain, VideoEffect,
};
use crate::text::{decimal, lemma_decimal_starts_with_digit, join, join_strings, push_str, push_u64, strings_view};

verus! {

/// Output mode of the pipeline.
#[derive(Debug, Clone)]
pub enum OutputMode {
    /// Preview only: output to a pipe for the player
    Preview,
    /// Recording only: output to this file (no preview)
    Recording(String),
    /// Both preview and recording (tee output to this file)
    Both(String),
}

/// `[composited]` when post-composition filters follow, else `[vout]`.
pub open spec fn overlay_label(post: bool) -> Seq<char> {
    if post {
        "[composited]"@
    } else {
        "[vout]"@
    }
}

/// Whether any post-composition filter is enabled.
pub open spec fn has_post(vignette: bool, grain: bool, live_badge: bool, timestamp: bool) -> bool {
    vignette || grain || live_badge || timestamp
}

/// The post-composition filter text.
pub open spec fn post_text(vignette: bool, grain: bool, live_badge: bool, timestamp: bool) -> Seq<char> {
    join(post_composition_parts(vignette, grain, live_badge, timestamp), ","@)
}

proof fn lemma_post_parts_empty(vignette: bool, grain: bool, live_badge: bool, timestamp: bool)
    ensures
        (post_composition_parts(vignette, grain, live_badge, timestamp).len() > 0) == has_post(
            vignette,
            grain,
            live_badge,
            timestamp,
        ),
{
}

/// The screen's filter: the window crop (if any), then the scale, labeled
/// `[screen]`.
pub open spec fn screen_filter_text(crop: Option<Seq<char>>, width: u32, height: u32) -> Seq<char> {
    "[0:v]"@ + match crop {
        Some(c) => c + ","@,
        None => Seq::empty(),
    } + scale_text(width, height) + "[screen]"@
}

/// The ghost overlay graph after the screen's filter `screen`: the webcam
/// chain labeled `[ghost]`, overlaid on the screen, then the
/// post-composition filters (if any) into `[vout]`.
pub open spec fn ghost_overlay_after(
    screen: Seq<char>,
    alpha: Seq<char>,
    mirror: bool,
    effect: VideoEffect,
    vignette: bool,
    grain: bool,
    live_badge: bool,
    timestamp: bool,
    width: u32,
    height: u32,
) -> Seq<char> {
    let post = has_post(vignette, grain, live_badge, timestamp);
    screen + ";[1:v]"@ + join(webcam_chain_steps(mirror, effect, alpha, width, height), ","@)
        + "[ghost];[screen][ghost]overlay=0:0:format=auto"@ + overlay_label(post) + if post {
        ";[composited]"@ + post_text(vignette, grain, live_badge, timestamp) + "[vout]"@
    } else {
        Seq::empty()
    }
}

fn screen_filter(crop: Option<&str>, width: u32, height: u32) -> (r: String)
    ensures
        r@ == screen_filter_text(
            match crop {
                Some(c) => Some(c@),
                None => None,
            },
            width,
            height,
        ),
{
    let mut s = String::from_str("[0:v]");
    match crop {
        Some(c) => {
            push_str(&mut s, c);
            push_str(&mut s, ",");
        },
        None => {},
    }
    let scale = scale_filter(width, height);
    push_str(&mut s, scale.as_str());
    push_str(&mut s, "[screen]");
    s
}

fn ghost_overlay_from(
    screen: String,
    alpha: &str,
    mirror: bool,
    effect: VideoEffect,
    vignette: bool,
    grain: bool,
    live_badge: bool,
    timestamp: bool,
    width: u32,
    height: u32,
) -> (r: String)
    ensures
        r@ == ghost_overlay_after(
            screen@,
            alpha@,
            mirror,
            effect,
            vignette,
            grain,
            live_badge,
            timestamp,
            width,
            height,
        ),
{
    let ghost sv = screen@;
    let mut s = screen;
    push_str(&mut s, ";[1:v]");
    let chain = webcam_filter_chain(mirror, effect, alpha, width, height);
    push_str(&mut s, chain.as_str());
    push_str(&mut s, "[ghost];[screen][ghost]overlay=0:0:format=auto");
    let post = build_post_composition_filter(vignette, grain, live_badge, timestamp);
    match post {
        Some(p) => {
            proof {
                lemma_post_parts_empty(vignette, grain, live_badge, timestamp);
            }
            assert(p@ == post_text(vignette, grain, live_badge, timestamp));
            push_str(&mut s, "[composited]");
            push_str(&mut s, ";[composited]");
            push_str(&mut s, p.as_str());
            push_str(&mut s, "[vout]");
            assert(s@ =~= ghost_overlay_after(
                sv,
                alpha@,
                mirror,
                effect,
                vignette,
                grain,
                live_badge,
                timestamp,
                width,
                height,
            ));
        },
        None => {
            proof {
                lemma_post_parts_empty(vignette, grain, live_badge, timestamp);
            }
            push_str(&mut s, "[vout]");
            assert(s@ =~= ghost_overlay_after(
                sv,
                alpha@,
                mirror,
                effect,
                vignette,
                grain,
                live_badge,
                timestamp,
                width,
                height,
            ));
        },
    }
    s
}

/// The filter graph that composites the webcam over the screen: the screen
/// scaled to the output size, the webcam chain (mirror, scale, color
/// grading, alpha `alpha`), the overlay, then the post-composition filters.
pub fn ghost_overlay_filter(
    alpha: &str,
    mirror: bool,
    effect: VideoEffect,
    vignette: bool,
    grain: bool,
    live_badge: bool,
    timestamp: bool,
    width: u32,
    height: u32,
) -> (r: String)
    ensures
        r@ == ghost_overlay_after(
            screen_filter_text(None, width, height),
            alpha@,
            mirror,
            effect,
            vignette,
            grain,
            live_badge,
            timestamp,
            width,
            height,
        ),
{
    let screen = screen_filter(None, width, height);
    ghost_overlay_from(screen, alpha, mirror, effect, vignette, grain, live_badge, timestamp, width, height)
}

/// The audio encoding arguments, when audio is captured.
pub open spec fn audio_codec_args(audio: bool) -> Seq<Seq<char>> {
    if audio {
        seq!["-c:a"@, "aac"@, "-b:a"@, "128k"@]
    } else {
        Seq::empty()
    }
}

/// The encoding and output arguments of an output mode: low-latency
/// encoding into a pipe for preview, quality encoding into the file for
/// recording, and for both, low-latency encoding teed into the pipe and
/// the file.
pub open spec fn output_args(mode: OutputMode, audio: bool) -> Seq<Seq<char>> {
    match mode {
        OutputMode::Preview => seq!["-c:v"@, "libx264"@, "-preset"@, "ultrafast"@, "-tune"@, "zerolatency"@]
            + audio_codec_args(audio) + seq!["-f"@, "nut"@, "pipe:1"@],
        OutputMode::Recording(path) => seq!["-c:v"@, "libx264"@, "-preset"@, "medium"@, "-crf"@, "23"@]
            + audio_codec_args(audio) + seq![path@],
        OutputMode::Both(path) => seq!["-c:v"@, "libx264"@, "-preset"@, "ultrafast"@, "-tune"@, "zerolatency"@]
            + audio_codec_args(audio) + seq!["-f"@, "tee"@, "[f=nut]pipe:1|[f=mp4:movflags=+faststart]"@ + path@],
    }
}

fn push_arg(args: &mut Vec<String>, a: &str)
    ensures
        strings_view(final(args)@) == strings_view(old(args)@).push(a@),
{
    let ghost before = args@;
    args.push(String::from_str(a));
    assert(strings_view(args@) =~= strings_view(before).push(a@));
}

fn append_args(args: &mut Vec<String>, more: Vec<String>)
    ensures
        strings_view(final(args)@) == strings_view(old(args)@) + strings_view(more@),
{
    let ghost before = args@;
    let n = more.len();
    let mut i: usize = 0;
    while i < n
        invariant
            n == more@.len(),
            i <= n,
            strings_view(args@) =~= strings_view(before) + strings_view(more@).take(i as int),
        decreases n - i,
    {
        let ghost mid = args@;
        args.push(more[i].clone());
        assert(strings_view(args@) =~= strings_view(mid).push(more@[i as int]@));
        assert(strings_view(more@).take(i + 1) =~= strings_view(more@).take(i as int).push(more@[i as int]@));
        i = i + 1;
    }
    assert(strings_view(more@).take(n as int) =~= strings_view(more@));
}

fn append_output_args(args: &mut Vec<String>, mode: &OutputMode, audio: bool)
    ensures
        strings_view(final(args)@) == strings_view(old(args)@) + output_args(*mode, audio),
{
    let ghost before = strings_view(args@);
    match mode {
        OutputMode::Recording(_) => {
            push_arg(args, "-c:v");
            push_arg(args, "libx264");
            push_arg(args, "-preset");
            push_arg(args, "medium");
            push_arg(args, "-crf");
            push_arg(args, "23");
        },
        _ => {
            push_arg(args, "-c:v");
            push_arg(args, "libx264");
            push_arg(args, "-preset");
            push_arg(args, "ultrafast");
            push_arg(args, "-tune");
            push_arg(args, "zerolatency");
        },
    }
    if audio {
        push_arg(args, "-c:a");
        push_arg(args, "aac");
        push_arg(args, "-b:a");
        push_arg(args, "128k");
    }
    match mode {
        OutputMode::Preview => {
            push_arg(args, "-f");
            push_arg(args, "nut");
            push_arg(args, "pipe:1");
        },
        OutputMode::Recording(path) => {
            push_arg(args, path.as_str());
        },
        OutputMode::Both(path) => {
            push_arg(args, "-f");
            push_arg(args, "tee");
            let mut tee = String::from_str("[f=nut]pipe:1|[f=mp4:movflags=+faststart]");
            push_str(&mut tee, path.as_str());
            push_arg(args, tee.as_str());
        },
    }
    assert(strings_view(args@) =~= before + output_args(*mode, audio));
}

/// The inputs and settings of a capture session, as the media tool sees
/// them.
#[derive(Debug, Clone)]
pub struct PipelineLayout {
    /// Screen capture settings (input 0)
    pub screen_capture: ScreenCapture,
    /// Screen device name
    pub screen_device: String,
    /// Crop of the captured window, when a window with known bounds is captured
    pub crop_filter: Option<String>,
    /// Webcam capture settings
    pub webcam_capture: WebcamCapture,
    /// Webcam device name, when the webcam is captured (input 1)
    pub webcam_device_name: Option<String>,
    /// Audio device name, when audio is captured (last input)
    pub audio_device_name: Option<String>,
    /// Audio filter (noise gate, compressor, volume), if any
    pub audio_filter: Option<String>,
    /// Video effect applied to the webcam stream only
    pub effect: VideoEffect,
    /// Vignette on the composited output
    pub vignette: bool,
    /// Film grain on the composited output
    pub grain: bool,
    /// LIVE badge overlay
    pub live_badge: bool,
    /// Timestamp overlay
    pub timestamp: bool,
    /// Output width
    pub width: u32,
    /// Output height
    pub height: u32,
    /// Generated video overlaid on top, looped, when one is set
    pub ai_video_path: Option<String>,
    /// Alpha of the generated video as written in the filter
    pub ai_video_alpha: String,
}

pub open spec fn opt_text(s: Option<String>) -> Option<Seq<char>> {
    match s {
        Some(t) => Some(t@),
        None => None,
    }
}

/// The generated video's filter, from input `input`: scaled, with its alpha.
pub open spec fn ai_filter_text(input: nat, width: u32, height: u32, alpha: Seq<char>) -> Seq<char> {
    "["@ + decimal(input) + ":v]"@ + scale_text(width, height) + ",format=rgba,colorchannelmixer=aa="@ + alpha
        + "[ai]"@
}

/// Input number of the audio: after the screen, the webcam and the
/// generated video that are present.
pub open spec fn audio_input(webcam: bool, ai: bool) -> nat {
    if webcam && ai {
        3
    } else if webcam || ai {
        2
    } else {
        1
    }
}

impl PipelineLayout {
    pub open spec fn post(&self) -> bool {
        has_post(self.vignette, self.grain, self.live_badge, self.timestamp)
    }

    pub open spec fn post_tail(&self) -> Seq<Seq<char>> {
        if self.post() {
            seq!["[composited]"@ + post_text(self.vignette, self.grain, self.live_badge, self.timestamp) + "[vout]"@]
        } else {
            Seq::empty()
        }
    }

    /// The video part of the filter graph, one entry per `;`-separated
    /// chain: with webcam and generated video, the screen, the webcam
    /// ghost and the generated video layered in that order; with only one
    /// of them, that one over the screen; with neither, the screen alone.
    /// The post-composition filters apply to the composited frame.
    pub open spec fn video_chains(&self, alpha: Seq<char>) -> Seq<Seq<char>> {
        let screen = screen_filter_text(opt_text(self.crop_filter), self.width, self.height);
        let webcam = self.webcam_device_name is Some;
        let ai = self.ai_video_path is Some;
        let post = self.post();
        if webcam && ai {
            seq![
                screen,
                "[1:v]"@ + join(
                    webcam_chain_steps(self.webcam_capture.mirror, self.effect, alpha, self.width, self.height),
                    ","@,
                ) + "[ghost]"@,
                ai_filter_text(2, self.width, self.height, self.ai_video_alpha@),
                "[screen][ghost]overlay=0:0:format=auto[pre_ai]"@,
                "[pre_ai][ai]overlay=0:0:format=auto"@ + overlay_label(post),
            ] + self.post_tail()
        } else if ai {
            seq![
                screen,
                ai_filter_text(1, self.width, self.height, self.ai_video_alpha@),
                "[screen][ai]overlay=0:0:format=auto"@ + overlay_label(post),
            ] + self.post_tail()
        } else if webcam {
            seq![
                ghost_overlay_after(
                    screen,
                    alpha,
                    self.webcam_capture.mirror,
                    self.effect,
                    self.vignette,
                    self.grain,
                    self.live_badge,
                    self.timestamp,
                    self.width,
                    self.height,
                ),
            ]
        } else {
            seq![
                "[0:v]"@ + match opt_text(self.crop_filter) {
                    Some(c) => c + ","@,
                    None => Seq::empty(),
                } + scale_text(self.width, self.height) + if post {
                    ","@ + post_text(self.vignette, self.grain, self.live_badge, self.timestamp)
                } else {
                    Seq::empty()
                } + "[vout]"@,
            ]
        }
    }

    /// The audio chain of the filter graph, when audio is captured: its
    /// filter, or a pass-through, into `[aout]`.
    pub open spec fn audio_chains(&self) -> Seq<Seq<char>> {
        if self.audio_device_name is Some {
            seq![
                "["@ + decimal(audio_input(self.webcam_device_name is Some, self.ai_video_path is Some)) + ":a]"@
                    + match opt_text(self.audio_filter) {
                    Some(f) => f,
                    None => "anull"@,
                } + "[aout]"@,
            ]
        } else {
            Seq::empty()
        }
    }

    /// The whole filter graph: the video chains then the audio chain,
    /// separated by `;`.
    pub open spec fn filter_text(&self, alpha: Seq<char>) -> Seq<char> {
        join(self.video_chains(alpha) + self.audio_chains(), ";"@)
    }

    /// The input arguments: screen, webcam, looped generated video, audio,
    /// in that order, each when present.
    pub open spec fn input_args(&self) -> Seq<Seq<char>> {
        screen_args(self.screen_capture, self.screen_device@) + match self.webcam_device_name {
            Some(n) => webcam_args(self.webcam_capture, n@),
            None => Seq::empty(),
        } + match self.ai_video_path {
            Some(p) => seq!["-stream_loop"@, "-1"@, "-i"@, p@],
            None => Seq::empty(),
        } + match self.audio_device_name {
            Some(n) => audio_args(n@),
            None => Seq::empty(),
        }
    }

    /// The media tool's whole argument list for webcam alpha `alpha` and
    /// output mode `mode`.
    pub open spec fn args_text(&self, alpha: Seq<char>, mode: OutputMode) -> Seq<Seq<char>> {
        self.input_args() + seq!["-filter_complex"@, self.filter_text(alpha), "-map"@, "[vout]"@] + if self.audio_device_name is Some {
            seq!["-map"@, "[aout]"@]
        } else {
            Seq::empty()
        } + output_args(mode, self.audio_device_name is Some)
    }
}

fn ai_filter(input: u64, width: u32, height: u32, alpha: &str) -> (r: String)
    ensures
        r@ == ai_filter_text(input as nat, width, height, alpha@),
{
    let mut s = String::from_str("[");
    push_u64(&mut s, input);
    push_str(&mut s, ":v]");
    let scale = scale_filter(width, height);
    push_str(&mut s, scale.as_str());
    push_str(&mut s, ",format=rgba,colorchannelmixer=aa=");
    push_str(&mut s, alpha);
    push_str(&mut s, "[ai]");
    s
}

fn opt_as_str(s: &Option<String>) -> (r: Option<&str>)
    ensures
        match r {
            Some(t) => opt_text(*s) == Some(t@),
            None => opt_text(*s) is None,
        },
{
    match s {
        Some(t) => Some(t.as_str()),
        None => None,
    }
}

impl PipelineLayout {
    fn post_chain(&self) -> (r: Option<String>)
        ensures
            match r {
                Some(c) => self.post() && seq![c@] == self.post_tail(),
                None => !self.post() && self.post_tail() == Seq::<Seq<char>>::empty(),
            },
    {
        proof {
            lemma_post_parts_empty(self.vignette, self.grain, self.live_badge, self.timestamp);
        }
        match build_post_composition_filter(self.vignette, self.grain, self.live_badge, self.timestamp) {
            Some(p) => {
                let mut c = String::from_str("[composited]");
                push_str(&mut c, p.as_str());
                push_str(&mut c, "[vout]");
                Some(c)
            },
            None => None,
        }
    }

    fn chains_webcam_and_ai(&self, alpha: &str) -> (r: Vec<String>)
        requires
            self.webcam_device_name is Some && self.ai_video_path is Some,
        ensures
            strings_view(r@) == self.video_chains(alpha@),
    {
        let crop = opt_as_str(&self.crop_filter);
        let mut chains: Vec<String> = Vec::new();
        chains.push(screen_filter(crop, self.width, self.height));
        let mut ghost = String::from_str("[1:v]");
        let chain = webcam_filter_chain(self.webcam_capture.mirror, self.effect, alpha, self.width, self.height);
        push_str(&mut ghost, chain.as_str());
        push_str(&mut ghost, "[ghost]");
        chains.push(ghost);
        chains.push(ai_filter(2, self.width, self.height, self.ai_video_alpha.as_str()));
        chains.push(String::from_str("[screen][ghost]overlay=0:0:format=auto[pre_ai]"));
        let tail = self.post_chain();
        let mut top = String::from_str("[pre_ai][ai]overlay=0:0:format=auto");
        match tail {
            Some(c) => {
                push_str(&mut top, "[composited]");
                chains.push(top);
                chains.push(c);
            },
            None => {
                push_str(&mut top, "[vout]");
                chains.push(top);
            },
        }
        assert(strings_view(chains@) =~= self.video_chains(alpha@));
        chains
    }

    fn chains_ai_only(&self, alpha: &str) -> (r: Vec<String>)
        requires
            self.webcam_device_name is None && self.ai_video_path is Some,
        ensures
            strings_view(r@) == self.video_chains(alpha@),
    {
        let crop = opt_as_str(&self.crop_filter);
        let mut chains: Vec<String> = Vec::new();
        chains.push(screen_filter(crop, self.width, self.height));
        chains.push(ai_filter(1, self.width, self.height, self.ai_video_alpha.as_str()));
        let tail = self.post_chain();
        let mut top = String::from_str("[screen][ai]overlay=0:0:format=auto");
        match tail {
            Some(c) => {
                push_str(&mut top, "[composited]");
                chains.push(top);
                chains.push(c);
            },
            None => {
                push_str(&mut top, "[vout]");
                chains.push(top);
            },
        }
        assert(strings_view(chains@) =~= self.video_chains(alpha@));
        chains
    }

    fn chains_webcam_only(&self, alpha: &str) -> (r: Vec<String>)
        requires
            self.webcam_device_name is Some && self.ai_video_path is None,
        ensures
            strings_view(r@) == self.video_chains(alpha@),
    {
        let crop = opt_as_str(&self.crop_filter);
        let mut chains: Vec<String> = Vec::new();
        let screen = screen_filter(crop, self.width, self.height);
        chains.push(
            ghost_overlay_from(
                screen,
                alpha,
                self.webcam_capture.mirror,
                self.effect,
                self.vignette,
                self.grain,
                self.live_badge,
                self.timestamp,
                self.width,
                self.height,
            ),
        );
        assert(strings_view(chains@) =~= self.video_chains(alpha@));
        chains
    }

    fn chains_screen_only(&self, alpha: &str) -> (r: Vec<String>)
        requires
            self.webcam_device_name is None && self.ai_video_path is None,
        ensures
            strings_view(r@) == self.video_chains(alpha@),
    {
        let crop = opt_as_str(&self.crop_filter);
        let mut chains: Vec<String> = Vec::new();
        let mut only = String::from_str("[0:v]");
        match crop {
            Some(c) => {
                push_str(&mut only, c);
                push_str(&mut only, ",");
            },
            None => {},
        }
        let scale = scale_filter(self.width, self.height);
        push_str(&mut only, scale.as_str());
        proof {
            lemma_post_parts_empty(self.vignette, self.grain, self.live_badge, self.timestamp);
        }
        let ghost base = only@;
        assert(base =~= "[0:v]"@ + match opt_text(self.crop_filter) {
            Some(c) => c + ","@,
            None => Seq::empty(),
        } + scale_text(self.width, self.height));
        let post = build_post_composition_filter(self.vignette, self.grain, self.live_badge, self.timestamp);
        match post {
            Some(p) => {
                assert(p@ == post_text(self.vignette, self.grain, self.live_badge, self.timestamp));
                push_str(&mut only, ",");
                push_str(&mut only, p.as_str());
            },
            None => {},
        }
        push_str(&mut only, "[vout]");
        assert(only@ =~= base + if self.post() {
            ","@ + post_text(self.vignette, self.grain, self.live_badge, self.timestamp)
        } else {
            Seq::empty()
        } + "[vout]"@);
        chains.push(only);
        assert(strings_view(chains@) =~= self.video_chains(alpha@));
        chains
    }

    fn video_chain_list(&self, alpha: &str) -> (r: Vec<String>)
        ensures
            strings_view(r@) == self.video_chains(alpha@),
    {
        let webcam = self.webcam_device_name.is_some();
        let ai = self.ai_video_path.is_some();
        if webcam && ai {
            self.chains_webcam_and_ai(alpha)
        } else if ai {
            self.chains_ai_only(alpha)
        } else if webcam {
            self.chains_webcam_only(alpha)
        } else {
            self.chains_screen_only(alpha)
        }
    }

    /// The filter graph of this session for webcam alpha `alpha` (the
    /// opacity as written in the filter).
    pub fn filter_chain(&self, alpha: &str) -> (r: String)
        ensures
            r@ == self.filter_text(alpha@),
    {
        let mut chains = self.video_chain_list(alpha);
        let ghost video = strings_view(chains@);
        if self.audio_device_name.is_some() {
            let index: u64 = if self.webcam_device_name.is_some() && self.ai_video_path.is_some() {
                3
            } else if self.webcam_device_name.is_some() || self.ai_video_path.is_some() {
                2
            } else {
                1
            };
            let mut audio = String::from_str("[");
            push_u64(&mut audio, index);
            push_str(&mut audio, ":a]");
            match &self.audio_filter {
                Some(f) => push_str(&mut audio, f.as_str()),
                None => push_str(&mut audio, "anull"),
            }
            push_str(&mut audio, "[aout]");
            chains.push(audio);
        }
        assert(strings_view(chains@) =~= video + self.audio_chains());
        join_strings(&chains, ";")
    }

    fn input_arg_list(&self) -> (r: Vec<String>)
        ensures
            strings_view(r@) == self.input_args(),
    {
        let mut args = self.screen_capture.to_ffmpeg_args(self.screen_device.as_str());
        match &self.webcam_device_name {
            Some(name) => append_args(&mut args, self.webcam_capture.to_ffmpeg_args(name.as_str())),
            None => {},
        }
        match &self.ai_video_path {
            Some(path) => {
                push_arg(&mut args, "-stream_loop");
                push_arg(&mut args, "-1");
                push_arg(&mut args, "-i");
                push_arg(&mut args, path.as_str());
            },
            None => {},
        }
        match &self.audio_device_name {
            Some(name) => append_args(&mut args, audio_input_args(name.as_str())),
            None => {},
        }
        assert(strings_view(args@) =~= self.input_args());
        args
    }

    /// The media tool's argument list for this session, with webcam alpha
    /// `alpha` and output mode `mode`.
    pub fn ffmpeg_args(&self, alpha: &str, mode: &OutputMode) -> (r: Vec<String>)
        ensures
            strings_view(r@) == self.args_text(alpha@, *mode),
    {
        let mut args = self.input_arg_list();
        push_arg(&mut args, "-filter_complex");
        let filter = self.filter_chain(alpha);
        push_arg(&mut args, filter.as_str());
        push_arg(&mut args, "-map");
        push_arg(&mut args, "[vout]");
        if self.audio_device_name.is_some() {
            push_arg(&mut args, "-map");
            push_arg(&mut args, "[aout]");
        }
        let ghost before = strings_view(args@);
        append_output_args(&mut args, mode, self.audio_device_name.is_some());
        assert(strings_view(args@) =~= self.args_text(alpha@, *mode));
        args
    }
}

/// Changing the webcam's opacity changes only the filter graph: the
/// argument lists for two opacities have the same length and differ at most
/// in the filter graph's entry, which comes right after `-filter_complex`
/// (its first occurrence, by `filter_flag_follows_the_inputs`).
pub proof fn opacity_changes_only_the_filter(l: PipelineLayout, a: Seq<char>, b: Seq<char>, mode: OutputMode)
    ensures
        l.args_text(a, mode).len() == l.args_text(b, mode).len(),
        l.args_text(a, mode)[l.input_args().len() as int] == "-filter_complex"@,
        l.args_text(a, mode)[l.input_args().len() + 1int] == l.filter_text(a),
        l.args_text(b, mode)[l.input_args().len() as int] == "-filter_complex"@,
        l.args_text(b, mode)[l.input_args().len() + 1int] == l.filter_text(b),
        forall|i: int|
            0 <= i < l.args_text(a, mode).len() && i != l.input_args().len() + 1 ==> #[trigger] l.args_text(a, mode)[i]
                == l.args_text(b, mode)[i],
{
    let n = l.input_args().len() as int;
    let tail = if l.audio_device_name is Some {
        seq!["-map"@, "[aout]"@]
    } else {
        Seq::empty()
    } + output_args(mode, l.audio_device_name is Some);
    assert(l.args_text(a, mode) =~= l.input_args() + seq!["-filter_complex"@, l.filter_text(a), "-map"@, "[vout]"@]
        + tail);
    assert(l.args_text(b, mode) =~= l.input_args() + seq!["-filter_complex"@, l.filter_text(b), "-map"@, "[vout]"@]
        + tail);
}

proof fn lemma_not_filter_flag(s: Seq<char>, fc: Seq<char>)
    requires
        fc == "-filter_complex"@,
        fc.len() == 15,
        fc[0] == '-',
        s.len() >= 1,
        s[0] != '-',
    ensures
        s != fc,
{
}

/// `-filter_complex` first occurs right after the inputs when no device
/// name or video path is itself `-filter_complex`: no input argument is that
/// flag.
pub proof fn filter_flag_follows_the_inputs(l: PipelineLayout)
    requires
        l.screen_device@ != "-filter_complex"@,
        l.webcam_device_name matches Some(n) ==> n@ != "-filter_complex"@,
        l.ai_video_path matches Some(p) ==> p@ != "-filter_complex"@,
    ensures
        forall|j: int| 0 <= j < l.input_args().len() ==> #[trigger] l.input_args()[j] != "-filter_complex"@,
{
    reveal_strlit("-filter_complex");
    reveal_strlit("-f");
    reveal_strlit("avfoundation");
    reveal_strlit("-framerate");
    reveal_strlit("-capture_cursor");
    reveal_strlit("1");
    reveal_strlit("0");
    reveal_strlit("-i");
    reveal_strlit("-video_size");
    reveal_strlit("-stream_loop");
    reveal_strlit("-1");
    reveal_strlit(":");
    reveal_strlit("x");
    let fc = "-filter_complex"@;
    let sc = l.screen_capture;
    let wc = l.webcam_capture;
    lemma_decimal_starts_with_digit(sc.framerate as nat);
    lemma_decimal_starts_with_digit(wc.framerate as nat);
    lemma_decimal_starts_with_digit(wc.width as nat);
    lemma_not_filter_flag(decimal(sc.framerate as nat), fc);
    lemma_not_filter_flag(decimal(wc.framerate as nat), fc);
    let size = decimal(wc.width as nat) + "x"@ + decimal(wc.height as nat);
    assert(size[0] == decimal(wc.width as nat)[0]);
    lemma_not_filter_flag(size, fc);
    let sa = screen_args(sc, l.screen_device@);
    assert(fc.len() == 15);
    assert forall|j: int| 0 <= j < sa.len() implies #[trigger] sa[j] != fc by {
        if j == 5 {
            if sc.capture_cursor {
                assert(sa[5] == "1"@);
            } else {
                assert(sa[5] == "0"@);
            }
            assert(sa[5].len() == 1);
        } else if j == 0 {
            assert(sa[0] == "-f"@);
        } else if j == 1 {
            assert(sa[1] == "avfoundation"@);
        } else if j == 2 {
            assert(sa[2] == "-framerate"@);
        } else if j == 4 {
            assert(sa[4] == "-capture_cursor"@);
            assert(sa[4][1] == 'c' && fc[1] == 'f');
        } else if j == 6 {
            assert(sa[6] == "-i"@);
        }
    }
    let wa = match l.webcam_device_name {
        Some(n) => webcam_args(wc, n@),
        None => Seq::empty(),
    };
    assert forall|j: int| 0 <= j < wa.len() implies #[trigger] wa[j] != fc by {}
    let va = match l.ai_video_path {
        Some(p) => seq!["-stream_loop"@, "-1"@, "-i"@, p@],
        None => Seq::empty(),
    };
    assert forall|j: int| 0 <= j < va.len() implies #[trigger] va[j] != fc by {
        match l.ai_video_path {
            Some(p) => {
                if j < 3 {
                    assert(va[j].len() != 15);
                } else {
                    assert(va[j] == p@);
                }
            },
            None => {},
        }
    }
    let aa = match l.audio_device_name {
        Some(n) => audio_args(n@),
        None => Seq::empty(),
    };
    match l.audio_device_name {
        Some(n) => {
            let colon = ":"@ + n@;
            assert(colon[0] == ':');
            lemma_not_filter_flag(colon, fc);
        },
        None => {},
    }
    assert forall|j: int| 0 <= j < aa.len() implies #[trigger] aa[j] != fc by {}
    let all = sa + wa + va + aa;
    assert(l.input_args() =~= all);
    assert forall|j: int| 0 <= j < all.len() implies #[trigger] all[j] != fc by {
        if j < sa.len() {
            assert(all[j] == sa[j]);
        } else if j < sa.len() + wa.len() {
            assert(all[j] == wa[j - sa.len()]);
        } else if j < sa.len() + wa.len() + va.len() {
            assert(all[j] == va[j - sa.len() - wa.len()]);
        } else {
            assert(all[j] == aa[j - sa.len() - wa.len() - va.len()]);
        }
    }
}

/// In the webcam's chain the mirror flip comes first and the color grading
/// comes right before the conversion to RGBA, that is before the alpha
/// blend; the alpha is set last.
pub proof fn color_grading_precedes_alpha(mirror: bool, effect: VideoEffect, alpha: Seq<char>, width: u32, height: u32)
    ensures
        ({
            let steps = webcam_chain_steps(mirror, effect, alpha, width, height);
            let k: int = if mirror { 2 } else { 1 };
            &&& mirror ==> steps[0] == "hflip"@
            &&& steps[k - 1] == scale_text(width, height)
            &&& steps.last() == "colorchannelmixer=aa="@ + alpha
            &&& match crate::effects::effect_filter(effect) {
                Some(f) => steps.len() == k + 3 && steps[k] == f && steps[k + 1] == "format=rgba"@,
                None => steps.len() == k + 2 && steps[k] == "format=rgba"@,
            }
        }),
{
}

} // verus!
