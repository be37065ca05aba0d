//! Capture sources (screen, webcam, window): the media-tool arguments and
//! filters they need, device selection from a device listing, and the errors
//! reported to the user.
pub mod errors;

pub use errors::CaptureError;

use vstd::prelude::*;
use crate::text::{
    decimal, signed_decimal, push_str, push_u64, push_i64, u64_to_string, str_chars, find, contains,
    index_of, lines, parse_unsigned, parse_i32_spec, trim, split_lines, parse_usize, parse_i32, trim_chars,
    string_from_chars,
};
use crate::text::{strings_view, lowercase, to_lowercase, starts_with, chars_start_with, split_commas, split_on_commas};
use crate::text::{chars_are, split_on_text, split_text};
use crate::order::{sorted_unique, strictly_sorted};
use crate::capture::errors::{capture_message, names_view};
use crate::devices::{device_entry, parse_entry, video_header, audio_header};

verus! {

/// A device found in the media tool's device listing.
#[derive(Debug, Clone)]
pub struct DeviceInfo {
    pub index: usize,
    pub name: String,
}

pub open spec fn info_view(d: DeviceInfo) -> (int, Seq<char>) {
    (d.index as int, d.name@)
}

/// Parse a single device line of the listing.
pub fn parse_device_line(line: &str) -> (r: Option<DeviceInfo>)
    ensures
        match device_entry(line@) {
            None => r is None,
            Some(e) => r matches Some(d) && d.index as int == e.0 && d.name@ == e.1,
        },
{
    let chars = str_chars(line);
    match parse_entry(chars.as_slice()) {
        Some((index, name)) => Some(DeviceInfo { index, name }),
        None => None,
    }
}

/// Entries of the video section: the lines after the video header, up to
/// the audio header.
pub open spec fn video_entries(ls: Seq<Seq<char>>, in_video: bool) -> Seq<(int, Seq<char>)>
    decreases ls.len(),
{
    if ls.len() == 0 {
        Seq::empty()
    } else if contains(ls[0], video_header()) {
        video_entries(ls.drop_first(), true)
    } else if contains(ls[0], audio_header()) {
        Seq::empty()
    } else {
        let tail = video_entries(ls.drop_first(), in_video);
        match device_entry(ls[0]) {
            Some(e) => if in_video { seq![e] + tail } else { tail },
            None => tail,
        }
    }
}


/// Entries of the audio section: the lines after the audio header.
pub open spec fn audio_entries(ls: Seq<Seq<char>>, in_audio: bool) -> Seq<(int, Seq<char>)>
    decreases ls.len(),
{
    if ls.len() == 0 {
        Seq::empty()
    } else if contains(ls[0], audio_header()) {
        audio_entries(ls.drop_first(), true)
    } else {
        let tail = audio_entries(ls.drop_first(), in_audio);
        match device_entry(ls[0]) {
            Some(e) => if in_audio { seq![e] + tail } else { tail },
            None => tail,
        }
    }
}


/// Parse the video devices of the media tool's device listing.
pub fn parse_video_devices(stderr: &str) -> (r: Result<Vec<DeviceInfo>, CaptureError>)
    ensures
        r matches Ok(v) && v@.map_values(|d: DeviceInfo| info_view(d)) == video_entries(lines(stderr@), false),
{
    let chars = str_chars(stderr);
    let ls = split_lines(chars.as_slice());
    let vh = str_chars("AVFoundation video devices:");
    let ah = str_chars("AVFoundation audio devices:");
    let ghost all = lines(stderr@);
    let mut out: Vec<DeviceInfo> = Vec::new();
    let mut in_video = false;
    let n = ls.len();
    let mut k: usize = 0;
    assert(all.skip(0) =~= all);
    while k < n
        invariant
            n == ls@.len(),
            n == all.len(),
            all == lines(stderr@),
            forall|t: int| 0 <= t < n ==> #[trigger] ls@[t]@ == all[t],
            vh@ == video_header(),
            ah@ == audio_header(),
            k <= n,
            video_entries(all, false) == out@.map_values(|d: DeviceInfo| info_view(d)) + video_entries(
                all.skip(k as int),
                in_video,
            ),
        decreases n - k,
    {
        let line = &ls[k];
        let ghost rest = all.skip(k as int);
        assert(rest[0] == all[k as int]);
        assert(rest.drop_first() =~= all.skip(k + 1));
        if find(line.as_slice(), vh.as_slice()).is_some() {
            in_video = true;
        } else if find(line.as_slice(), ah.as_slice()).is_some() {
            assert(out@.map_values(|d: DeviceInfo| info_view(d)) + Seq::<(int, Seq<char>)>::empty()
                =~= out@.map_values(|d: DeviceInfo| info_view(d)));
            return Ok(out);
        } else if in_video {
            match parse_entry(line.as_slice()) {
                Some((index, name)) => {
                    let ghost before = out@.map_values(|d: DeviceInfo| info_view(d));
                    out.push(DeviceInfo { index, name });
                    assert(out@.map_values(|d: DeviceInfo| info_view(d)) =~= before + seq![
                        device_entry(all[k as int])->0,
                    ]);
                },
                None => {},
            }
        }
        k = k + 1;
    }
    assert(all.skip(n as int) =~= Seq::<Seq<char>>::empty());
    assert(out@.map_values(|d: DeviceInfo| info_view(d)) =~= video_entries(all, false));
    Ok(out)
}

/// Parse the audio devices of the media tool's device listing.
pub fn parse_audio_devices(stderr: &str) -> (r: Result<Vec<DeviceInfo>, CaptureError>)
    ensures
        r matches Ok(v) && v@.map_values(|d: DeviceInfo| info_view(d)) == audio_entries(lines(stderr@), false),
{
    let chars = str_chars(stderr);
    let ls = split_lines(chars.as_slice());
    let ah = str_chars("AVFoundation audio devices:");
    let ghost all = lines(stderr@);
    let mut out: Vec<DeviceInfo> = Vec::new();
    let mut in_audio = false;
    let n = ls.len();
    let mut k: usize = 0;
    assert(all.skip(0) =~= all);
    while k < n
        invariant
            n == ls@.len(),
            n == all.len(),
            all == lines(stderr@),
            forall|t: int| 0 <= t < n ==> #[trigger] ls@[t]@ == all[t],
            ah@ == audio_header(),
            k <= n,
            audio_entries(all, false) == out@.map_values(|d: DeviceInfo| info_view(d)) + audio_entries(
                all.skip(k as int),
                in_audio,
            ),
        decreases n - k,
    {
        let line = &ls[k];
        let ghost rest = all.skip(k as int);
        assert(rest[0] == all[k as int]);
        assert(rest.drop_first() =~= all.skip(k + 1));
        if find(line.as_slice(), ah.as_slice()).is_some() {
            in_audio = true;
        } else if in_audio {
            match parse_entry(line.as_slice()) {
                Some((index, name)) => {
                    let ghost before = out@.map_values(|d: DeviceInfo| info_view(d));
                    out.push(DeviceInfo { index, name });
                    assert(out@.map_values(|d: DeviceInfo| info_view(d)) =~= before + seq![
                        device_entry(all[k as int])->0,
                    ]);
                },
                None => {},
            }
        }
        k = k + 1;
    }
    assert(all.skip(n as int) =~= Seq::<Seq<char>>::empty());
    assert(out@.map_values(|d: DeviceInfo| info_view(d)) =~= audio_entries(all, false));
    Ok(out)
}

/// Webcam capture configuration.
#[derive(Debug, Clone)]
pub struct WebcamCapture {
    /// Device name or index (`None` picks the first camera)
    pub device: Option<String>,
    /// Capture framerate
    pub framerate: u32,
    /// Capture width
    pub width: u32,
    /// Capture height
    pub height: u32,
    /// Mirror (horizontal flip) the webcam
    pub mirror: bool,
    /// Whether webcam capture is enabled
    pub enabled: bool,
}

impl Default for WebcamCapture {
    fn default() -> (c: WebcamCapture)
        ensures
            c.device is None,
            c.framerate == 30,
            c.width == 1280,
            c.height == 720,
            !c.mirror,
            c.enabled,
    {
        WebcamCapture { device: None, framerate: 30, width: 1280, height: 720, mirror: false, enabled: true }
    }
}

/// Name of the screen devices in the listing start with this prefix.
pub open spec fn screen_prefix() -> Seq<char> {
    "Capture screen"@
}

/// The cameras of a device listing: the devices that are not screens.
pub open spec fn camera_names(devices: Seq<DeviceInfo>) -> Seq<Seq<char>> {
    devices.map_values(|d: DeviceInfo| d.name@).filter(|n: Seq<char>| !starts_with(n, screen_prefix()))
}

/// The screens of a device listing.
pub open spec fn screen_names(devices: Seq<DeviceInfo>) -> Seq<Seq<char>> {
    devices.map_values(|d: DeviceInfo| d.name@).filter(|n: Seq<char>| starts_with(n, screen_prefix()))
}

/// Index of the first name whose lowercase form contains `needle`, or -1.
pub open spec fn first_containing(names: Seq<Seq<char>>, needle: Seq<char>, from: int) -> int
    decreases names.len() - from,
{
    if from < 0 || from >= names.len() {
        -1
    } else if contains(lowercase(names[from]), needle) {
        from
    } else {
        first_containing(names, needle, from + 1)
    }
}

/// Index of the first name equal to `target`, or -1.
pub open spec fn first_equal(names: Seq<Seq<char>>, target: Seq<char>, from: int) -> int
    decreases names.len() - from,
{
    if from < 0 || from >= names.len() {
        -1
    } else if names[from] == target {
        from
    } else {
        first_equal(names, target, from + 1)
    }
}

/// The device that a request selects among `names`: by index when the
/// request parses as a `usize`, else the first name containing it (both in
/// lowercase), else the first name equal to it; `None` when nothing matches.
pub open spec fn select_by_request(names: Seq<Seq<char>>, request: Seq<char>) -> Option<Seq<char>> {
    match parse_unsigned(request, usize::MAX as int) {
        Some(i) => if i < names.len() { Some(names[i]) } else { None },
        None => {
            let c = first_containing(names, lowercase(request), 0);
            if c >= 0 {
                Some(names[c])
            } else {
                let e = first_equal(names, request, 0);
                if e >= 0 { Some(names[e]) } else { None }
            }
        },
    }
}

/// Build a vector holding the names of the given devices for which the filter
/// `screens` (screens or cameras) holds.
fn filter_names(devices: &[DeviceInfo], screens: bool) -> (r: Vec<String>)
    ensures
        strings_view(r@) == (if screens { screen_names(devices@) } else { camera_names(devices@) }),
{
    let prefix = str_chars("Capture screen");
    let ghost names = devices@.map_values(|d: DeviceInfo| d.name@);
    let ghost pred = if screens {
        |n: Seq<char>| starts_with(n, screen_prefix())
    } else {
        |n: Seq<char>| !starts_with(n, screen_prefix())
    };
    let mut out: Vec<String> = Vec::new();
    let n = devices.len();
    let mut i: usize = 0;
    while i < n
        invariant
            n == devices@.len(),
            i <= n,
            prefix@ == screen_prefix(),
            names == devices@.map_values(|d: DeviceInfo| d.name@),
            pred == (if screens {
                |n: Seq<char>| starts_with(n, screen_prefix())
            } else {
                |n: Seq<char>| !starts_with(n, screen_prefix())
            }),
            strings_view(out@) == names.take(i as int).filter(pred),
        decreases n - i,
    {
        let name_chars = str_chars(devices[i].name.as_str());
        let is_screen = chars_start_with(name_chars.as_slice(), prefix.as_slice());
        let ghost before = out@;
        proof {
            reveal_with_fuel(Seq::<_>::filter, 1);
            assert(names.take(i + 1).drop_last() =~= names.take(i as int));
            assert(names.take(i + 1).last() == devices@[i as int].name@);
        }
        if is_screen == screens {
            out.push(devices[i].name.clone());
            assert(strings_view(out@) =~= strings_view(before).push(devices@[i as int].name@));
        }
        i = i + 1;
    }
    assert(names.take(n as int) =~= names);
    out
}

/// Index of the first name whose lowercase form contains `needle`.
fn find_containing(names: &Vec<String>, needle: &[char]) -> (r: Option<usize>)
    ensures
        match r {
            Some(i) => i == first_containing(strings_view(names@), needle@, 0) && i < names@.len(),
            None => first_containing(strings_view(names@), needle@, 0) == -1,
        },
{
    let n = names.len();
    let mut i: usize = 0;
    while i < n
        invariant
            n == names@.len(),
            i <= n,
            first_containing(strings_view(names@), needle@, 0) == first_containing(
                strings_view(names@),
                needle@,
                i as int,
            ),
        decreases n - i,
    {
        let lower = to_lowercase(names[i].as_str());
        let lc = str_chars(lower.as_str());
        if find(lc.as_slice(), needle).is_some() {
            return Some(i);
        }
        i = i + 1;
    }
    None
}

/// Index of the first name equal to `target`.
fn find_equal(names: &Vec<String>, target: &String) -> (r: Option<usize>)
    ensures
        match r {
            Some(i) => i == first_equal(strings_view(names@), target@, 0) && i < names@.len(),
            None => first_equal(strings_view(names@), target@, 0) == -1,
        },
{
    let n = names.len();
    let mut i: usize = 0;
    while i < n
        invariant
            n == names@.len(),
            i <= n,
            first_equal(strings_view(names@), target@, 0) == first_equal(strings_view(names@), target@, i as int),
        decreases n - i,
    {
        if names[i] == *target {
            return Some(i);
        }
        i = i + 1;
    }
    None
}

/// Select a device by request among `names` (see `select_by_request`).
fn select_named(names: &Vec<String>, request: &String) -> (r: Option<String>)
    ensures
        match select_by_request(strings_view(names@), request@) {
            Some(n) => r matches Some(s) && s@ == n,
            None => r is None,
        },
{
    let req = str_chars(request.as_str());
    match parse_usize(req.as_slice()) {
        Some(i) => {
            if i < names.len() {
                Some(names[i].clone())
            } else {
                None
            }
        },
        None => {
            let lower = to_lowercase(request.as_str());
            let lc = str_chars(lower.as_str());
            match find_containing(names, lc.as_slice()) {
                Some(c) => Some(names[c].clone()),
                None => match find_equal(names, request) {
                    Some(e) => Some(names[e].clone()),
                    None => None,
                },
            }
        },
    }
}

/// The webcam that a configuration selects from a device listing.
pub open spec fn webcam_choice(device: Option<String>, devices: Seq<DeviceInfo>) -> Result<Seq<char>, ()> {
    let cams = camera_names(devices);
    if cams.len() == 0 {
        Err(())
    } else {
        match device {
            None => Ok(cams[0]),
            Some(req) => match select_by_request(cams, req@) {
                Some(n) => Ok(n),
                None => Err(()),
            },
        }
    }
}

/// Input arguments of the media tool for a webcam device.
pub open spec fn webcam_args(c: WebcamCapture, device_name: Seq<char>) -> Seq<Seq<char>> {
    seq![
        "-f"@,
        "avfoundation"@,
        "-framerate"@,
        decimal(c.framerate as nat),
        "-video_size"@,
        decimal(c.width as nat) + "x"@ + decimal(c.height as nat),
        "-i"@,
        device_name,
    ]
}

/// Input arguments of the media tool for a screen device.
pub open spec fn screen_args(c: ScreenCapture, device_name: Seq<char>) -> Seq<Seq<char>> {
    seq![
        "-f"@,
        "avfoundation"@,
        "-framerate"@,
        decimal(c.framerate as nat),
        "-capture_cursor"@,
        if c.capture_cursor { "1"@ } else { "0"@ },
        "-i"@,
        device_name,
    ]
}

/// Input arguments of the media tool for an audio device: the `:` before
/// the name asks for audio only.
pub open spec fn audio_args(device_name: Seq<char>) -> Seq<Seq<char>> {
    seq!["-f"@, "avfoundation"@, "-i"@, ":"@ + device_name]
}

/// Input arguments of the media tool for an audio device.
pub fn audio_input_args(device_name: &str) -> (r: Vec<String>)
    ensures
        strings_view(r@) == audio_args(device_name@),
{
    let mut name = String::from_str(":");
    push_str(&mut name, device_name);
    let mut v: Vec<String> = Vec::new();
    v.push(String::from_str("-f"));
    v.push(String::from_str("avfoundation"));
    v.push(String::from_str("-i"));
    v.push(name);
    assert(strings_view(v@) =~= audio_args(device_name@));
    v
}

/// The names of the devices of a listing.
pub open spec fn device_names(devices: Seq<DeviceInfo>) -> Seq<Seq<char>> {
    devices.map_values(|d: DeviceInfo| d.name@)
}

/// The audio device that a request selects from a listing's audio devices.
pub open spec fn audio_choice(requested: Option<Seq<char>>, devices: Seq<DeviceInfo>) -> Result<Seq<char>, ()> {
    let names = device_names(devices);
    if names.len() == 0 {
        Err(())
    } else {
        match requested {
            None => Ok(names[0]),
            Some(req) => match select_by_request(names, req) {
                Some(n) => Ok(n),
                None => Err(()),
            },
        }
    }
}

pub open spec fn opt_str(s: Option<&str>) -> Option<Seq<char>> {
    match s {
        Some(t) => Some(t@),
        None => None,
    }
}

/// Choose the audio device among the audio devices of a listing: the
/// requested one (by index, by lowercase substring, or by exact name), or
/// the first one when none is requested.
pub fn select_audio_device(requested: Option<&str>, devices: &[DeviceInfo]) -> (r: Result<String, CaptureError>)
    ensures
        match audio_choice(opt_str(requested), devices@) {
            Ok(n) => r matches Ok(s) && s@ == n,
            Err(_) => r matches Err(e) && (if devices@.len() == 0 {
                e is NoAudioDevices
            } else {
                e matches CaptureError::AudioDeviceNotFound { requested: q, available } && q@ == requested->0@
                    && strings_view(available@) == device_names(devices@)
            }),
        },
{
    let n = devices.len();
    let mut names: Vec<String> = Vec::new();
    let mut i: usize = 0;
    while i < n
        invariant
            n == devices@.len(),
            i <= n,
            strings_view(names@) =~= device_names(devices@).take(i as int),
        decreases n - i,
    {
        let ghost before = names@;
        names.push(devices[i].name.clone());
        assert(strings_view(names@) =~= strings_view(before).push(devices@[i as int].name@));
        assert(device_names(devices@).take(i + 1) =~= device_names(devices@).take(i as int).push(
            devices@[i as int].name@,
        ));
        i = i + 1;
    }
    assert(device_names(devices@).take(n as int) =~= device_names(devices@));
    if n == 0 {
        return Err(CaptureError::NoAudioDevices);
    }
    match requested {
        None => Ok(names[0].clone()),
        Some(spec) => {
            let request = String::from_str(spec);
            match select_named(&names, &request) {
                Some(name) => Ok(name),
                None => Err(CaptureError::AudioDeviceNotFound { requested: request, available: names }),
            }
        },
    }
}

impl WebcamCapture {
    /// A webcam configuration with default settings.
    pub fn new() -> (c: WebcamCapture)
        ensures
            c.device is None,
            c.framerate == 30,
            c.width == 1280,
            c.height == 720,
            !c.mirror,
            c.enabled,
    {
        WebcamCapture::default()
    }

    /// Set the device by name or index.
    pub fn with_device(self, device: &str) -> (c: WebcamCapture)
        ensures
            c.device matches Some(d) && d@ == device@,
            c.framerate == self.framerate && c.width == self.width && c.height == self.height,
            c.mirror == self.mirror && c.enabled == self.enabled,
    {
        let mut c = self;
        c.device = Some(String::from_str(device));
        c
    }

    /// Set mirroring (horizontal flip).
    pub fn with_mirror(self, mirror: bool) -> (c: WebcamCapture)
        ensures
            c.mirror == mirror,
            c.device == self.device,
            c.framerate == self.framerate && c.width == self.width && c.height == self.height,
            c.enabled == self.enabled,
    {
        let mut c = self;
        c.mirror = mirror;
        c
    }

    /// Set the capture framerate.
    pub fn with_framerate(self, framerate: u32) -> (c: WebcamCapture)
        ensures
            c.framerate == framerate,
            c.device == self.device,
            c.width == self.width && c.height == self.height,
            c.mirror == self.mirror && c.enabled == self.enabled,
    {
        let mut c = self;
        c.framerate = framerate;
        c
    }

    /// A disabled webcam configuration (otherwise default).
    pub fn disabled() -> (c: WebcamCapture)
        ensures
            !c.enabled,
            c.device is None,
            c.framerate == 30,
            c.width == 1280,
            c.height == 720,
            !c.mirror,
    {
        let mut c = WebcamCapture::default();
        c.enabled = false;
        c
    }

    /// Choose the webcam from the video devices of a listing: the requested
    /// device (by index among the cameras, by lowercase substring, or by exact
    /// name), or the first camera when none is requested. Screens are not
    /// cameras.
    pub fn find_webcam_device(&self, devices: &[DeviceInfo]) -> (r: Result<String, CaptureError>)
        ensures
            match webcam_choice(self.device, devices@) {
                Ok(n) => r matches Ok(s) && s@ == n,
                Err(_) => r matches Err(e) && (if camera_names(devices@).len() == 0 {
                    e is NoWebcamDevices
                } else {
                    e matches CaptureError::WebcamNotFound { requested, available } && requested@
                        == self.device->0@ && strings_view(available@) == camera_names(devices@)
                }),
            },
    {
        let cameras = filter_names(devices, false);
        if cameras.len() == 0 {
            return Err(CaptureError::NoWebcamDevices);
        }
        match &self.device {
            Some(spec) => match select_named(&cameras, spec) {
                Some(name) => Ok(name),
                None => Err(CaptureError::WebcamNotFound { requested: spec.clone(), available: cameras }),
            },
            None => Ok(cameras[0].clone()),
        }
    }

    /// Input arguments for the media tool for this webcam.
    pub fn to_ffmpeg_args(&self, device_name: &str) -> (r: Vec<String>)
        ensures
            strings_view(r@) == webcam_args(*self, device_name@),
    {
        let mut size = String::new();
        push_u64(&mut size, self.width as u64);
        push_str(&mut size, "x");
        push_u64(&mut size, self.height as u64);
        let mut v: Vec<String> = Vec::new();
        v.push(String::from_str("-f"));
        v.push(String::from_str("avfoundation"));
        v.push(String::from_str("-framerate"));
        v.push(u64_to_string(self.framerate as u64));
        v.push(String::from_str("-video_size"));
        v.push(size);
        v.push(String::from_str("-i"));
        v.push(String::from_str(device_name));
        assert(strings_view(v@) =~= seq![
            "-f"@,
            "avfoundation"@,
            "-framerate"@,
            decimal(self.framerate as nat),
            "-video_size"@,
            decimal(self.width as nat) + "x"@ + decimal(self.height as nat),
            "-i"@,
            device_name@,
        ]);
        v
    }

    /// Filter for this webcam: a horizontal flip when mirroring.
    pub fn to_filter(&self) -> (r: Option<String>)
        ensures
            self.mirror ==> (r matches Some(f) && f@ == "hflip"@),
            !self.mirror ==> r is None,
    {
        if self.mirror {
            Some(String::from_str("hflip"))
        } else {
            None
        }
    }
}

/// Screen capture configuration.
#[derive(Debug, Clone)]
pub struct ScreenCapture {
    /// Screen index among the available screens
    pub screen_index: usize,
    /// Capture framerate
    pub framerate: u32,
    /// Include the mouse cursor in the capture
    pub capture_cursor: bool,
}

impl Default for ScreenCapture {
    fn default() -> (c: ScreenCapture)
        ensures
            c.screen_index == 0,
            c.framerate == 30,
            c.capture_cursor,
    {
        ScreenCapture { screen_index: 0, framerate: 30, capture_cursor: true }
    }
}

impl ScreenCapture {
    /// Screen capture of the given screen, with default settings.
    pub fn new(screen_index: usize) -> (c: ScreenCapture)
        ensures
            c.screen_index == screen_index,
            c.framerate == 30,
            c.capture_cursor,
    {
        ScreenCapture { screen_index, framerate: 30, capture_cursor: true }
    }

    /// Set the capture framerate.
    pub fn with_framerate(self, framerate: u32) -> (c: ScreenCapture)
        ensures
            c.framerate == framerate,
            c.screen_index == self.screen_index,
            c.capture_cursor == self.capture_cursor,
    {
        let mut c = self;
        c.framerate = framerate;
        c
    }

    /// Choose the screen device from a listing: the configured index among
    /// the devices whose name starts with "Capture screen".
    pub fn find_screen_device(&self, devices: &[DeviceInfo]) -> (r: Result<String, CaptureError>)
        ensures
            screen_names(devices@).len() == 0 ==> (r matches Err(e) && e is NoScreenDevices),
            screen_names(devices@).len() > 0 && self.screen_index >= screen_names(devices@).len() ==> (r matches Err(
                e,
            ) && e matches CaptureError::ScreenNotFound { requested, available } && requested
                == self.screen_index && available == screen_names(devices@).len()),
            self.screen_index < screen_names(devices@).len() ==> (r matches Ok(s) && s@ == screen_names(
                devices@,
            )[self.screen_index as int]),
    {
        let screens = filter_names(devices, true);
        if screens.len() == 0 {
            return Err(CaptureError::NoScreenDevices);
        }
        if self.screen_index >= screens.len() {
            return Err(CaptureError::ScreenNotFound { requested: self.screen_index, available: screens.len() });
        }
        Ok(screens[self.screen_index].clone())
    }

    /// Input arguments for the media tool for this screen.
    pub fn to_ffmpeg_args(&self, device_name: &str) -> (r: Vec<String>)
        ensures
            strings_view(r@) == screen_args(*self, device_name@),
    {
        let mut v: Vec<String> = Vec::new();
        v.push(String::from_str("-f"));
        v.push(String::from_str("avfoundation"));
        v.push(String::from_str("-framerate"));
        v.push(u64_to_string(self.framerate as u64));
        v.push(String::from_str("-capture_cursor"));
        v.push(if self.capture_cursor { String::from_str("1") } else { String::from_str("0") });
        v.push(String::from_str("-i"));
        v.push(String::from_str(device_name));
        assert(strings_view(v@) =~= seq![
            "-f"@,
            "avfoundation"@,
            "-framerate"@,
            decimal(self.framerate as nat),
            "-capture_cursor"@,
            if self.capture_cursor { "1"@ } else { "0"@ },
            "-i"@,
            device_name@,
        ]);
        v
    }
}

/// Window position and size (from the window-manager script).
#[derive(Debug, Clone, Copy, PartialEq, Eq, Structural)]
pub struct WindowBounds {
    /// Left edge
    pub x: i32,
    /// Top edge
    pub y: i32,
    /// Width
    pub width: u32,
    /// Height
    pub height: u32,
}

/// Crop filter text `crop=w:h:x:y`.
pub open spec fn crop_text(w: int, h: int, x: int, y: int) -> Seq<char> {
    "crop="@ + decimal(w as nat) + ":"@ + decimal(h as nat) + ":"@ + signed_decimal(x) + ":"@ + signed_decimal(y)
}

fn crop_string(w: u64, h: u64, x: i64, y: i64) -> (r: String)
    ensures
        r@ == crop_text(w as int, h as int, x as int, y as int),
{
    let mut s = String::new();
    push_str(&mut s, "crop=");
    push_u64(&mut s, w);
    push_str(&mut s, ":");
    push_u64(&mut s, h);
    push_str(&mut s, ":");
    push_i64(&mut s, x);
    push_str(&mut s, ":");
    push_i64(&mut s, y);
    assert(s@ =~= crop_text(w as int, h as int, x as int, y as int));
    s
}

impl WindowBounds {
    /// Crop filter for these bounds: `crop=width:height:x:y`.
    pub fn crop_filter(&self) -> (r: String)
        ensures
            r@ == crop_text(self.width as int, self.height as int, self.x as int, self.y as int),
    {
        crop_string(self.width as u64, self.height as u64, self.x as i64, self.y as i64)
    }

    /// Crop filter for a display that scales by two (logical to physical pixels).
    pub fn crop_filter_retina(&self) -> (r: String)
        requires
            self.width * 2 <= u32::MAX,
            self.height * 2 <= u32::MAX,
            i32::MIN <= self.x * 2 <= i32::MAX,
            i32::MIN <= self.y * 2 <= i32::MAX,
        ensures
            r@ == crop_text(2 * self.width, 2 * self.height, 2 * self.x, 2 * self.y),
    {
        crop_string(
            (self.width * 2) as u64,
            (self.height * 2) as u64,
            (self.x * 2) as i64,
            (self.y * 2) as i64,
        )
    }

    /// Crop filter for a display with the given scale factor.
    pub fn crop_filter_scaled(&self, scale: u32) -> (r: String)
        requires
            self.width * scale <= u32::MAX,
            self.height * scale <= u32::MAX,
        ensures
            r@ == crop_text(self.width * scale, self.height * scale, self.x * scale, self.y * scale),
    {
        assert(-0x8000_0000 * 0xFFFF_FFFF <= (self.x as int) * (scale as int) <= 0x7FFF_FFFF * 0xFFFF_FFFF)
            by (nonlinear_arith)
            requires
                -0x8000_0000 <= self.x <= 0x7FFF_FFFF,
                scale <= 0xFFFF_FFFF,
        ;
        assert(-0x8000_0000 * 0xFFFF_FFFF <= (self.y as int) * (scale as int) <= 0x7FFF_FFFF * 0xFFFF_FFFF)
            by (nonlinear_arith)
            requires
                -0x8000_0000 <= self.y <= 0x7FFF_FFFF,
                scale <= 0xFFFF_FFFF,
        ;
        crop_string(
            (self.width * scale) as u64,
            (self.height * scale) as u64,
            (self.x as i64) * (scale as i64),
            (self.y as i64) * (scale as i64),
        )
    }

    /// The crop filter for a display that does (`retina`) or does not scale by two.
    pub fn to_crop_filter(self, retina: bool) -> (r: String)
        requires
            retina ==> self.width * 2 <= u32::MAX && self.height * 2 <= u32::MAX && i32::MIN <= self.x * 2
                <= i32::MAX && i32::MIN <= self.y * 2 <= i32::MAX,
        ensures
            retina ==> r@ == crop_text(2 * self.width, 2 * self.height, 2 * self.x, 2 * self.y),
            !retina ==> r@ == crop_text(self.width as int, self.height as int, self.x as int, self.y as int),
    {
        if retina {
            self.crop_filter_retina()
        } else {
            self.crop_filter()
        }
    }
}

/// Window capture: a screen capture cropped to an application's window.
#[derive(Debug, Clone)]
pub struct WindowCapture {
    /// Application name
    pub app_name: String,
    /// Window bounds, once detected
    pub bounds: Option<WindowBounds>,
    /// Base screen capture settings
    pub screen_capture: ScreenCapture,
}

impl WindowCapture {
    /// Window capture of the named application; bounds not yet detected.
    pub fn new(app_name: &str) -> (c: WindowCapture)
        ensures
            c.app_name@ == app_name@,
            c.bounds is None,
            c.screen_capture.screen_index == 0,
            c.screen_capture.framerate == 30,
            c.screen_capture.capture_cursor,
    {
        WindowCapture { app_name: String::from_str(app_name), bounds: None, screen_capture: ScreenCapture::default() }
    }

    /// Crop filter of the detected window on a display that does
    /// (`retina`) or does not scale by two; `None` before detection.
    pub fn crop_filter(&self, retina: bool) -> (r: Option<String>)
        requires
            retina && self.bounds is Some ==> ({
                let b = self.bounds->0;
                b.width * 2 <= u32::MAX && b.height * 2 <= u32::MAX && i32::MIN <= b.x * 2 <= i32::MAX
                    && i32::MIN <= b.y * 2 <= i32::MAX
            }),
        ensures
            self.bounds is None ==> r is None,
            self.bounds matches Some(b) ==> (r matches Some(f) && (if retina {
                f@ == crop_text(2 * b.width, 2 * b.height, 2 * b.x, 2 * b.y)
            } else {
                f@ == crop_text(b.width as int, b.height as int, b.x as int, b.y as int)
            })),
    {
        match self.bounds {
            Some(b) => Some(b.to_crop_filter(retina)),
            None => None,
        }
    }

    /// Record the outcome of detecting the window's bounds: on success the
    /// bounds are kept for cropping; on failure nothing changes. The outcome
    /// is handed back.
    pub fn detect_bounds(&mut self, detected: Result<WindowBounds, CaptureError>) -> (r: Result<
        WindowBounds,
        CaptureError,
    >)
        ensures
            r == detected,
            final(self).app_name == old(self).app_name,
            final(self).screen_capture == old(self).screen_capture,
            final(self).bounds == match detected {
                Ok(b) => Some(b),
                Err(_) => old(self).bounds,
            },
    {
        match detected {
            Ok(b) => {
                self.bounds = Some(b);
                Ok(b)
            },
            Err(e) => Err(e),
        }
    }

    /// Screen input arguments for the media tool.
    pub fn to_ffmpeg_input_args(&self, screen_device: &str) -> (r: Vec<String>)
        ensures
            strings_view(r@) == screen_args(self.screen_capture, screen_device@),
    {
        self.screen_capture.to_ffmpeg_args(screen_device)
    }
}

/// Window bounds read from the script output `x,y,width,height` (each field
/// trimmed, parsed as `i32`, and width and height non-negative), or the
/// message that explains why the output is not such bounds.
pub open spec fn bounds_from_output(output: Seq<char>) -> Result<(int, int, int, int), Seq<char>> {
    let parts = split_commas(output);
    if parts.len() != 4 {
        Err("Unexpected bounds format: '"@ + output + "'. Expected 'x,y,width,height'"@)
    } else {
        match parse_i32_spec(trim(parts[0])) {
            None => Err("Invalid x coordinate: '"@ + parts[0] + "'"@),
            Some(x) => match parse_i32_spec(trim(parts[1])) {
                None => Err("Invalid y coordinate: '"@ + parts[1] + "'"@),
                Some(y) => match parse_i32_spec(trim(parts[2])) {
                    None => Err("Invalid width: '"@ + parts[2] + "'"@),
                    Some(w) => match parse_i32_spec(trim(parts[3])) {
                        None => Err("Invalid height: '"@ + parts[3] + "'"@),
                        Some(h) => if w < 0 || h < 0 {
                            Err("Invalid window dimensions: "@ + signed_decimal(w) + "x"@ + signed_decimal(h))
                        } else {
                            Ok((x, y, w, h))
                        },
                    },
                },
            },
        }
    }
}

fn parse_field(part: &Vec<char>) -> (r: Option<i32>)
    ensures
        match r {
            Some(w) => parse_i32_spec(trim(part@)) == Some(w as int),
            None => parse_i32_spec(trim(part@)) is None,
        },
{
    let t = trim_chars(part.as_slice());
    parse_i32(t.as_slice())
}

fn field_error(app_name: &str, prefix: &str, part: &Vec<char>) -> (e: CaptureError)
    ensures
        e matches CaptureError::WindowBoundsFailed { app_name: a, message } && a@ == app_name@ && message@
            == prefix@ + part@ + "'"@,
{
    let mut m = String::new();
    push_str(&mut m, prefix);
    let p = string_from_chars(part.as_slice());
    push_str(&mut m, p.as_str());
    push_str(&mut m, "'");
    CaptureError::WindowBoundsFailed { app_name: String::from_str(app_name), message: m }
}

/// Parse window bounds from the window-manager script output `x,y,width,height`.
pub fn parse_window_bounds(output: &str, app_name: &str) -> (r: Result<WindowBounds, CaptureError>)
    ensures
        match bounds_from_output(output@) {
            Ok(b) => r matches Ok(wb) && wb.x as int == b.0 && wb.y as int == b.1 && wb.width as int == b.2
                && wb.height as int == b.3,
            Err(msg) => r matches Err(e) && e matches CaptureError::WindowBoundsFailed { app_name: a, message }
                && a@ == app_name@ && message@ == msg,
        },
{
    let chars = str_chars(output);
    let parts = split_on_commas(chars.as_slice());
    if parts.len() != 4 {
        let mut m = String::new();
        push_str(&mut m, "Unexpected bounds format: '");
        push_str(&mut m, output);
        push_str(&mut m, "'. Expected 'x,y,width,height'");
        return Err(CaptureError::WindowBoundsFailed { app_name: String::from_str(app_name), message: m });
    }
    let x = match parse_field(&parts[0]) {
        Some(v) => v,
        None => return Err(field_error(app_name, "Invalid x coordinate: '", &parts[0])),
    };
    let y = match parse_field(&parts[1]) {
        Some(v) => v,
        None => return Err(field_error(app_name, "Invalid y coordinate: '", &parts[1])),
    };
    let width = match parse_field(&parts[2]) {
        Some(v) => v,
        None => return Err(field_error(app_name, "Invalid width: '", &parts[2])),
    };
    let height = match parse_field(&parts[3]) {
        Some(v) => v,
        None => return Err(field_error(app_name, "Invalid height: '", &parts[3])),
    };
    if width < 0 || height < 0 {
        let mut m = String::new();
        push_str(&mut m, "Invalid window dimensions: ");
        push_i64(&mut m, width as i64);
        push_str(&mut m, "x");
        push_i64(&mut m, height as i64);
        assert(m@ =~= "Invalid window dimensions: "@ + signed_decimal(width as int) + "x"@ + signed_decimal(
            height as int,
        ));
        return Err(CaptureError::WindowBoundsFailed { app_name: String::from_str(app_name), message: m });
    }
    assert(parts@[0]@ == split_commas(output@)[0]);
    assert(parts@[1]@ == split_commas(output@)[1]);
    assert(parts@[2]@ == split_commas(output@)[2]);
    assert(parts@[3]@ == split_commas(output@)[3]);
    Ok(WindowBounds { x, y, width: width as u32, height: height as u32 })
}

/// Whether the display is taken as Retina (scaled by two), from the two
/// probes: when the window-manager script cannot be started, or the display
/// report cannot be read (`None`), Retina is assumed, as on most current
/// Macs; otherwise the report decides by naming "Retina" or "retina".
pub open spec fn retina_judged(script_started: bool, display_report: Option<Seq<char>>) -> bool {
    if !script_started {
        true
    } else {
        match display_report {
            Some(r) => contains(r, "Retina"@) || contains(r, "retina"@),
            None => true,
        }
    }
}

/// Whether the display is taken as Retina; see `retina_judged`.
pub fn retina_from_probes(script_started: bool, display_report: Option<&str>) -> (b: bool)
    ensures
        b == retina_judged(script_started, opt_str(display_report)),
{
    if !script_started {
        return true;
    }
    match display_report {
        Some(r) => {
            let c = str_chars(r);
            let upper = str_chars("Retina");
            let lower = str_chars("retina");
            find(c.as_slice(), upper.as_slice()).is_some() || find(c.as_slice(), lower.as_slice()).is_some()
        },
        None => true,
    }
}

/// The application names that a listing of running applications holds:
/// the trimmed output split at `", "`, each name trimmed, empty ones left
/// out.
pub open spec fn listed_apps(output: Seq<char>) -> Seq<Seq<char>> {
    split_text(trim(output), ", "@).map_values(|n: Seq<char>| trim(n)).filter(|n: Seq<char>| n.len() > 0)
}

/// The running applications with windows, from the window-manager script's
/// output: sorted, each once.
pub fn running_apps_from_output(output: &str) -> (r: Vec<String>)
    ensures
        strictly_sorted(strings_view(r@)),
        strings_view(r@).to_set() == listed_apps(output@).to_set(),
{
    let chars = str_chars(output);
    let trimmed = trim_chars(chars.as_slice());
    let sep = str_chars(", ");
    proof {
        reveal_strlit(", ");
    }
    let pieces = split_on_text(trimmed.as_slice(), sep.as_slice());
    let ghost all = split_text(trim(output@), ", "@).map_values(|n: Seq<char>| trim(n));
    let mut names: Vec<String> = Vec::new();
    let n = pieces.len();
    let mut i: usize = 0;
    while i < n
        invariant
            n == pieces@.len(),
            i <= n,
            all.len() == n,
            forall|k: int| 0 <= k < n ==> #[trigger] all[k] == trim(pieces@[k]@),
            strings_view(names@) == all.take(i as int).filter(|n: Seq<char>| n.len() > 0),
        decreases n - i,
    {
        let t = trim_chars(pieces[i].as_slice());
        let ghost before = names@;
        proof {
            reveal_with_fuel(Seq::<_>::filter, 1);
            assert(all.take(i + 1).drop_last() =~= all.take(i as int));
            assert(all.take(i + 1).last() == t@);
        }
        if t.len() > 0 {
            names.push(string_from_chars(t.as_slice()));
            assert(strings_view(names@) =~= strings_view(before).push(t@));
        }
        i = i + 1;
    }
    assert(all.take(n as int) =~= all);
    sorted_unique(names)
}

/// The script that asks the window manager for the bounds of the front
/// window of an application, answering `x,y,width,height` or an `ERROR:`
/// code.
pub open spec fn bounds_script_text(app_name: Seq<char>) -> Seq<char> {
    "\n        -- Check if application is running\n        tell application \"System Events\"\n            set appRunning to (name of processes) contains \""@
        + app_name + "\"\n        end tell\n\n        if not appRunning then\n            return \"ERROR:NOT_RUNNING\"\n        end if\n\n        -- Get window bounds\n        tell application \""@
        + app_name + "\"\n            try\n                set windowCount to count of windows\n                if windowCount is 0 then\n                    return \"ERROR:NO_WINDOWS\"\n                end if\n\n                set b to bounds of front window\n                -- bounds returns {x1, y1, x2, y2}\n                set x1 to item 1 of b\n                set y1 to item 2 of b\n                set x2 to item 3 of b\n                set y2 to item 4 of b\n                set w to x2 - x1\n                set h to y2 - y1\n                return (x1 as string) & \",\" & (y1 as string) & \",\" & (w as string) & \",\" & (h as string)\n            on error errMsg\n                return \"ERROR:BOUNDS_FAILED:\" & errMsg\n            end try\n        end tell\n        "@
}

/// The window-bounds script for an application.
pub fn window_bounds_script(app_name: &str) -> (r: String)
    ensures
        r@ == bounds_script_text(app_name@),
{
    let mut s = String::from_str(
        "\n        -- Check if application is running\n        tell application \"System Events\"\n            set appRunning to (name of processes) contains \"",
    );
    push_str(&mut s, app_name);
    push_str(
        &mut s,
        "\"\n        end tell\n\n        if not appRunning then\n            return \"ERROR:NOT_RUNNING\"\n        end if\n\n        -- Get window bounds\n        tell application \"",
    );
    push_str(&mut s, app_name);
    push_str(
        &mut s,
        "\"\n            try\n                set windowCount to count of windows\n                if windowCount is 0 then\n                    return \"ERROR:NO_WINDOWS\"\n                end if\n\n                set b to bounds of front window\n                -- bounds returns {x1, y1, x2, y2}\n                set x1 to item 1 of b\n                set y1 to item 2 of b\n                set x2 to item 3 of b\n                set y2 to item 4 of b\n                set w to x2 - x1\n                set h to y2 - y1\n                return (x1 as string) & \",\" & (y1 as string) & \",\" & (w as string) & \",\" & (h as string)\n            on error errMsg\n                return \"ERROR:BOUNDS_FAILED:\" & errMsg\n            end try\n        end tell\n        ",
    );
    s
}

/// What the window-bounds script answered.
#[derive(Debug)]
pub enum BoundsReply {
    /// The bounds of the front window
    Bounds(WindowBounds),
    /// The application is not running (the caller lists the running ones)
    NotRunning,
    /// Any other failure
    Failed(CaptureError),
}

/// The reading of the window-bounds script's answer, from whether it
/// succeeded and its trimmed output and error text: `Ok` with the reading
/// of the bounds, `Err(None)` when the application is not running, and
/// `Err(Some(message))` for a failure (the no-window code among them).
pub open spec fn bounds_reply_kind(success: bool, out: Seq<char>, err: Seq<char>) -> Result<
    Result<(int, int, int, int), Seq<char>>,
    Option<Seq<char>>,
> {
    if !success {
        Err(Some(if err.len() == 0 { out } else { err }))
    } else if starts_with(out, "ERROR:"@) {
        let code = out.skip(6);
        if code == "NOT_RUNNING"@ {
            Err(None)
        } else if starts_with(code, "BOUNDS_FAILED:"@) {
            Err(Some(code.skip(14)))
        } else {
            Err(Some(code))
        }
    } else {
        Ok(bounds_from_output(out))
    }
}

/// Read the window-bounds script's answer for `app_name`, from whether the
/// script succeeded and its output and error text (both trimmed first): a
/// failed run reports its error text (or, when empty, its output); an
/// `ERROR:` code reports the application not running, without windows, or
/// the failure it names; anything else is read as `x,y,width,height`.
pub fn read_bounds_reply(success: bool, stdout: &str, stderr: &str, app_name: &str) -> (r: BoundsReply)
    ensures
        ({
            let out = trim(stdout@);
            let err = trim(stderr@);
            if success && starts_with(out, "ERROR:"@) && out.skip(6) == "NO_WINDOWS"@ {
                r matches BoundsReply::Failed(CaptureError::AppNoWindows { app_name: a }) && a@ == app_name@
            } else {
                match bounds_reply_kind(success, out, err) {
                    Ok(Ok(b)) => r matches BoundsReply::Bounds(wb) && wb.x as int == b.0 && wb.y as int == b.1
                        && wb.width as int == b.2 && wb.height as int == b.3,
                    Ok(Err(m)) | Err(Some(m)) => r matches BoundsReply::Failed(
                        CaptureError::WindowBoundsFailed { app_name: a, message },
                    ) && a@ == app_name@ && message@ == m,
                    Err(None) => r is NotRunning,
                }
            }
        }),
{
    let oc = str_chars(stdout);
    let out = trim_chars(oc.as_slice());
    let ec = str_chars(stderr);
    let err = trim_chars(ec.as_slice());
    if !success {
        let message = if err.len() == 0 {
            string_from_chars(out.as_slice())
        } else {
            string_from_chars(err.as_slice())
        };
        return BoundsReply::Failed(CaptureError::WindowBoundsFailed { app_name: String::from_str(app_name), message });
    }
    let prefix = str_chars("ERROR:");
    proof {
        reveal_strlit("ERROR:");
        reveal_strlit("BOUNDS_FAILED:");
        reveal_strlit("NOT_RUNNING");
        reveal_strlit("NO_WINDOWS");
    }
    if chars_start_with(out.as_slice(), prefix.as_slice()) {
        let code = vstd::slice::slice_subrange(out.as_slice(), 6, out.len());
        assert(code@ =~= out@.skip(6));
        if chars_are(code, "NOT_RUNNING") {
            return BoundsReply::NotRunning;
        }
        if chars_are(code, "NO_WINDOWS") {
            return BoundsReply::Failed(CaptureError::AppNoWindows { app_name: String::from_str(app_name) });
        }
        let failed = str_chars("BOUNDS_FAILED:");
        let message = if chars_start_with(code, failed.as_slice()) {
            let rest = vstd::slice::slice_subrange(code, 14, code.len());
            assert(rest@ =~= code@.skip(14));
            string_from_chars(rest)
        } else {
            string_from_chars(code)
        };
        return BoundsReply::Failed(CaptureError::WindowBoundsFailed { app_name: String::from_str(app_name), message });
    }
    let text = string_from_chars(out.as_slice());
    match parse_window_bounds(text.as_str(), app_name) {
        Ok(b) => BoundsReply::Bounds(b),
        Err(e) => BoundsReply::Failed(e),
    }
}

} // verus!
