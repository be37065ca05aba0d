use vstd::prelude::*;
use crate::text::{decimal, push_str, push_u64};

verus! {

/// Errors of capture operations.
#[derive(Debug)]
pub enum CaptureError {
    /// The media tool is not installed
    FfmpegNotFound,
    /// The media tool failed to run
    FfmpegFailed(String),
    /// No screen capture devices found
    NoScreenDevices,
    /// Requested screen index not found
    ScreenNotFound { requested: usize, available: usize },
    /// No webcam devices found
    NoWebcamDevices,
    /// Requested webcam not found
    WebcamNotFound { requested: String, available: Vec<String> },
    /// No audio devices found
    NoAudioDevices,
    /// Requested audio device not found
    AudioDeviceNotFound { requested: String, available: Vec<String> },
    /// Application not running (for window capture)
    AppNotRunning { app_name: String, available_apps: Vec<String> },
    /// Application has no windows (for window capture)
    AppNoWindows { app_name: String },
    /// Failed to get window bounds
    WindowBoundsFailed { app_name: String, message: String },
}

pub open spec fn names_view(v: Seq<String>) -> Seq<Seq<char>> {
    v.map_values(|s: String| s@)
}

/// Numbered list `"  [i] name\n"` of the names, numbering from `from`.
pub open spec fn numbered_list(names: Seq<Seq<char>>, from: nat) -> Seq<char>
    decreases names.len(),
{
    if names.len() == 0 {
        Seq::empty()
    } else {
        "  ["@ + decimal(from) + "] "@ + names[0] + "\n"@ + numbered_list(names.drop_first(), from + 1)
    }
}

/// Bulleted list `"  - name\n"` of the names.
pub open spec fn bulleted_list(names: Seq<Seq<char>>) -> Seq<char>
    decreases names.len(),
{
    if names.len() == 0 {
        Seq::empty()
    } else {
        "  - "@ + names[0] + "\n"@ + bulleted_list(names.drop_first())
    }
}

/// The running-application part of the "not running" message: at most ten
/// applications, then a count of the others.
pub open spec fn running_apps_part(apps: Seq<Seq<char>>) -> Seq<char> {
    if apps.len() == 0 {
        Seq::empty()
    } else {
        "\n\nRunning applications with windows:\n"@ + bulleted_list(apps.take(if apps.len() > 10 {
            10
        } else {
            apps.len() as int
        })) + if apps.len() > 10 {
            "  ... and "@ + decimal((apps.len() - 10) as nat) + " more\n"@
        } else {
            Seq::empty()
        }
    }
}

/// User-facing message of each capture error.
pub open spec fn capture_message(e: CaptureError) -> Seq<char> {
    match e {
        CaptureError::FfmpegNotFound => "FFmpeg not found. Please install it with:\n\n    brew install ffmpeg\n"@,
        CaptureError::FfmpegFailed(msg) => "FFmpeg failed: "@ + msg@,
        CaptureError::NoScreenDevices => "No screen capture devices found.\n\nMake sure screen recording permission is granted:\n  System Preferences > Privacy & Security > Screen Recording"@,
        CaptureError::ScreenNotFound { requested, available } => "Screen "@ + decimal(requested as nat)
            + " not found. "@ + decimal(available as nat) + " screen(s) available (indices 0-"@ + decimal(
            if available > 0 { (available - 1) as nat } else { 0 },
        ) + ").\n\nUse `space-recorder list-devices` to see available screens."@,
        CaptureError::NoWebcamDevices => "No webcam devices found.\n\nMake sure a camera is connected and camera permission is granted:\n  System Preferences > Privacy & Security > Camera"@,
        CaptureError::WebcamNotFound { requested, available } => "Webcam '"@ + requested@
            + "' not found.\n\nAvailable webcams:\n"@ + numbered_list(names_view(available@), 0)
            + "\nUse `space-recorder list-devices --video` to see all video devices."@,
        CaptureError::NoAudioDevices => "No audio devices found.\n\nMake sure microphone permission is granted:\n  System Preferences > Privacy & Security > Microphone"@,
        CaptureError::AudioDeviceNotFound { requested, available } => "Audio device '"@ + requested@
            + "' not found.\n\nAvailable audio devices:\n"@ + numbered_list(names_view(available@), 0)
            + "\nUse `space-recorder list-devices --audio` to see all audio devices."@,
        CaptureError::AppNotRunning { app_name, available_apps } => "Application '"@ + app_name@
            + "' is not running."@ + running_apps_part(names_view(available_apps@))
            + "\nPlease start the application first, or try one of the listed apps."@,
        CaptureError::AppNoWindows { app_name } => "Application '"@ + app_name@
            + "' has no visible windows.\n\nMake sure the application has at least one window open."@,
        CaptureError::WindowBoundsFailed { app_name, message } => "Failed to get window bounds for '"@
            + app_name@ + "'.\n\nDetails: "@ + message@
            + "\n\nMake sure Accessibility permission is granted:\n  System Preferences > Privacy & Security > Accessibility"@,
    }
}

fn push_numbered(s: &mut String, names: &Vec<String>)
    ensures
        final(s)@ == old(s)@ + numbered_list(names_view(names@), 0),
{
    let n = names.len();
    let mut i: usize = 0;
    assert(names_view(names@).skip(0) =~= names_view(names@));
    while i < n
        invariant
            n == names@.len(),
            i <= n,
            old(s)@ + numbered_list(names_view(names@), 0) == s@ + numbered_list(
                names_view(names@).skip(i as int),
                i as nat,
            ),
        decreases n - i,
    {
        let ghost before = s@;
        push_str(s, "  [");
        push_u64(s, i as u64);
        push_str(s, "] ");
        push_str(s, names[i].as_str());
        push_str(s, "\n");
        proof {
            let v = names_view(names@).skip(i as int);
            assert(v[0] == names@[i as int]@);
            assert(v.drop_first() =~= names_view(names@).skip(i + 1));
            assert(s@ =~= before + ("  ["@ + decimal(i as nat) + "] "@ + v[0] + "\n"@));
        }
        i = i + 1;
    }
    assert(names_view(names@).skip(n as int) =~= Seq::<Seq<char>>::empty());
}

fn push_bulleted(s: &mut String, names: &Vec<String>, count: usize)
    requires
        count <= names@.len(),
    ensures
        final(s)@ == old(s)@ + bulleted_list(names_view(names@).take(count as int)),
{
    let mut i: usize = 0;
    assert(names_view(names@).take(count as int).skip(0) =~= names_view(names@).take(count as int));
    while i < count
        invariant
            count <= names@.len(),
            i <= count,
            old(s)@ + bulleted_list(names_view(names@).take(count as int)) == s@ + bulleted_list(
                names_view(names@).take(count as int).skip(i as int),
            ),
        decreases count - i,
    {
        let ghost before = s@;
        push_str(s, "  - ");
        push_str(s, names[i].as_str());
        push_str(s, "\n");
        proof {
            let v = names_view(names@).take(count as int).skip(i as int);
            assert(v[0] == names@[i as int]@);
            assert(v.drop_first() =~= names_view(names@).take(count as int).skip(i + 1));
            assert(s@ =~= before + ("  - "@ + v[0] + "\n"@));
        }
        i = i + 1;
    }
    assert(names_view(names@).take(count as int).skip(count as int) =~= Seq::<Seq<char>>::empty());
}

impl CaptureError {
    /// The user-facing message of this error.
    pub fn to_string(&self) -> (r: String)
        ensures
            r@ == capture_message(*self),
    {
        let mut s = String::new();
        match self {
            CaptureError::FfmpegNotFound => {
                push_str(&mut s, "FFmpeg not found. Please install it with:\n\n    brew install ffmpeg\n");
            },
            CaptureError::FfmpegFailed(msg) => {
                push_str(&mut s, "FFmpeg failed: ");
                push_str(&mut s, msg.as_str());
            },
            CaptureError::NoScreenDevices => {
                push_str(
                    &mut s,
                    "No screen capture devices found.\n\nMake sure screen recording permission is granted:\n  System Preferences > Privacy & Security > Screen Recording",
                );
            },
            CaptureError::ScreenNotFound { requested, available } => {
                push_str(&mut s, "Screen ");
                push_u64(&mut s, *requested as u64);
                push_str(&mut s, " not found. ");
                push_u64(&mut s, *available as u64);
                push_str(&mut s, " screen(s) available (indices 0-");
                let last: usize = if *available > 0 { *available - 1 } else { 0 };
                push_u64(&mut s, last as u64);
                push_str(&mut s, ").\n\nUse `space-recorder list-devices` to see available screens.");
            },
            CaptureError::NoWebcamDevices => {
                push_str(
                    &mut s,
                    "No webcam devices found.\n\nMake sure a camera is connected and camera permission is granted:\n  System Preferences > Privacy & Security > Camera",
                );
            },
            CaptureError::WebcamNotFound { requested, available } => {
                push_str(&mut s, "Webcam '");
                push_str(&mut s, requested.as_str());
                push_str(&mut s, "' not found.\n\nAvailable webcams:\n");
                push_numbered(&mut s, available);
                push_str(&mut s, "\nUse `space-recorder list-devices --video` to see all video devices.");
            },
            CaptureError::NoAudioDevices => {
                push_str(
                    &mut s,
                    "No audio devices found.\n\nMake sure microphone permission is granted:\n  System Preferences > Privacy & Security > Microphone",
                );
            },
            CaptureError::AudioDeviceNotFound { requested, available } => {
                push_str(&mut s, "Audio device '");
                push_str(&mut s, requested.as_str());
                push_str(&mut s, "' not found.\n\nAvailable audio devices:\n");
                push_numbered(&mut s, available);
                push_str(&mut s, "\nUse `space-recorder list-devices --audio` to see all audio devices.");
            },
            CaptureError::AppNotRunning { app_name, available_apps } => {
                push_str(&mut s, "Application '");
                push_str(&mut s, app_name.as_str());
                push_str(&mut s, "' is not running.");
                let ghost mid = s@;
                let n = available_apps.len();
                if n > 0 {
                    push_str(&mut s, "\n\nRunning applications with windows:\n");
                    let shown: usize = if n > 10 { 10 } else { n };
                    push_bulleted(&mut s, available_apps, shown);
                    if n > 10 {
                        push_str(&mut s, "  ... and ");
                        push_u64(&mut s, (n - 10) as u64);
                        push_str(&mut s, " more\n");
                    }
                }
                assert(s@ =~= mid + running_apps_part(names_view(available_apps@)));
                push_str(&mut s, "\nPlease start the application first, or try one of the listed apps.");
            },
            CaptureError::AppNoWindows { app_name } => {
                push_str(&mut s, "Application '");
                push_str(&mut s, app_name.as_str());
                push_str(
                    &mut s,
                    "' has no visible windows.\n\nMake sure the application has at least one window open.",
                );
            },
            CaptureError::WindowBoundsFailed { app_name, message } => {
                push_str(&mut s, "Failed to get window bounds for '");
                push_str(&mut s, app_name.as_str());
                push_str(&mut s, "'.\n\nDetails: ");
                push_str(&mut s, message.as_str());
                push_str(
                    &mut s,
                    "\n\nMake sure Accessibility permission is granted:\n  System Preferences > Privacy & Security > Accessibility",
                );
            },
        }
        assert(s@ =~= capture_message(*self));
        s
    }
}

} // verus!
