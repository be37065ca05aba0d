//! macOS privacy permissions that a capture session needs: how each is
//! named and where it is granted, what a probe's output says about it, and
//! the report of the missing ones.
use vstd::prelude::*;
use crate::text::{contains, decimal, push_str, push_u64, str_chars, find};

verus! {

/// Types of permissions required for capture.
#[derive(Debug, Clone, Copy, PartialEq, Eq, Structural)]
pub enum PermissionType {
    /// Screen Recording permission (required for screen capture)
    ScreenRecording,
    /// Camera permission (required for webcam capture)
    Camera,
    /// Microphone permission (required for audio capture)
    Microphone,
    /// Accessibility permission (required for window detection)
    Accessibility,
}

pub open spec fn permission_name(p: PermissionType) -> Seq<char> {
    match p {
        PermissionType::ScreenRecording => "Screen Recording"@,
        PermissionType::Camera => "Camera"@,
        PermissionType::Microphone => "Microphone"@,
        PermissionType::Accessibility => "Accessibility"@,
    }
}

pub open spec fn settings_path(p: PermissionType) -> Seq<char> {
    match p {
        PermissionType::ScreenRecording => "System Settings > Privacy & Security > Screen Recording"@,
        PermissionType::Camera => "System Settings > Privacy & Security > Camera"@,
        PermissionType::Microphone => "System Settings > Privacy & Security > Microphone"@,
        PermissionType::Accessibility => "System Settings > Privacy & Security > Accessibility"@,
    }
}

pub open spec fn settings_url(p: PermissionType) -> Seq<char> {
    match p {
        PermissionType::ScreenRecording => "x-apple.systempreferences:com.apple.preference.security?Privacy_ScreenCapture"@,
        PermissionType::Camera => "x-apple.systempreferences:com.apple.preference.security?Privacy_Camera"@,
        PermissionType::Microphone => "x-apple.systempreferences:com.apple.preference.security?Privacy_Microphone"@,
        PermissionType::Accessibility => "x-apple.systempreferences:com.apple.preference.security?Privacy_Accessibility"@,
    }
}

impl PermissionType {
    /// Human-readable name of the permission.
    pub fn name(&self) -> (r: &'static str)
        ensures
            r@ == permission_name(*self),
    {
        match self {
            PermissionType::ScreenRecording => "Screen Recording",
            PermissionType::Camera => "Camera",
            PermissionType::Microphone => "Microphone",
            PermissionType::Accessibility => "Accessibility",
        }
    }

    /// Where in System Settings the permission is granted.
    pub fn system_preferences_path(&self) -> (r: &'static str)
        ensures
            r@ == settings_path(*self),
    {
        match self {
            PermissionType::ScreenRecording => "System Settings > Privacy & Security > Screen Recording",
            PermissionType::Camera => "System Settings > Privacy & Security > Camera",
            PermissionType::Microphone => "System Settings > Privacy & Security > Microphone",
            PermissionType::Accessibility => "System Settings > Privacy & Security > Accessibility",
        }
    }

    /// URL that opens the permission's pane of System Settings.
    pub fn system_preferences_url(&self) -> (r: &'static str)
        ensures
            r@ == settings_url(*self),
    {
        match self {
            PermissionType::ScreenRecording => "x-apple.systempreferences:com.apple.preference.security?Privacy_ScreenCapture",
            PermissionType::Camera => "x-apple.systempreferences:com.apple.preference.security?Privacy_Camera",
            PermissionType::Microphone => "x-apple.systempreferences:com.apple.preference.security?Privacy_Microphone",
            PermissionType::Accessibility => "x-apple.systempreferences:com.apple.preference.security?Privacy_Accessibility",
        }
    }
}

/// Result of a permission check.
#[derive(Debug)]
pub struct PermissionCheckResult {
    /// The permission that was checked
    pub permission_type: PermissionType,
    /// Whether the permission is granted
    pub granted: bool,
    /// What went wrong, when it is not granted
    pub details: Option<String>,
}

impl PermissionCheckResult {
    /// A granted permission.
    pub fn granted(permission_type: PermissionType) -> (r: PermissionCheckResult)
        ensures
            r.permission_type == permission_type,
            r.granted,
            r.details is None,
    {
        PermissionCheckResult { permission_type, granted: true, details: None }
    }

    /// A denied permission, with what went wrong.
    pub fn denied(permission_type: PermissionType, details: Option<String>) -> (r: PermissionCheckResult)
        ensures
            r.permission_type == permission_type,
            !r.granted,
            r.details == details,
    {
        PermissionCheckResult { permission_type, granted: false, details }
    }
}

fn contains_text(s: &[char], lit: &str) -> (b: bool)
    ensures
        b == contains(s@, lit@),
{
    let p = str_chars(lit);
    match find(s, p.as_slice()) {
        Some(_) => true,
        None => false,
    }
}

/// Whether the screen probe's error output shows a refused capture.
pub open spec fn screen_refused(stderr: Seq<char>) -> bool {
    contains(stderr, "Could not open"@) || contains(stderr, "Permission denied"@) || contains(
        stderr,
        "not authorized"@,
    )
}

/// Whether the window-script probe's error output shows refused access.
pub open spec fn script_refused(stderr: Seq<char>) -> bool {
    contains(stderr, "not allowed"@) || contains(stderr, "assistive access"@) || contains(
        stderr,
        "System Events got an error"@,
    ) || contains(stderr, "denied"@)
}

/// Screen Recording, judged from the error output of a one-frame screen
/// capture: denied when it reports that the screen could not be opened.
pub fn screen_recording_from_output(stderr: &str) -> (r: PermissionCheckResult)
    ensures
        r.permission_type == PermissionType::ScreenRecording,
        r.granted == !screen_refused(stderr@),
        !r.granted ==> (r.details matches Some(d) && d@ == "Screen capture returned permission error"@),
        r.granted ==> r.details is None,
{
    let s = str_chars(stderr);
    if contains_text(s.as_slice(), "Could not open") || contains_text(s.as_slice(), "Permission denied")
        || contains_text(s.as_slice(), "not authorized") {
        PermissionCheckResult::denied(
            PermissionType::ScreenRecording,
            Some(String::from_str("Screen capture returned permission error")),
        )
    } else {
        PermissionCheckResult::granted(PermissionType::ScreenRecording)
    }
}

/// Camera, judged from the device listing: once the listing could be
/// produced, access is taken as granted (it is enforced when capture starts).
pub fn camera_from_output(stderr: &str) -> (r: PermissionCheckResult)
    ensures
        r.permission_type == PermissionType::Camera,
        r.granted,
        r.details is None,
{
    PermissionCheckResult::granted(PermissionType::Camera)
}

/// Microphone, judged from the device listing: once the listing could be
/// produced, access is taken as granted (it is enforced when capture starts).
pub fn microphone_from_output(stderr: &str) -> (r: PermissionCheckResult)
    ensures
        r.permission_type == PermissionType::Microphone,
        r.granted,
        r.details is None,
{
    PermissionCheckResult::granted(PermissionType::Microphone)
}

/// Accessibility, judged from the error output of a script that asks for
/// the frontmost application: denied when the script was refused access.
pub fn accessibility_from_output(stderr: &str) -> (r: PermissionCheckResult)
    ensures
        r.permission_type == PermissionType::Accessibility,
        r.granted == !script_refused(stderr@),
        !r.granted ==> (r.details matches Some(d) && d@ == "AppleScript access denied"@),
        r.granted ==> r.details is None,
{
    let s = str_chars(stderr);
    if contains_text(s.as_slice(), "not allowed") || contains_text(s.as_slice(), "assistive access")
        || contains_text(s.as_slice(), "System Events got an error") || contains_text(s.as_slice(), "denied") {
        PermissionCheckResult::denied(PermissionType::Accessibility, Some(String::from_str("AppleScript access denied")))
    } else {
        PermissionCheckResult::granted(PermissionType::Accessibility)
    }
}

/// Details of a probe that could not be started: the media tool is missing
/// (`tool_missing`, for the probes that run it), or it failed with `error`.
pub open spec fn launch_details(p: PermissionType, tool_missing: bool, error: Seq<char>) -> Seq<char> {
    if p is Accessibility {
        "Failed to run osascript: "@ + error
    } else if tool_missing {
        "FFmpeg not found"@
    } else {
        "Failed to run FFmpeg: "@ + error
    }
}

/// The permission denied because its probe could not be started.
pub fn from_launch_failure(permission_type: PermissionType, tool_missing: bool, error: &str) -> (r:
    PermissionCheckResult)
    ensures
        r.permission_type == permission_type,
        !r.granted,
        r.details matches Some(d) && d@ == launch_details(permission_type, tool_missing, error@),
{
    let mut d = String::new();
    if matches!(permission_type, PermissionType::Accessibility) {
        push_str(&mut d, "Failed to run osascript: ");
        push_str(&mut d, error);
    } else if tool_missing {
        push_str(&mut d, "FFmpeg not found");
    } else {
        push_str(&mut d, "Failed to run FFmpeg: ");
        push_str(&mut d, error);
    }
    PermissionCheckResult::denied(permission_type, Some(d))
}

/// Error for a missing permission.
#[derive(Debug)]
pub struct PermissionError {
    /// The missing permission
    pub permission_type: PermissionType,
    /// What went wrong
    pub details: Option<String>,
}

pub open spec fn opt_text(d: Option<String>) -> Option<Seq<char>> {
    match d {
        Some(s) => Some(s@),
        None => None,
    }
}

/// The message of a missing permission: what is required, where to grant
/// it, the command that opens that place, then the details if any.
pub open spec fn permission_message(p: PermissionType, details: Option<Seq<char>>) -> Seq<char> {
    permission_name(p) + " permission is required.\n\nPlease grant permission in:\n  "@ + settings_path(p)
        + "\n\nYou can open System Settings directly by running:\n  open \""@ + settings_url(p) + "\""@
        + match details {
        Some(d) => "\n\nDetails: "@ + d,
        None => Seq::empty(),
    }
}

impl PermissionError {
    /// The user-facing message of this error.
    pub fn to_string(&self) -> (r: String)
        ensures
            r@ == permission_message(self.permission_type, opt_text(self.details)),
    {
        let mut s = String::new();
        push_str(&mut s, self.permission_type.name());
        push_str(&mut s, " permission is required.\n\nPlease grant permission in:\n  ");
        push_str(&mut s, self.permission_type.system_preferences_path());
        push_str(&mut s, "\n\nYou can open System Settings directly by running:\n  open \"");
        push_str(&mut s, self.permission_type.system_preferences_url());
        push_str(&mut s, "\"");
        match &self.details {
            Some(d) => {
                push_str(&mut s, "\n\nDetails: ");
                push_str(&mut s, d.as_str());
            },
            None => {},
        }
        s
    }
}

/// The missing permission that a required check reports, if any.
pub open spec fn missing(p: PermissionType, check: Option<PermissionCheckResult>) -> Seq<(PermissionType, Option<Seq<char>>)> {
    match check {
        Some(r) => if r.granted {
            Seq::empty()
        } else {
            seq![(p, opt_text(r.details))]
        },
        None => Seq::empty(),
    }
}

pub open spec fn error_view(e: PermissionError) -> (PermissionType, Option<Seq<char>>) {
    (e.permission_type, opt_text(e.details))
}

fn push_missing(errors: &mut Vec<PermissionError>, p: PermissionType, check: Option<PermissionCheckResult>)
    ensures
        final(errors)@.map_values(|e: PermissionError| error_view(e)) == old(errors)@.map_values(
            |e: PermissionError| error_view(e),
        ) + missing(p, check),
{
    let ghost before = errors@;
    match check {
        Some(r) => {
            if !r.granted {
                errors.push(PermissionError { permission_type: p, details: r.details });
            }
        },
        None => {},
    }
    assert(errors@.map_values(|e: PermissionError| error_view(e)) =~= before.map_values(
        |e: PermissionError| error_view(e),
    ) + missing(p, check));
}

/// The missing permissions of a capture session, in the order screen
/// recording, camera, microphone, accessibility. Each argument is the
/// result of that permission's check, or `None` when the session does not
/// need it.
pub fn verify_permissions(
    screen: Option<PermissionCheckResult>,
    camera: Option<PermissionCheckResult>,
    microphone: Option<PermissionCheckResult>,
    accessibility: Option<PermissionCheckResult>,
) -> (errors: Vec<PermissionError>)
    ensures
        errors@.map_values(|e: PermissionError| error_view(e)) == missing(PermissionType::ScreenRecording, screen)
            + missing(PermissionType::Camera, camera) + missing(PermissionType::Microphone, microphone) + missing(
            PermissionType::Accessibility,
            accessibility,
        ),
{
    let mut errors: Vec<PermissionError> = Vec::new();
    assert(errors@.map_values(|e: PermissionError| error_view(e)) =~= Seq::empty());
    push_missing(&mut errors, PermissionType::ScreenRecording, screen);
    push_missing(&mut errors, PermissionType::Camera, camera);
    push_missing(&mut errors, PermissionType::Microphone, microphone);
    push_missing(&mut errors, PermissionType::Accessibility, accessibility);
    proof {
        let s = missing(PermissionType::ScreenRecording, screen);
        let c = missing(PermissionType::Camera, camera);
        let m = missing(PermissionType::Microphone, microphone);
        let a = missing(PermissionType::Accessibility, accessibility);
        assert(Seq::<(PermissionType, Option<Seq<char>>)>::empty() + s =~= s);
    }
    errors
}

/// One entry of the missing-permission report.
pub open spec fn report_entry(number: nat, p: PermissionType, details: Option<Seq<char>>) -> Seq<char> {
    decimal(number) + ". "@ + permission_name(p) + "\n   Grant permission in: "@ + settings_path(p)
        + "\n   Or run: open \""@ + settings_url(p) + "\"\n"@ + match details {
        Some(d) => "   Details: "@ + d + "\n"@,
        None => Seq::empty(),
    } + "\n"@
}

/// The entries of the report for `errors`, numbered from `from`.
pub open spec fn report_entries(errors: Seq<(PermissionType, Option<Seq<char>>)>, from: nat) -> Seq<char>
    decreases errors.len(),
{
    if errors.len() == 0 {
        Seq::empty()
    } else {
        report_entries(errors.drop_last(), from) + report_entry(
            (from + errors.len() - 1) as nat,
            errors.last().0,
            errors.last().1,
        )
    }
}

/// The report of missing permissions: nothing when none is missing, else a
/// heading, one numbered entry per permission, and a closing reminder.
pub open spec fn permission_report(errors: Seq<(PermissionType, Option<Seq<char>>)>) -> Seq<char> {
    if errors.len() == 0 {
        Seq::empty()
    } else {
        "\nMissing permissions detected:\n\n"@ + report_entries(errors, 1)
            + "After granting permissions, you may need to restart the application.\n\n"@
    }
}

fn report_entry_text(number: u64, e: &PermissionError) -> (r: String)
    ensures
        r@ == report_entry(number as nat, e.permission_type, opt_text(e.details)),
{
    let mut s = String::new();
    push_u64(&mut s, number);
    push_str(&mut s, ". ");
    push_str(&mut s, e.permission_type.name());
    push_str(&mut s, "\n   Grant permission in: ");
    push_str(&mut s, e.permission_type.system_preferences_path());
    push_str(&mut s, "\n   Or run: open \"");
    push_str(&mut s, e.permission_type.system_preferences_url());
    push_str(&mut s, "\"\n");
    match &e.details {
        Some(d) => {
            push_str(&mut s, "   Details: ");
            push_str(&mut s, d.as_str());
            push_str(&mut s, "\n");
        },
        None => {},
    }
    push_str(&mut s, "\n");
    assert(s@ =~= report_entry(number as nat, e.permission_type, opt_text(e.details)));
    s
}

/// The text that reports missing permissions to the user.
pub fn format_permission_errors(errors: &[PermissionError]) -> (r: String)
    ensures
        r@ == permission_report(errors@.map_values(|e: PermissionError| error_view(e))),
{
    let ghost ev = errors@.map_values(|e: PermissionError| error_view(e));
    let mut s = String::new();
    let n = errors.len();
    if n == 0 {
        return s;
    }
    push_str(&mut s, "\nMissing permissions detected:\n\n");
    let mut i: usize = 0;
    while i < n
        invariant
            n == errors@.len(),
            ev == errors@.map_values(|e: PermissionError| error_view(e)),
            i <= n,
            s@ == "\nMissing permissions detected:\n\n"@ + report_entries(ev.take(i as int), 1),
        decreases n - i,
    {
        let e = &errors[i];
        assert(ev.take(i + 1).drop_last() =~= ev.take(i as int));
        assert(ev.take(i + 1).last() == error_view(*e));
        let entry = report_entry_text((i + 1) as u64, e);
        push_str(&mut s, entry.as_str());
        i = i + 1;
    }
    assert(ev.take(n as int) =~= ev);
    push_str(&mut s, "After granting permissions, you may need to restart the application.\n\n");
    s
}

} // verus!
