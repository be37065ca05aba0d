//! Camera data types and frame transformations.
use vstd::prelude::*;
use crate::text::{contains, contains_text, decimal, lowercase, push_str, push_u64, str_chars, to_lowercase};
use vstd::arithmetic::div_mod::{lemma_fundamental_div_mod, lemma_fundamental_div_mod_converse};

verus! {

#[verifier::external_type_specification]
#[verifier::external_body]
pub struct ExInstant(std::time::Instant);

/// `Instant::clone`: `Instant` is `Copy`, so a clone is the same instant.
pub assume_specification[ <std::time::Instant as Clone>::clone ](t: &std::time::Instant) -> (r:
    std::time::Instant)
    ensures
        r == *t,
;

/// Information about an available camera device.
#[derive(Debug, Clone)]
pub struct CameraInfo {
    /// Device index for selection
    pub index: u32,
    /// Human-readable device name
    pub name: String,
    /// Device description
    pub description: String,
}

/// Camera resolution settings.
#[derive(Debug, Clone, Copy, PartialEq, Eq, Structural)]
pub struct Resolution {
    pub width: u32,
    pub height: u32,
}

impl Resolution {
    /// Low resolution (320x240), for a small character modal.
    pub fn low() -> (r: Resolution)
        ensures
            r.width == 320 && r.height == 240,
    {
        Resolution { width: 320, height: 240 }
    }

    /// Medium resolution (640x480), the recommended balance.
    pub fn medium() -> (r: Resolution)
        ensures
            r.width == 640 && r.height == 480,
    {
        Resolution { width: 640, height: 480 }
    }

    /// High resolution (1280x720), for a large character modal.
    pub fn high() -> (r: Resolution)
        ensures
            r.width == 1280 && r.height == 720,
    {
        Resolution { width: 1280, height: 720 }
    }
}

impl Default for Resolution {
    fn default() -> (r: Resolution)
        ensures
            r.width == 640 && r.height == 480,
    {
        Resolution::medium()
    }
}

/// Pixel format of a captured frame.
#[derive(Debug, Clone, Copy, PartialEq, Eq, Structural)]
pub enum FrameFormat {
    /// RGB format (3 bytes per pixel)
    Rgb,
}

/// A captured camera frame.
#[derive(Debug, Clone)]
pub struct Frame {
    /// Raw pixel data, row-major, `bytes_per_pixel` bytes per pixel
    pub data: Vec<u8>,
    /// Frame width in pixels
    pub width: u32,
    /// Frame height in pixels
    pub height: u32,
    /// Pixel format
    pub format: FrameFormat,
    /// Time of capture
    pub timestamp: std::time::Instant,
}

impl Frame {
    /// Number of bytes per pixel of this frame's format.
    pub open spec fn spec_bytes_per_pixel(&self) -> int {
        match self.format {
            FrameFormat::Rgb => 3,
        }
    }

    pub fn bytes_per_pixel(&self) -> (n: usize)
        ensures
            n == self.spec_bytes_per_pixel(),
    {
        match self.format {
            FrameFormat::Rgb => 3,
        }
    }
}

/// Settings for camera capture.
#[derive(Debug, Clone)]
pub struct CameraSettings {
    /// Camera device index
    pub device_index: u32,
    /// Capture resolution
    pub resolution: Resolution,
    /// Target frames per second
    pub fps: u32,
    /// Mirror horizontally (selfie mode)
    pub mirror: bool,
}

impl Default for CameraSettings {
    fn default() -> (s: CameraSettings)
        ensures
            s.device_index == 0,
            s.resolution.width == 640 && s.resolution.height == 480,
            s.fps == 30,
            s.mirror,
    {
        CameraSettings { device_index: 0, resolution: Resolution::medium(), fps: 30, mirror: true }
    }
}

/// Byte that lands at position `j` when each row of a `w`-pixel-wide RGB image
/// is mirrored left to right: same row, pixel `w - 1 - x`, same channel.
pub open spec fn mirror_src(j: int, w: int) -> int {
    let rw = 3 * w;
    let r = j / rw;
    let c = j % rw;
    r * rw + (w - 1 - c / 3) * 3 + c % 3
}

/// Frame data after mirroring the `h` rows of a `w`-pixel-wide RGB image;
/// bytes past the image are unchanged.
pub open spec fn spec_mirrored(data: Seq<u8>, w: int, h: int) -> Seq<u8> {
    Seq::new(
        data.len(),
        |j: int|
            if j < h * (3 * w) {
                data[mirror_src(j, w)]
            } else {
                data[j]
            },
    )
}

proof fn lemma_mirror_src(j: int, w: int, h: int)
    requires
        w > 0,
        0 <= j < h * (3 * w),
    ensures
        0 <= mirror_src(j, w) < h * (3 * w),
        mirror_src(mirror_src(j, w), w) == j,
        j / (3 * w) == mirror_src(j, w) / (3 * w),
{
    let rw = 3 * w;
    lemma_fundamental_div_mod(j, rw);
    let r = j / rw;
    let c = j % rw;
    assert(j == r * rw + c) by (nonlinear_arith)
        requires
            j == rw * r + c,
    ;
    assert(0 <= r < h) by (nonlinear_arith)
        requires
            j == r * rw + c,
            0 <= c < rw,
            0 <= j < h * rw,
            rw > 0,
    ;
    let x = c / 3;
    let i = c % 3;
    let c2 = (w - 1 - x) * 3 + i;
    assert(0 <= c2 < rw);
    let s = r * rw + c2;
    lemma_fundamental_div_mod_converse(s, rw, r, c2);
    assert(s < h * rw) by (nonlinear_arith)
        requires
            s == r * rw + c2,
            c2 < rw,
            0 <= r < h,
            rw > 0,
    ;
    lemma_fundamental_div_mod_converse(c2, 3, w - 1 - x, i);
}

/// Mirroring twice gives back the original frame data.
pub proof fn mirror_twice_is_identity(data: Seq<u8>, w: int, h: int)
    requires
        w >= 0,
        h >= 0,
        h * (3 * w) <= data.len(),
    ensures
        spec_mirrored(spec_mirrored(data, w, h), w, h) == data,
{
    let m = spec_mirrored(data, w, h);
    assert forall|j: int| 0 <= j < data.len() implies #[trigger] spec_mirrored(m, w, h)[j] == data[j] by {
        if j < h * (3 * w) {
            assert(w > 0) by (nonlinear_arith)
                requires
                    0 <= j < h * (3 * w),
                    h >= 0,
                    w >= 0,
            ;
            lemma_mirror_src(j, w, h);
        }
    }
    assert(spec_mirrored(m, w, h) =~= data);
}

/// Mirror a frame horizontally (flip left-right) for selfie mode.
pub fn mirror_horizontal(frame: &mut Frame)
    requires
        old(frame).width * old(frame).height * 3 <= old(frame).data@.len(),
    ensures
        final(frame).data@ == spec_mirrored(
            old(frame).data@,
            old(frame).width as int,
            old(frame).height as int,
        ),
        final(frame).width == old(frame).width,
        final(frame).height == old(frame).height,
        final(frame).format == old(frame).format,
        final(frame).timestamp == old(frame).timestamp,
{
    let len = frame.data.len();
    if frame.width == 0 || frame.height == 0 {
        assert(frame.height * (3 * frame.width) == 0) by (nonlinear_arith)
            requires
                frame.width == 0 || frame.height == 0,
        ;
        assert(frame.data@ =~= spec_mirrored(frame.data@, frame.width as int, frame.height as int));
        return;
    }
    let ghost w = frame.width as int;
    let ghost h = frame.height as int;
    assert(3 * w <= h * (3 * w)) by (nonlinear_arith)
        requires
            h >= 1,
            w >= 1,
    ;
    assert(h * (3 * w) == frame.width * frame.height * 3) by (nonlinear_arith)
        requires
            w == frame.width,
            h == frame.height,
    ;
    let wu = frame.width as usize;
    let rw: usize = wu * 3;
    let total: usize = (frame.height as usize) * rw;
    let mut out: Vec<u8> = Vec::new();
    let mut j: usize = 0;
    while j < len
        invariant
            len == frame.data@.len(),
            j <= len,
            w == wu,
            w > 0,
            rw == 3 * w,
            total == h * (3 * w),
            total <= len,
            out@.len() == j,
            forall|k: int|
                0 <= k < j ==> #[trigger] out@[k] == spec_mirrored(frame.data@, w, h)[k],
        decreases len - j,
    {
        if j < total {
            proof {
                lemma_mirror_src(j as int, w, h);
            }
            let c = j % rw;
            let src = (j / rw) * rw + (wu - 1 - c / 3) * 3 + c % 3;
            out.push(frame.data[src]);
        } else {
            out.push(frame.data[j]);
        }
        j = j + 1;
    }
    assert(out@ =~= spec_mirrored(frame.data@, w, h));
    frame.data = out;
}

impl CameraInfo {
    /// Display text `[index] name (description)`.
    pub fn to_string(&self) -> (r: String)
        ensures
            r@ == "["@ + decimal(self.index as nat) + "] "@ + self.name@ + " ("@ + self.description@ + ")"@,
    {
        let mut s = String::new();
        push_str(&mut s, "[");
        push_u64(&mut s, self.index as u64);
        push_str(&mut s, "] ");
        push_str(&mut s, self.name.as_str());
        push_str(&mut s, " (");
        push_str(&mut s, self.description.as_str());
        push_str(&mut s, ")");
        assert(s@ =~= "["@ + decimal(self.index as nat) + "] "@ + self.name@ + " ("@ + self.description@ + ")"@);
        s
    }
}

/// Commands sent to the capture thread.
#[derive(Debug, Clone, Copy, PartialEq, Eq, Structural)]
pub enum CaptureCommand {
    Stop,
}

/// Errors of camera operations.
#[derive(Debug)]
pub enum CameraError {
    /// No cameras found on the system
    NoDevices,
    /// Failed to query camera devices
    QueryFailed(String),
    /// Failed to open camera
    OpenFailed(String),
    /// Camera permission denied
    PermissionDenied,
    /// No camera device at the given index
    DeviceNotFound(u32),
    /// Failed to start the video stream
    StreamFailed(String),
    /// Capture thread is already running
    AlreadyRunning,
}

/// User-facing message of each camera error.
pub open spec fn camera_message(e: CameraError) -> Seq<char> {
    match e {
        CameraError::NoDevices => "No cameras found"@,
        CameraError::QueryFailed(m) => "Failed to query cameras: "@ + m@,
        CameraError::OpenFailed(m) => "Failed to open camera: "@ + m@,
        CameraError::PermissionDenied => "Camera permission denied. On macOS, grant access in System Settings > Privacy & Security > Camera"@,
        CameraError::DeviceNotFound(i) => "Camera device "@ + decimal(i as nat)
            + " not found. Run 'list-cameras' to see available devices"@,
        CameraError::StreamFailed(m) => "Failed to start camera stream: "@ + m@,
        CameraError::AlreadyRunning => "Capture thread is already running"@,
    }
}

impl CameraError {
    /// The user-facing message of this error.
    pub fn to_string(&self) -> (r: String)
        ensures
            r@ == camera_message(*self),
    {
        let mut s = String::new();
        match self {
            CameraError::NoDevices => push_str(&mut s, "No cameras found"),
            CameraError::QueryFailed(m) => {
                push_str(&mut s, "Failed to query cameras: ");
                push_str(&mut s, m.as_str());
            },
            CameraError::OpenFailed(m) => {
                push_str(&mut s, "Failed to open camera: ");
                push_str(&mut s, m.as_str());
            },
            CameraError::PermissionDenied => push_str(
                &mut s,
                "Camera permission denied. On macOS, grant access in System Settings > Privacy & Security > Camera",
            ),
            CameraError::DeviceNotFound(i) => {
                push_str(&mut s, "Camera device ");
                push_u64(&mut s, *i as u64);
                push_str(&mut s, " not found. Run 'list-cameras' to see available devices");
            },
            CameraError::StreamFailed(m) => {
                push_str(&mut s, "Failed to start camera stream: ");
                push_str(&mut s, m.as_str());
            },
            CameraError::AlreadyRunning => push_str(&mut s, "Capture thread is already running"),
        }
        assert(s@ =~= camera_message(*self));
        s
    }
}

/// Whether a camera's refusal to open, in lowercase, speaks of permission:
/// it mentions `permission`, `denied`, `authorization` or `access`.
pub open spec fn refused_for_permission(lower: Seq<char>) -> bool {
    contains(lower, "permission"@) || contains(lower, "denied"@) || contains(lower, "authorization"@)
        || contains(lower, "access"@)
}

/// The error of a camera that no requested format could open, from the
/// last failure's message: a permission refusal when the message, ignoring
/// case, speaks of permission; otherwise a failure to open with the message.
pub fn open_failure(message: &str) -> (e: CameraError)
    ensures
        refused_for_permission(lowercase(message@)) ==> e is PermissionDenied,
        !refused_for_permission(lowercase(message@)) ==> (e matches CameraError::OpenFailed(m) && m@
            == message@),
{
    let lower = to_lowercase(message);
    let chars = str_chars(lower.as_str());
    let t = chars.as_slice();
    if contains_text(t, "permission") || contains_text(t, "denied") || contains_text(t, "authorization")
        || contains_text(t, "access") {
        CameraError::PermissionDenied
    } else {
        CameraError::OpenFailed(String::from_str(message))
    }
}

} // verus!
