//! Texts of the subcommands: the camera list, the current configuration,
//! and the default configuration file.
use vstd::prelude::*;
use crate::camera::CameraInfo;
use crate::text::{decimal, push_str};

verus! {

/// The default configuration file that `config init` writes.
pub const DEFAULT_CONFIG: &'static str = "# space-recorder configuration\n\n[shell]\n# Shell to spawn (default: $SHELL)\n# command = \"/bin/zsh\"\n\n[camera]\n# Camera device index\ndevice = 0\n# Mirror horizontally (selfie mode)\nmirror = true\n# Capture resolution (lower = faster)\nresolution = \"640x480\"\n\n[modal]\n# Start with camera visible\nvisible = true\n# Position: top-left, top-right, bottom-left, bottom-right, center\nposition = \"bottom-right\"\n# Size: small, medium, large\nsize = \"small\"\n# Show border around modal\nborder = true\n\n[ascii]\n# Character set: standard, blocks, minimal, braille\ncharset = \"standard\"\n# Invert brightness (for light themes)\ninvert = false\n# Enable edge detection for sharper features\nedge_detection = false\n\n[ui]\n# Show status bar\nstatus_bar = true\n\n[hotkeys]\n# Key bindings (Alt + key)\ntoggle_camera = \"c\"\ncycle_position = \"p\"\ncycle_size = \"s\"\ncycle_charset = \"a\"\n";

/// The lines that list the cameras: two spaces, then each camera's text.
pub open spec fn camera_lines(cameras: Seq<CameraInfo>) -> Seq<char>
    decreases cameras.len(),
{
    if cameras.len() == 0 {
        Seq::empty()
    } else {
        camera_lines(cameras.drop_last()) + "  "@ + "["@ + decimal(cameras.last().index as nat) + "] "@
            + cameras.last().name@ + " ("@ + cameras.last().description@ + ")"@ + "\n"@
    }
}

/// What `list-cameras` prints: how to get a camera when there is none,
/// else the cameras and how to select one.
pub open spec fn camera_report(cameras: Seq<CameraInfo>) -> Seq<char> {
    if cameras.len() == 0 {
        "No cameras found.\n\nMake sure your camera is connected and permissions are granted.\nOn macOS, grant access in System Settings > Privacy & Security > Camera.\n"@
    } else {
        "Available cameras:\n"@ + camera_lines(cameras) + "\nUse --camera <index> to select a camera.\n"@
    }
}

/// The text that `list-cameras` prints for the cameras found.
pub fn camera_list_report(cameras: &[CameraInfo]) -> (r: String)
    ensures
        r@ == camera_report(cameras@),
{
    let n = cameras.len();
    if n == 0 {
        return String::from_str(
            "No cameras found.\n\nMake sure your camera is connected and permissions are granted.\nOn macOS, grant access in System Settings > Privacy & Security > Camera.\n",
        );
    }
    let mut s = String::from_str("Available cameras:\n");
    let ghost head = s@;
    let mut i: usize = 0;
    while i < n
        invariant
            n == cameras@.len(),
            i <= n,
            s@ == head + camera_lines(cameras@.take(i as int)),
        decreases n - i,
    {
        assert(cameras@.take(i + 1).drop_last() =~= cameras@.take(i as int));
        let ghost before = s@;
        push_str(&mut s, "  ");
        let line = cameras[i].to_string();
        push_str(&mut s, line.as_str());
        push_str(&mut s, "\n");
        assert(s@ =~= before + "  "@ + line@ + "\n"@);
        assert(s@ =~= head + camera_lines(cameras@.take(i + 1)));
        i = i + 1;
    }
    assert(cameras@.take(n as int) =~= cameras@);
    push_str(&mut s, "\nUse --camera <index> to select a camera.\n");
    s
}

/// What `config show` prints: the settings in use (the shell from the
/// environment, the others at their defaults), then where the configuration
/// file is and whether it exists.
pub open spec fn config_report(shell: Seq<char>, config_path: Seq<char>, exists: bool) -> Seq<char> {
    "Current configuration:\n  Shell: "@ + shell
        + "\n  Camera: 0\n  Position: bottom-right\n  Size: small\n  Charset: standard\n  Mirror: no\n  Status bar: yes\n\nConfig file: "@
        + config_path + if exists {
        " (exists)\n"@
    } else {
        " (not found)\n"@
    }
}

/// The text that `config show` prints.
pub fn config_show_report(shell: &str, config_path: &str, exists: bool) -> (r: String)
    ensures
        r@ == config_report(shell@, config_path@, exists),
{
    let mut s = String::from_str("Current configuration:\n  Shell: ");
    push_str(&mut s, shell);
    push_str(
        &mut s,
        "\n  Camera: 0\n  Position: bottom-right\n  Size: small\n  Charset: standard\n  Mirror: no\n  Status bar: yes\n\nConfig file: ",
    );
    push_str(&mut s, config_path);
    if exists {
        push_str(&mut s, " (exists)\n");
    } else {
        push_str(&mut s, " (not found)\n");
    }
    s
}

} // verus!
