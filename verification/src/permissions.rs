//! Advice on camera access for the platforms that the sensor runs on.

use vstd::prelude::*;
use vstd::string::*;

verus! {

/// The platform that the sensor runs on.
#[derive(Debug, Clone, Copy, PartialEq, Eq, Structural)]
pub enum Platform {
    Windows,
    MacOs,
    Linux,
    Other,
}

/// The lines of the troubleshooting guide for a platform, after its title.
pub open spec fn guidance_lines(platform: Platform) -> Seq<Seq<char>> {
    match platform {
        Platform::Windows => seq![
            "Windows:"@,
            "  1. Check Settings > Privacy > Camera"@,
            "  2. Ensure 'Allow apps to access your camera' is enabled"@,
            "  3. Ensure this application is allowed camera access"@,
            "  4. Try different camera backends (DirectShow, MSMF)"@,
        ],
        Platform::MacOs => seq![
            "macOS:"@,
            "  1. Check System Preferences > Security & Privacy > Camera"@,
            "  2. Ensure this application is checked in the camera access list"@,
            "  3. If not listed, try accessing camera to trigger permission prompt"@,
            "  4. Restart application after granting permissions"@,
        ],
        Platform::Linux => seq![
            "Linux:"@,
            "  1. Ensure user is in 'video' group: groups | grep video"@,
            "  2. If not: sudo usermod -a -G video $USER"@,
            "  3. Log out and log back in"@,
            "  4. Check camera device exists: ls /dev/video*"@,
            "  5. Test camera access: v4l2-ctl --list-devices"@,
        ],
        Platform::Other => Seq::empty(),
    }
}

/// The troubleshooting guide for a platform: its title and its lines.
pub open spec fn guidance(platform: Platform) -> Seq<Seq<char>> {
    seq!["Camera Troubleshooting Guide:"@] + guidance_lines(platform)
}

/// The texts of a row of strings.
pub open spec fn texts(lines: Seq<String>) -> Seq<Seq<char>> {
    Seq::new(lines.len(), |i: int| lines[i]@)
}

/// Provide platform-specific camera troubleshooting guidance: the lines that
/// are to be shown to the user, title first.
pub fn provide_camera_troubleshooting_guidance(platform: Platform) -> (r: Vec<String>)
    ensures
        texts(r@) == guidance(platform),
{
    let mut lines: Vec<String> = Vec::new();
    lines.push(String::from_str("Camera Troubleshooting Guide:"));
    match platform {
        Platform::Windows => {
            lines.push(String::from_str("Windows:"));
            lines.push(String::from_str("  1. Check Settings > Privacy > Camera"));
            lines.push(
                String::from_str("  2. Ensure 'Allow apps to access your camera' is enabled"),
            );
            lines.push(String::from_str("  3. Ensure this application is allowed camera access"));
            lines.push(String::from_str("  4. Try different camera backends (DirectShow, MSMF)"));
        },
        Platform::MacOs => {
            lines.push(String::from_str("macOS:"));
            lines.push(
                String::from_str("  1. Check System Preferences > Security & Privacy > Camera"),
            );
            lines.push(
                String::from_str(
                    "  2. Ensure this application is checked in the camera access list",
                ),
            );
            lines.push(
                String::from_str(
                    "  3. If not listed, try accessing camera to trigger permission prompt",
                ),
            );
            lines.push(String::from_str("  4. Restart application after granting permissions"));
        },
        Platform::Linux => {
            lines.push(String::from_str("Linux:"));
            lines.push(
                String::from_str("  1. Ensure user is in 'video' group: groups | grep video"),
            );
            lines.push(String::from_str("  2. If not: sudo usermod -a -G video $USER"));
            lines.push(String::from_str("  3. Log out and log back in"));
            lines.push(String::from_str("  4. Check camera device exists: ls /dev/video*"));
            lines.push(String::from_str("  5. Test camera access: v4l2-ctl --list-devices"));
        },
        Platform::Other => {},
    }
    assert(texts(lines@) =~= guidance(platform));
    lines
}

} // verus!
