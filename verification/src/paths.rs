//! Locating the encoder and prober executables: well-known installation
//! paths are tried first, falling back to the bare command name so the
//! operating system's search path resolves it.

use vstd::prelude::*;

verus! {

/// Relies on `std::path::Path::exists` to test a path on disk. The
/// answer depends on the file system's state, so nothing is promised
/// of it; the selection logic takes the answers as plain booleans.
#[verifier::external_body]
fn path_exists(p: &str) -> bool {
    std::path::Path::new(p).exists()
}

/// Pick the first present well-known location, else the fallback name.
pub fn choose_binary(
    primary: &str,
    primary_present: bool,
    secondary: &str,
    secondary_present: bool,
    fallback: &str,
) -> (r: String)
    ensures
        r@ == (if primary_present {
            primary@
        } else if secondary_present {
            secondary@
        } else {
            fallback@
        }),
{
    if primary_present {
        primary.to_owned()
    } else if secondary_present {
        secondary.to_owned()
    } else {
        fallback.to_owned()
    }
}

/// Resolve the encoder executable: the well-known installation paths
/// are preferred; missing both, the bare name is left to the system's
/// executable search path.
pub fn get_ffmpeg_path() -> (r: String)
    ensures
        r@ == "/opt/homebrew/bin/ffmpeg"@ || r@ == "/usr/local/bin/ffmpeg"@ || r@ == "ffmpeg"@,
{
    let primary = "/opt/homebrew/bin/ffmpeg";
    let secondary = "/usr/local/bin/ffmpeg";
    let primary_present = path_exists(primary);
    let secondary_present = path_exists(secondary);
    choose_binary(primary, primary_present, secondary, secondary_present, "ffmpeg")
}

/// Resolve the prober executable the same way as the encoder.
pub fn get_ffprobe_path() -> (r: String)
    ensures
        r@ == "/opt/homebrew/bin/ffprobe"@ || r@ == "/usr/local/bin/ffprobe"@ || r@ == "ffprobe"@,
{
    let primary = "/opt/homebrew/bin/ffprobe";
    let secondary = "/usr/local/bin/ffprobe";
    let primary_present = path_exists(primary);
    let secondary_present = path_exists(secondary);
    choose_binary(primary, primary_present, secondary, secondary_present, "ffprobe")
}

/// The environment error reported when the encoder cannot be invoked,
/// with its actionable installation hint.
pub fn ffmpeg_missing_error() -> (r: crate::types::ErrorEnvelope)
    ensures
        r.code@ == "FFMPEG_NOT_FOUND"@,
        r.message@ == "FFmpeg is not installed or not found in PATH"@,
        r.hint@ == "Install FFmpeg: brew install ffmpeg (macOS) or visit https://ffmpeg.org"@,
{
    crate::types::ErrorEnvelope::new(
        "FFMPEG_NOT_FOUND",
        "FFmpeg is not installed or not found in PATH",
        "Install FFmpeg: brew install ffmpeg (macOS) or visit https://ffmpeg.org",
    )
}

} // verus!
