//! The capture launcher: builds the device-specific encoder invocations
//! for screen, webcam and combined (picture-in-picture) recording, and
//! decides the platform-support error. The runner spawns the process
//! and registers its handle; every string handed to the encoder is
//! built and specified here.

use vstd::prelude::*;

use crate::export::spec_join;
use crate::text::{push_u64_dec, spec_dec};
use crate::types::ErrorEnvelope;

verus! {

/// The capture input selector `<video-device>:<audio-device>`; a missing
/// audio device becomes the literal `none`.
pub open spec fn spec_input_device(dev: Seq<char>, audio: Option<Seq<char>>) -> Seq<char> {
    match audio {
        Some(a) => dev + ":"@ + a,
        None => dev + ":"@ + "none"@,
    }
}

/// Build the `<video>:<audio>` input selector.
pub fn build_input_device(device: &String, audio: &Option<String>) -> (r: String)
    ensures
        r@ == spec_input_device(
            device@,
            match audio {
                Some(a) => Some(a@),
                None => None,
            },
        ),
{
    let mut out = String::new();
    out.append(device.as_str());
    out.append(":");
    match audio {
        Some(a) => out.append(a.as_str()),
        None => out.append("none"),
    }
    out
}

/// What kind of capture a recording is.
#[derive(Debug, Clone, Copy, PartialEq, Eq, Structural)]
pub enum CaptureKind {
    Screen,
    Webcam,
    Combined,
}

/// The file-name prefix for each capture kind.
pub open spec fn spec_kind_prefix(kind: CaptureKind) -> Seq<char> {
    match kind {
        CaptureKind::Screen => "screen-recording-"@,
        CaptureKind::Webcam => "webcam-recording-"@,
        CaptureKind::Combined => "combined-recording-"@,
    }
}

/// The output file name for a capture started at `timestamp` seconds.
pub open spec fn spec_recording_filename(kind: CaptureKind, timestamp: u64) -> Seq<char> {
    spec_kind_prefix(kind) + spec_dec(timestamp as nat) + ".mp4"@
}

/// Build the output file name for a capture.
pub fn recording_filename(kind: CaptureKind, timestamp: u64) -> (r: String)
    ensures
        r@ == spec_recording_filename(kind, timestamp),
{
    let mut out = String::new();
    match kind {
        CaptureKind::Screen => out.append("screen-recording-"),
        CaptureKind::Webcam => out.append("webcam-recording-"),
        CaptureKind::Combined => out.append("combined-recording-"),
    }
    push_u64_dec(&mut out, timestamp);
    out.append(".mp4");
    out
}

/// The single-input capture invocation shared by screen and webcam
/// recording: a fixed frame rate, the fast preset, and the widely
/// compatible pixel format and audio codec. Webcam capture adds the
/// fragmented-container flags so the file stays readable while it is
/// still being written.
pub open spec fn spec_single_capture_args(
    input: Seq<char>,
    output: Seq<char>,
    fragmented: bool,
) -> Seq<Seq<char>> {
    let head = seq![
        "-f"@,
        "avfoundation"@,
        "-framerate"@,
        "30"@,
        "-i"@,
        input,
        "-c:v"@,
        "libx264"@,
        "-preset"@,
        "ultrafast"@,
        "-pix_fmt"@,
        "yuv420p"@,
        "-c:a"@,
        "aac"@,
        "-b:a"@,
        "128k"@,
    ];
    let flagged = if fragmented {
        head + seq!["-movflags"@, "frag_keyframe+empty_moov"@]
    } else {
        head
    };
    flagged + seq!["-y"@, output]
}

/// Build the single-input capture invocation.
pub fn build_single_capture_args(input: &String, output: &String, fragmented: bool) -> (r: Vec<
    String,
>)
    ensures
        r.deep_view() == spec_single_capture_args(input@, output@, fragmented),
{
    let mut args: Vec<String> = Vec::new();
    args.push(String::from_str("-f"));
    args.push(String::from_str("avfoundation"));
    args.push(String::from_str("-framerate"));
    args.push(String::from_str("30"));
    args.push(String::from_str("-i"));
    args.push(input.clone());
    args.push(String::from_str("-c:v"));
    args.push(String::from_str("libx264"));
    args.push(String::from_str("-preset"));
    args.push(String::from_str("ultrafast"));
    args.push(String::from_str("-pix_fmt"));
    args.push(String::from_str("yuv420p"));
    args.push(String::from_str("-c:a"));
    args.push(String::from_str("aac"));
    args.push(String::from_str("-b:a"));
    args.push(String::from_str("128k"));
    if fragmented {
        args.push(String::from_str("-movflags"));
        args.push(String::from_str("frag_keyframe+empty_moov"));
    }
    args.push(String::from_str("-y"));
    args.push(output.clone());
    proof {
        assert(args.deep_view() =~= spec_single_capture_args(input@, output@, fragmented));
    }
    args
}

/// The fixed picture-in-picture filter: the webcam stream scaled down
/// and overlaid at the bottom-right of the screen stream.
pub open spec fn spec_pip_filter() -> Seq<char> {
    "[1:v]scale=320:240[pip];[0:v][pip]overlay=W-w-20:H-h-20[v]"@
}

/// The combined capture invocation: two inputs, the overlay filter, and
/// audio mapped only from the first (screen) input to avoid duplication.
pub open spec fn spec_combined_capture_args(
    screen_input: Seq<char>,
    webcam_input: Seq<char>,
    output: Seq<char>,
) -> Seq<Seq<char>> {
    seq![
        "-f"@,
        "avfoundation"@,
        "-framerate"@,
        "30"@,
        "-i"@,
        screen_input,
        "-f"@,
        "avfoundation"@,
        "-framerate"@,
        "30"@,
        "-i"@,
        webcam_input,
        "-filter_complex"@,
        spec_pip_filter(),
        "-map"@,
        "[v]"@,
        "-map"@,
        "0:a?"@,
        "-c:v"@,
        "libx264"@,
        "-preset"@,
        "ultrafast"@,
        "-pix_fmt"@,
        "yuv420p"@,
        "-c:a"@,
        "aac"@,
        "-b:a"@,
        "128k"@,
        "-movflags"@,
        "frag_keyframe+empty_moov"@,
        "-y"@,
        output,
    ]
}

/// Build the combined (picture-in-picture) capture invocation.
pub fn build_combined_capture_args(
    screen_input: &String,
    webcam_input: &String,
    output: &String,
) -> (r: Vec<String>)
    ensures
        r.deep_view() == spec_combined_capture_args(screen_input@, webcam_input@, output@),
{
    let mut args: Vec<String> = Vec::new();
    args.push(String::from_str("-f"));
    args.push(String::from_str("avfoundation"));
    args.push(String::from_str("-framerate"));
    args.push(String::from_str("30"));
    args.push(String::from_str("-i"));
    args.push(screen_input.clone());
    args.push(String::from_str("-f"));
    args.push(String::from_str("avfoundation"));
    args.push(String::from_str("-framerate"));
    args.push(String::from_str("30"));
    args.push(String::from_str("-i"));
    args.push(webcam_input.clone());
    args.push(String::from_str("-filter_complex"));
    args.push(String::from_str("[1:v]scale=320:240[pip];[0:v][pip]overlay=W-w-20:H-h-20[v]"));
    args.push(String::from_str("-map"));
    args.push(String::from_str("[v]"));
    args.push(String::from_str("-map"));
    args.push(String::from_str("0:a?"));
    args.push(String::from_str("-c:v"));
    args.push(String::from_str("libx264"));
    args.push(String::from_str("-preset"));
    args.push(String::from_str("ultrafast"));
    args.push(String::from_str("-pix_fmt"));
    args.push(String::from_str("yuv420p"));
    args.push(String::from_str("-c:a"));
    args.push(String::from_str("aac"));
    args.push(String::from_str("-b:a"));
    args.push(String::from_str("128k"));
    args.push(String::from_str("-movflags"));
    args.push(String::from_str("frag_keyframe+empty_moov"));
    args.push(String::from_str("-y"));
    args.push(output.clone());
    proof {
        assert(args.deep_view() =~= spec_combined_capture_args(
            screen_input@,
            webcam_input@,
            output@,
        ));
    }
    args
}

/// A planned capture: where the recording will land and how to invoke
/// the encoder. Spawning it and registering the handle is the runner's.
#[derive(Debug)]
pub struct CapturePlan {
    pub output_path: String,
    pub args: Vec<String>,
}

/// The platform-support error every capture operation returns where the
/// capture backend is not available.
pub fn platform_not_supported(what: &str, hint: &str) -> (r: ErrorEnvelope)
    ensures
        r.code@ == "PLATFORM_NOT_SUPPORTED"@,
        r.message@ == what@,
        r.hint@ == hint@,
{
    ErrorEnvelope::new("PLATFORM_NOT_SUPPORTED", what, hint)
}

/// Plan a screen recording: decide the output path and the exact
/// encoder invocation, or fail where the platform has no capture
/// backend.
pub fn plan_screen_recording(
    platform_supported: bool,
    screen_device: &String,
    audio_device: &Option<String>,
    recordings_dir: &String,
    timestamp: u64,
) -> (r: Result<CapturePlan, ErrorEnvelope>)
    ensures
        platform_supported ==> (r matches Ok(plan) && plan.output_path@ == spec_join(
            recordings_dir@,
            spec_recording_filename(CaptureKind::Screen, timestamp),
        ) && plan.args.deep_view() == spec_single_capture_args(
            spec_input_device(
                screen_device@,
                match audio_device {
                    Some(a) => Some(a@),
                    None => None,
                },
            ),
            plan.output_path@,
            false,
        )),
        !platform_supported ==> (r matches Err(e) && e.code@ == "PLATFORM_NOT_SUPPORTED"@
            && e.message@ == "Screen recording is only supported on macOS"@ && e.hint@
            == "Use a Mac to enable screen recording"@),
{
    if !platform_supported {
        return Err(
            platform_not_supported(
                "Screen recording is only supported on macOS",
                "Use a Mac to enable screen recording",
            ),
        );
    }
    let filename = recording_filename(CaptureKind::Screen, timestamp);
    let output_path = crate::export::join_path(recordings_dir.as_str(), filename.as_str());
    let input = build_input_device(screen_device, audio_device);
    let args = build_single_capture_args(&input, &output_path, false);
    Ok(CapturePlan { output_path, args })
}

/// Plan a webcam recording; the container is fragmented so the file is
/// valid while recording is still under way.
pub fn plan_webcam_recording(
    platform_supported: bool,
    webcam_device: &String,
    audio_device: &Option<String>,
    recordings_dir: &String,
    timestamp: u64,
) -> (r: Result<CapturePlan, ErrorEnvelope>)
    ensures
        platform_supported ==> (r matches Ok(plan) && plan.output_path@ == spec_join(
            recordings_dir@,
            spec_recording_filename(CaptureKind::Webcam, timestamp),
        ) && plan.args.deep_view() == spec_single_capture_args(
            spec_input_device(
                webcam_device@,
                match audio_device {
                    Some(a) => Some(a@),
                    None => None,
                },
            ),
            plan.output_path@,
            true,
        )),
        !platform_supported ==> (r matches Err(e) && e.code@ == "PLATFORM_NOT_SUPPORTED"@
            && e.message@ == "Webcam recording is only supported on macOS"@ && e.hint@
            == "Use a Mac to enable webcam recording"@),
{
    if !platform_supported {
        return Err(
            platform_not_supported(
                "Webcam recording is only supported on macOS",
                "Use a Mac to enable webcam recording",
            ),
        );
    }
    let filename = recording_filename(CaptureKind::Webcam, timestamp);
    let output_path = crate::export::join_path(recordings_dir.as_str(), filename.as_str());
    let input = build_input_device(webcam_device, audio_device);
    let args = build_single_capture_args(&input, &output_path, true);
    Ok(CapturePlan { output_path, args })
}

/// Plan a combined screen-plus-webcam recording: audio rides on the
/// screen input only, and the webcam input explicitly carries none.
pub fn plan_combined_recording(
    platform_supported: bool,
    screen_device: &String,
    webcam_device: &String,
    audio_device: &Option<String>,
    recordings_dir: &String,
    timestamp: u64,
) -> (r: Result<CapturePlan, ErrorEnvelope>)
    ensures
        platform_supported ==> (r matches Ok(plan) && plan.output_path@ == spec_join(
            recordings_dir@,
            spec_recording_filename(CaptureKind::Combined, timestamp),
        ) && plan.args.deep_view() == spec_combined_capture_args(
            spec_input_device(
                screen_device@,
                match audio_device {
                    Some(a) => Some(a@),
                    None => None,
                },
            ),
            spec_input_device(webcam_device@, None),
            plan.output_path@,
        )),
        !platform_supported ==> (r matches Err(e) && e.code@ == "PLATFORM_NOT_SUPPORTED"@
            && e.message@ == "Combined recording is only supported on macOS"@ && e.hint@
            == "Use a Mac to enable combined recording"@),
{
    if !platform_supported {
        return Err(
            platform_not_supported(
                "Combined recording is only supported on macOS",
                "Use a Mac to enable combined recording",
            ),
        );
    }
    let filename = recording_filename(CaptureKind::Combined, timestamp);
    let output_path = crate::export::join_path(recordings_dir.as_str(), filename.as_str());
    let screen_input = build_input_device(screen_device, audio_device);
    let webcam_input = build_input_device(webcam_device, &None);
    let args = build_combined_capture_args(&screen_input, &webcam_input, &output_path);
    Ok(CapturePlan { output_path, args })
}

} // verus!
