use cutroom::capture::{
    build_input_device, plan_combined_recording, plan_screen_recording, plan_webcam_recording,
    recording_filename, CaptureKind,
};
use cutroom::devices::{parse_device_list, DeviceSection};
use cutroom::files::ensure_recording_extension;
use cutroom::paths::{choose_binary, ffmpeg_missing_error, get_ffmpeg_path, get_ffprobe_path};
use cutroom::probe::extract_metadata;
use cutroom::thumbnail::{build_thumbnail_args, thumbnail_file_name};
use cutroom::types::{FFprobeFormat, FFprobeOutput, FFprobeStream, FrameRate, ScreenDevice};
use cutroom::{greet, ping, probe_media_stub};

fn stream(codec: &str, w: Option<u32>, h: Option<u32>, rate: Option<&str>) -> FFprobeStream {
    FFprobeStream {
        codec_type: codec.to_string(),
        width: w,
        height: h,
        r_frame_rate: rate.map(|r| r.to_string()),
    }
}

#[test]
fn input_device_with_and_without_audio() {
    assert_eq!(build_input_device(&"3".to_string(), &Some("1".to_string())), "3:1");
    assert_eq!(build_input_device(&"3".to_string(), &None), "3:none");
}

#[test]
fn recording_filenames_by_kind() {
    assert_eq!(
        recording_filename(CaptureKind::Screen, 1700000000),
        "screen-recording-1700000000.mp4"
    );
    assert_eq!(recording_filename(CaptureKind::Webcam, 5), "webcam-recording-5.mp4");
    assert_eq!(recording_filename(CaptureKind::Combined, 5), "combined-recording-5.mp4");
}

#[test]
fn screen_plan_invocation() {
    let plan = plan_screen_recording(
        true,
        &"3".to_string(),
        &Some("0".to_string()),
        &"/rec".to_string(),
        42,
    )
    .unwrap();
    assert_eq!(plan.output_path, "/rec/screen-recording-42.mp4");
    assert_eq!(
        plan.args,
        vec![
            "-f", "avfoundation", "-framerate", "30", "-i", "3:0", "-c:v", "libx264", "-preset",
            "ultrafast", "-pix_fmt", "yuv420p", "-c:a", "aac", "-b:a", "128k", "-y",
            "/rec/screen-recording-42.mp4",
        ]
    );
}

#[test]
fn webcam_plan_uses_fragmented_container() {
    let plan =
        plan_webcam_recording(true, &"0".to_string(), &None, &"/rec".to_string(), 1).unwrap();
    assert_eq!(plan.output_path, "/rec/webcam-recording-1.mp4");
    let flags_at = plan.args.iter().position(|a| a == "-movflags").unwrap();
    assert_eq!(plan.args[flags_at + 1], "frag_keyframe+empty_moov");
    assert_eq!(plan.args[5], "0:none");
}

#[test]
fn combined_plan_overlays_webcam() {
    let plan = plan_combined_recording(
        true,
        &"3".to_string(),
        &"0".to_string(),
        &Some("1".to_string()),
        &"/rec".to_string(),
        9,
    )
    .unwrap();
    assert_eq!(plan.output_path, "/rec/combined-recording-9.mp4");
    assert_eq!(plan.args[5], "3:1");
    assert_eq!(plan.args[11], "0:none");
    assert!(plan
        .args
        .contains(&"[1:v]scale=320:240[pip];[0:v][pip]overlay=W-w-20:H-h-20[v]".to_string()));
    let map_at = plan.args.iter().position(|a| a == "-map").unwrap();
    assert_eq!(plan.args[map_at + 1], "[v]");
}

#[test]
fn capture_plans_fail_off_platform() {
    let e = plan_screen_recording(false, &"3".to_string(), &None, &"/r".to_string(), 0)
        .unwrap_err();
    assert_eq!(e.code, "PLATFORM_NOT_SUPPORTED");
    assert_eq!(e.message, "Screen recording is only supported on macOS");
    let e = plan_webcam_recording(false, &"0".to_string(), &None, &"/r".to_string(), 0)
        .unwrap_err();
    assert_eq!(e.message, "Webcam recording is only supported on macOS");
    let e = plan_combined_recording(
        false,
        &"3".to_string(),
        &"0".to_string(),
        &None,
        &"/r".to_string(),
        0,
    )
    .unwrap_err();
    assert_eq!(e.message, "Combined recording is only supported on macOS");
}

#[test]
fn device_listing_parses_screens_and_audio() {
    let text = "\
[AVFoundation indev @ 0x7f8] AVFoundation video devices:\n\
[AVFoundation indev @ 0x7f8] [0] Capture screen 0\n\
[AVFoundation indev @ 0x7f8] [1] FaceTime HD Camera\n\
[AVFoundation indev @ 0x7f8] AVFoundation audio devices:\n\
[AVFoundation indev @ 0x7f8] [0] MacBook Pro Microphone";
    let devices = parse_device_list(text);
    assert_eq!(
        devices,
        vec![
            ScreenDevice {
                id: "0".to_string(),
                name: "Capture screen 0".to_string(),
                device_type: "screen".to_string(),
            },
            ScreenDevice {
                id: "0".to_string(),
                name: "MacBook Pro Microphone".to_string(),
                device_type: "audio".to_string(),
            },
        ]
    );
}

#[test]
fn device_listing_synthesizes_defaults() {
    let devices = parse_device_list("nothing recognizable here");
    assert_eq!(
        devices,
        vec![
            ScreenDevice {
                id: "0".to_string(),
                name: "Capture screen 0".to_string(),
                device_type: "screen".to_string(),
            },
            ScreenDevice {
                id: "0".to_string(),
                name: "Default microphone".to_string(),
                device_type: "audio".to_string(),
            },
        ]
    );
}

#[test]
fn device_listing_adds_missing_microphone() {
    let text = "\
[AVFoundation indev @ 0x7f8] AVFoundation video devices:\n\
[AVFoundation indev @ 0x7f8] [2] Capture screen 1";
    let devices = parse_device_list(text);
    assert_eq!(devices.len(), 2);
    assert_eq!(devices[0].id, "2");
    assert_eq!(devices[0].name, "Capture screen 1");
    assert_eq!(devices[1].name, "Default microphone");
}

#[test]
fn device_line_outside_sections_is_ignored() {
    let devices =
        parse_device_list("[AVFoundation indev @ 0x7f8] [0] Capture screen 0");
    assert_eq!(devices[0].name, "Capture screen 0");
    assert_eq!(devices.len(), 2);
    assert_eq!(
        cutroom::devices::device_of_line(
            "[AVFoundation indev @ 0x7f8] [0] Capture screen 0",
            DeviceSection::Outside,
        ),
        None
    );
}

#[test]
fn metadata_extraction_happy_path() {
    let probe = FFprobeOutput {
        streams: vec![
            stream("audio", None, None, None),
            stream("video", Some(1920), Some(1080), Some("30000/1001")),
        ],
        format: FFprobeFormat {
            duration: Some("12.345678".to_string()),
            size: Some("1024".to_string()),
        },
    };
    let m = extract_metadata(&probe).unwrap();
    assert_eq!(m.duration_ms, 12345);
    assert_eq!(m.width, 1920);
    assert_eq!(m.height, 1080);
    assert_eq!(m.fps, Some(FrameRate { num: 30000, den: 1001 }));
    assert_eq!(m.size_bytes, Some(1024));
}

#[test]
fn metadata_errors_in_order() {
    let no_video = FFprobeOutput {
        streams: vec![stream("audio", None, None, None)],
        format: FFprobeFormat { duration: Some("1".to_string()), size: None },
    };
    assert_eq!(extract_metadata(&no_video).unwrap_err().code, "NO_VIDEO_STREAM");

    let no_duration = FFprobeOutput {
        streams: vec![stream("video", Some(1), Some(1), None)],
        format: FFprobeFormat { duration: None, size: None },
    };
    assert_eq!(extract_metadata(&no_duration).unwrap_err().code, "NO_DURATION");

    let no_width = FFprobeOutput {
        streams: vec![stream("video", None, Some(1), None)],
        format: FFprobeFormat { duration: Some("1".to_string()), size: None },
    };
    assert_eq!(extract_metadata(&no_width).unwrap_err().code, "NO_WIDTH");

    let no_height = FFprobeOutput {
        streams: vec![stream("video", Some(1), None, None)],
        format: FFprobeFormat { duration: Some("1".to_string()), size: None },
    };
    assert_eq!(extract_metadata(&no_height).unwrap_err().code, "NO_HEIGHT");
}

#[test]
fn metadata_tolerates_bad_optional_fields() {
    let probe = FFprobeOutput {
        streams: vec![stream("video", Some(640), Some(480), Some("bogus"))],
        format: FFprobeFormat { duration: Some("2.5".to_string()), size: Some("x".to_string()) },
    };
    let m = extract_metadata(&probe).unwrap();
    assert_eq!(m.duration_ms, 2500);
    assert_eq!(m.fps, None);
    assert_eq!(m.size_bytes, None);
}

#[test]
fn thumbnail_name_is_path_digest() {
    assert_eq!(
        thumbnail_file_name(&"abc".to_string()),
        "900150983cd24fb0d6963f7d28e17f72.jpg"
    );
    assert_eq!(
        thumbnail_file_name(&"".to_string()),
        "d41d8cd98f00b204e9800998ecf8427e.jpg"
    );
}

#[test]
fn thumbnail_invocation_seeks_to_offset() {
    let args = build_thumbnail_args(
        &"/v/in.mp4".to_string(),
        &"/t/cache.jpg".to_string(),
        20000,
    );
    assert_eq!(
        args,
        vec![
            "-ss", "2.000", "-i", "/v/in.mp4", "-frames:v", "1", "-q:v", "2", "-y",
            "/t/cache.jpg",
        ]
    );
}

#[test]
fn tool_paths_fall_back_to_search_path() {
    let ffmpeg = get_ffmpeg_path();
    assert!(
        ffmpeg == "/opt/homebrew/bin/ffmpeg"
            || ffmpeg == "/usr/local/bin/ffmpeg"
            || ffmpeg == "ffmpeg"
    );
    let ffprobe = get_ffprobe_path();
    assert!(
        ffprobe == "/opt/homebrew/bin/ffprobe"
            || ffprobe == "/usr/local/bin/ffprobe"
            || ffprobe == "ffprobe"
    );
}

#[test]
fn binary_choice_prefers_present_locations() {
    assert_eq!(choose_binary("a", true, "b", true, "c"), "a");
    assert_eq!(choose_binary("a", false, "b", true, "c"), "b");
    assert_eq!(choose_binary("a", false, "b", false, "c"), "c");
}

#[test]
fn missing_toolchain_envelope() {
    let e = ffmpeg_missing_error();
    assert_eq!(e.code, "FFMPEG_NOT_FOUND");
    assert_eq!(e.message, "FFmpeg is not installed or not found in PATH");
}

#[test]
fn recording_extension_default() {
    assert_eq!(ensure_recording_extension(&"clip".to_string()), "clip.webm");
    assert_eq!(ensure_recording_extension(&"clip.mp4".to_string()), "clip.mp4");
    assert_eq!(ensure_recording_extension(&"a.b.c".to_string()), "a.b.c");
}

#[test]
fn legacy_commands() {
    assert_eq!(ping(), "pong");
    assert_eq!(greet("Ada"), "Hello, Ada! You've been greeted from Rust!");
    assert_eq!(probe_media_stub("/v.mp4".to_string()), "Would probe: /v.mp4");
}
