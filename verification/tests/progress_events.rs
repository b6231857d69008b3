use cutroom::progress::{
    build_concat_args, concat_exit, concat_spawn_error, concat_wait_error, parse_progress_line,
    progress_permille, take_until_space,
};
use cutroom::types::ExportStage;

#[test]
fn half_way_marker_yields_half_fraction() {
    let line = "frame=  100 fps=30 q=-1.0 size=1024KiB time=00:00:05.00 bitrate= 900kbits/s";
    let p = parse_progress_line(line, 10000).unwrap();
    assert_eq!(p.stage, ExportStage::Concat);
    assert_eq!(p.progress_permille, 500);
    assert_eq!(p.current_ms, 5000);
    assert_eq!(p.total_ms, 10000);
    assert_eq!(p.message, "Exporting... 50%");
}

#[test]
fn line_without_marker_yields_nothing() {
    assert!(parse_progress_line("frame=  100 fps=30", 10000).is_none());
}

#[test]
fn malformed_marker_is_skipped() {
    assert!(parse_progress_line("time=N/A bitrate=?", 10000).is_none());
    assert!(parse_progress_line("time=1:2 more", 10000).is_none());
}

#[test]
fn fraction_clamps_at_one() {
    let p = parse_progress_line("time=00:00:20.00 x", 10000).unwrap();
    assert_eq!(p.progress_permille, 1000);
    assert_eq!(p.message, "Exporting... 100%");
}

#[test]
fn zero_total_counts_as_complete() {
    assert_eq!(progress_permille(0, 0), 1000);
    assert_eq!(progress_permille(123, 0), 1000);
    assert_eq!(progress_permille(1, 3), 333);
}

#[test]
fn successful_exit_emits_one_complete_event() {
    let p = concat_exit(true, 10000).unwrap();
    assert_eq!(p.stage, ExportStage::Complete);
    assert_eq!(p.progress_permille, 1000);
    assert_eq!(p.current_ms, 10000);
    assert_eq!(p.total_ms, 10000);
    assert_eq!(p.message, "Export complete!");
}

#[test]
fn failed_exit_is_export_failed() {
    let e = concat_exit(false, 10000).unwrap_err();
    assert_eq!(e.code, "EXPORT_FAILED");
    assert_eq!(e.message, "FFmpeg export failed");
    assert_eq!(e.hint, "Check if output path is writable and source files are valid");
}

#[test]
fn concat_invocation_exact() {
    let args = build_concat_args(&"/t/concat_list.txt".to_string(), &"/out/final.mp4".to_string());
    assert_eq!(
        args,
        vec![
            "-f", "concat", "-safe", "0", "-i", "/t/concat_list.txt", "-c", "copy", "-y",
            "/out/final.mp4",
        ]
    );
}

#[test]
fn spawn_and_wait_error_envelopes() {
    let e = concat_spawn_error("denied");
    assert_eq!(e.code, "FFMPEG_ERROR");
    assert_eq!(e.message, "Failed to start ffmpeg: denied");
    assert_eq!(e.hint, "Make sure FFmpeg is installed");
    let w = concat_wait_error("interrupted");
    assert_eq!(w.message, "FFmpeg process error: interrupted");
    assert_eq!(w.hint, "Export may have been interrupted");
}

#[test]
fn token_stops_at_whitespace() {
    assert_eq!(take_until_space("abc def"), "abc");
    assert_eq!(take_until_space("abc"), "abc");
    assert_eq!(take_until_space(" abc"), "");
}
