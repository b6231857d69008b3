use cutroom::export::{
    build_concat_manifest, clips_valid, segment_path, EncoderOutcome, PrepareAction,
    PrepareMachine, PreparePhase,
};
use cutroom::types::{ExportClip, ExportRequest};

fn clip(path: &str, in_ms: u64, out_ms: u64) -> ExportClip {
    ExportClip { asset_path: path.to_string(), in_ms, out_ms }
}

fn two_clip_request() -> ExportRequest {
    ExportRequest {
        clips: vec![clip("a.mp4", 0, 1000), clip("b.mp4", 2000, 5000)],
        output_path: "/out/final.mp4".to_string(),
        width: None,
        height: None,
    }
}

#[test]
fn manifest_format_exact() {
    let paths = vec![
        "/a/segment_0000.mp4".to_string(),
        "/a/segment_0001.mp4".to_string(),
    ];
    let manifest = build_concat_manifest(&paths);
    assert_eq!(manifest, "file '/a/segment_0000.mp4'\nfile '/a/segment_0001.mp4'\n");
}

#[test]
fn manifest_of_nothing_is_empty() {
    assert_eq!(build_concat_manifest(&Vec::new()), "");
}

#[test]
fn segment_paths_zero_padded() {
    assert_eq!(segment_path("/d", 0), "/d/segment_0000.mp4");
    assert_eq!(segment_path("/d", 7), "/d/segment_0007.mp4");
    assert_eq!(segment_path("/d", 12345), "/d/segment_12345.mp4");
}

#[test]
fn clip_validation() {
    assert!(clips_valid(&vec![clip("a", 0, 1), clip("b", 5, 9)]));
    assert!(!clips_valid(&vec![clip("a", 5, 5)]));
    assert!(!clips_valid(&vec![clip("a", 9, 5)]));
    assert!(!clips_valid(&vec![clip("a", 0, u64::MAX), clip("b", 0, 2)]));
}

#[test]
fn prepare_two_clips_totals_durations() {
    let mut m = PrepareMachine::new(two_clip_request(), "/tmp/exp".to_string());
    assert_eq!(m.phase, PreparePhase::CheckingSource);

    match m.next_action() {
        PrepareAction::CheckSource { path } => assert_eq!(path, "a.mp4"),
        _ => panic!("expected a source check"),
    }
    m.on_source_checked(true);

    match m.next_action() {
        PrepareAction::RunEncoder { args } => {
            assert_eq!(
                args,
                vec![
                    "-ss", "0.000", "-i", "a.mp4", "-t", "1.000", "-c:v", "libx264", "-preset",
                    "medium", "-crf", "23", "-c:a", "aac", "-b:a", "192k", "-y",
                    "/tmp/exp/segment_0000.mp4",
                ]
            );
        },
        _ => panic!("expected an encoder run"),
    }
    m.on_encoder_done(EncoderOutcome::Completed, "");

    match m.next_action() {
        PrepareAction::CheckSource { path } => assert_eq!(path, "b.mp4"),
        _ => panic!("expected the second source check"),
    }
    m.on_source_checked(true);

    match m.next_action() {
        PrepareAction::RunEncoder { args } => {
            assert_eq!(args[1], "2.000");
            assert_eq!(args[5], "3.000");
            assert_eq!(args[args.len() - 1], "/tmp/exp/segment_0001.mp4");
        },
        _ => panic!("expected the second encoder run"),
    }
    m.on_encoder_done(EncoderOutcome::Completed, "");

    match m.next_action() {
        PrepareAction::WriteManifest { path, content } => {
            assert_eq!(path, "/tmp/exp/concat_list.txt");
            assert_eq!(
                content,
                "file '/tmp/exp/segment_0000.mp4'\nfile '/tmp/exp/segment_0001.mp4'\n"
            );
        },
        _ => panic!("expected the manifest write"),
    }
    m.on_manifest_written(true, "");

    match m.next_action() {
        PrepareAction::Finish { result } => {
            assert_eq!(result.total_duration_ms, 4000);
            assert_eq!(
                result.segment_paths,
                vec!["/tmp/exp/segment_0000.mp4", "/tmp/exp/segment_0001.mp4"]
            );
            assert_eq!(result.list_file, "/tmp/exp/concat_list.txt");
        },
        _ => panic!("expected the finished result"),
    }
}

#[test]
fn prepare_missing_source_fails_with_no_segments() {
    let mut m = PrepareMachine::new(two_clip_request(), "/tmp/exp".to_string());
    m.on_source_checked(false);
    assert_eq!(m.phase, PreparePhase::Failed);
    assert_eq!(m.segment_paths.len(), 0);
    match m.next_action() {
        PrepareAction::Abort { error } => {
            assert_eq!(error.code, "FILE_NOT_FOUND");
            assert_eq!(error.message, "Source file not found: a.mp4");
        },
        _ => panic!("expected an abort"),
    }
}

#[test]
fn prepare_encoder_failure_keeps_diagnostics() {
    let mut m = PrepareMachine::new(two_clip_request(), "/tmp/exp".to_string());
    m.on_source_checked(true);
    m.on_encoder_done(EncoderOutcome::NonZeroExit, "boom");
    match m.next_action() {
        PrepareAction::Abort { error } => {
            assert_eq!(error.code, "SEGMENT_FAILED");
            assert_eq!(error.message, "Failed to create segment 0: boom");
        },
        _ => panic!("expected an abort"),
    }
}

#[test]
fn prepare_encoder_launch_failure() {
    let mut m = PrepareMachine::new(two_clip_request(), "/tmp/exp".to_string());
    m.on_source_checked(true);
    m.on_encoder_done(EncoderOutcome::LaunchFailed, "no such file");
    match m.next_action() {
        PrepareAction::Abort { error } => {
            assert_eq!(error.code, "FFMPEG_ERROR");
            assert_eq!(error.message, "Failed to run ffmpeg: no such file");
        },
        _ => panic!("expected an abort"),
    }
}

#[test]
fn prepare_scaled_request_adds_filter() {
    let request = ExportRequest {
        clips: vec![clip("a.mp4", 0, 1000)],
        output_path: "/out/final.mp4".to_string(),
        width: Some(1280),
        height: Some(720),
    };
    let mut m = PrepareMachine::new(request, "/tmp/exp".to_string());
    m.on_source_checked(true);
    match m.next_action() {
        PrepareAction::RunEncoder { args } => {
            assert!(args.contains(&"-vf".to_string()));
            assert!(args.contains(&"scale=1280:720".to_string()));
        },
        _ => panic!("expected an encoder run"),
    }
}

#[test]
fn prepare_no_clips_goes_straight_to_manifest() {
    let request = ExportRequest {
        clips: Vec::new(),
        output_path: "/out/final.mp4".to_string(),
        width: None,
        height: None,
    };
    let mut m = PrepareMachine::new(request, "/tmp/exp".to_string());
    assert_eq!(m.phase, PreparePhase::WritingManifest);
    match m.next_action() {
        PrepareAction::WriteManifest { content, .. } => assert_eq!(content, ""),
        _ => panic!("expected the manifest write"),
    }
    m.on_manifest_written(true, "");
    match m.next_action() {
        PrepareAction::Finish { result } => {
            assert_eq!(result.total_duration_ms, 0);
            assert!(result.segment_paths.is_empty());
        },
        _ => panic!("expected the finished result"),
    }
}

#[test]
fn prepare_manifest_write_failure() {
    let request = ExportRequest {
        clips: Vec::new(),
        output_path: "/out/final.mp4".to_string(),
        width: None,
        height: None,
    };
    let mut m = PrepareMachine::new(request, "/tmp/exp".to_string());
    m.on_manifest_written(false, "disk full");
    match m.next_action() {
        PrepareAction::Abort { error } => {
            assert_eq!(error.code, "FILE_WRITE_ERROR");
            assert_eq!(error.message, "Failed to write concat list: disk full");
            assert_eq!(error.hint, "Check application permissions");
        },
        _ => panic!("expected an abort"),
    }
}
