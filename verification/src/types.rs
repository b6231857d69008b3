//! Data carried between the caller, the export pipeline, the prober and
//! the recording registry.

use vstd::prelude::*;

verus! {

/// Uniform error envelope returned by every operation: a stable code,
/// a human-readable message, and a remediation hint.
#[derive(Debug, PartialEq, Eq)]
pub struct ErrorEnvelope {
    pub code: String,
    pub message: String,
    pub hint: String,
}

impl Clone for ErrorEnvelope {
    /// Cloning an envelope keeps its value.
    fn clone(&self) -> (r: Self)
        ensures
            r == *self,
    {
        ErrorEnvelope {
            code: self.code.clone(),
            message: self.message.clone(),
            hint: self.hint.clone(),
        }
    }
}

impl ErrorEnvelope {
    /// Build an envelope from its three parts.
    pub fn new(code: &str, message: &str, hint: &str) -> (r: Self)
        ensures
            r.code@ == code@,
            r.message@ == message@,
            r.hint@ == hint@,
    {
        Self { code: code.to_owned(), message: message.to_owned(), hint: hint.to_owned() }
    }
}

/// A capture device reported by the toolchain's device listing:
/// either a screen or an audio input.
#[derive(Debug, Clone, PartialEq, Eq)]
pub struct ScreenDevice {
    pub id: String,
    pub name: String,
    pub device_type: String,
}

/// A frame rate as the exact rational the prober reports, e.g. 30000/1001.
/// `den` is never zero when the value comes out of the frame-rate parser.
#[derive(Debug, Clone, Copy, PartialEq, Eq, Structural)]
pub struct FrameRate {
    pub num: u64,
    pub den: u64,
}

/// Metadata extracted from a probed media file.
#[derive(Debug, Clone, PartialEq, Eq)]
pub struct MediaMetadata {
    pub duration_ms: u64,
    pub width: u32,
    pub height: u32,
    pub fps: Option<FrameRate>,
    pub size_bytes: Option<u64>,
}

/// One trim range over a source file. Valid when `in_ms < out_ms`.
#[derive(Debug, Clone, PartialEq, Eq)]
pub struct ExportClip {
    pub asset_path: String,
    pub in_ms: u64,
    pub out_ms: u64,
}

/// An export request: ordered clips, the destination, and an optional
/// paired scale. Width and height are either both present or both absent.
#[derive(Debug, Clone, PartialEq, Eq)]
pub struct ExportRequest {
    pub clips: Vec<ExportClip>,
    pub output_path: String,
    pub width: Option<u32>,
    pub height: Option<u32>,
}

/// What segment preparation hands back: the encoded segment files in clip
/// order, the manifest path, and the summed clip duration.
#[derive(Debug, Clone, PartialEq, Eq)]
pub struct ExportPrepareResult {
    pub segment_paths: Vec<String>,
    pub list_file: String,
    pub total_duration_ms: u64,
}

/// Stage of an export progress event.
#[derive(Debug, Clone, Copy, PartialEq, Eq, Structural)]
pub enum ExportStage {
    Concat,
    Complete,
}

/// A progress event pushed while concatenation runs. The fraction is
/// carried in thousandths so it stays exact; it is clamped to 1000.
#[derive(Debug, Clone, PartialEq, Eq)]
pub struct ExportProgress {
    pub stage: ExportStage,
    pub progress_permille: u32,
    pub current_ms: u64,
    pub total_ms: u64,
    pub message: String,
}

/// The prober's JSON document, reduced to the minimal schema the
/// metadata extraction reads.
#[derive(Debug, Clone, PartialEq, Eq)]
pub struct FFprobeOutput {
    pub streams: Vec<FFprobeStream>,
    pub format: FFprobeFormat,
}

/// One stream entry of the prober's output.
#[derive(Debug, Clone, PartialEq, Eq)]
pub struct FFprobeStream {
    pub codec_type: String,
    pub width: Option<u32>,
    pub height: Option<u32>,
    pub r_frame_rate: Option<String>,
}

/// The prober's `format` object.
#[derive(Debug, Clone, PartialEq, Eq)]
pub struct FFprobeFormat {
    pub duration: Option<String>,
    pub size: Option<String>,
}

} // verus!
