//! The export pipeline's decision core: per-clip segment encoding plans,
//! the concat manifest, and the step-by-step preparation machine that the
//! runner drives between subprocess invocations.

use vstd::prelude::*;

use crate::text::{push_u64_dec, push_u64_dec_pad, spec_dec, spec_secs3, spec_zero_pad, ms_to_secs3};
use crate::types::{ErrorEnvelope, ExportClip, ExportPrepareResult, ExportRequest};

verus! {

/// A path under `dir`, joined with a single separator.
pub open spec fn spec_join(dir: Seq<char>, name: Seq<char>) -> Seq<char> {
    dir + "/"@ + name
}

/// Join a file name onto a directory path.
pub fn join_path(dir: &str, name: &str) -> (r: String)
    ensures
        r@ == spec_join(dir@, name@),
{
    let mut out = String::new();
    out.append(dir);
    out.append("/");
    out.append(name);
    out
}

/// File name of the segment produced for clip `i`: the index is
/// zero-padded to at least four digits.
pub open spec fn spec_segment_name(i: nat) -> Seq<char> {
    "segment_"@ + spec_zero_pad(spec_dec(i), 4) + ".mp4"@
}

/// Full path of the segment produced for clip `i` of an export.
pub open spec fn spec_segment_path(dir: Seq<char>, i: nat) -> Seq<char> {
    spec_join(dir, spec_segment_name(i))
}

/// Build the path of segment `i` under the scratch directory.
pub fn segment_path(dir: &str, i: usize) -> (r: String)
    ensures
        r@ == spec_segment_path(dir@, i as nat),
{
    let mut out = String::new();
    out.append(dir);
    out.append("/");
    out.append("segment_");
    push_u64_dec_pad(&mut out, i as u64, 4);
    out.append(".mp4");
    out
}

/// One manifest directive: the segment path single-quoted after `file`,
/// so paths with spaces survive the toolchain's manifest reader.
pub open spec fn spec_manifest_line(p: Seq<char>) -> Seq<char> {
    "file '"@ + p + "'\n"@
}

/// The whole manifest: one directive line per segment, in order.
pub open spec fn spec_manifest(paths: Seq<Seq<char>>) -> Seq<char>
    decreases paths.len(),
{
    if paths.len() == 0 {
        Seq::<char>::empty()
    } else {
        spec_manifest(paths.drop_last()) + spec_manifest_line(paths.last())
    }
}

/// Render the concat manifest for the given segment paths.
pub fn build_concat_manifest(paths: &Vec<String>) -> (r: String)
    ensures
        r@ == spec_manifest(paths.deep_view()),
{
    let mut out = String::new();
    let n = paths.len();
    let mut i: usize = 0;
    proof {
        assert(paths.deep_view().take(0) =~= Seq::<Seq<char>>::empty());
    }
    while i < n
        invariant
            n == paths@.len(),
            0 <= i <= n,
            paths.deep_view().len() == n,
            out@ == spec_manifest(paths.deep_view().take(i as int)),
        decreases n - i,
    {
        out.append("file '");
        out.append(paths[i].as_str());
        out.append("'\n");
        proof {
            let dv = paths.deep_view();
            assert(dv.take(i + 1).drop_last() =~= dv.take(i as int));
            assert(dv.take(i + 1).last() == dv[i as int]);
            assert(dv[i as int] == paths@[i as int]@);
        }
        i = i + 1;
    }
    proof {
        assert(paths.deep_view().take(n as int) =~= paths.deep_view());
    }
    out
}

/// The scale filter argument for a paired target size.
pub open spec fn spec_scale_filter(w: nat, h: nat) -> Seq<char> {
    "scale="@ + spec_dec(w) + ":"@ + spec_dec(h)
}

/// The encoder invocation for one clip: seek to the trim start, read the
/// trim duration, optionally scale, and re-encode to the fixed
/// compatibility codec pair, overwriting the segment file.
pub open spec fn spec_segment_args(
    asset: Seq<char>,
    in_ms: nat,
    dur_ms: nat,
    scale: Option<(u32, u32)>,
    seg: Seq<char>,
) -> Seq<Seq<char>> {
    let head = seq!["-ss"@, spec_secs3(in_ms), "-i"@, asset, "-t"@, spec_secs3(dur_ms)];
    let scaled = match scale {
        Some((w, h)) => head + seq!["-vf"@, spec_scale_filter(w as nat, h as nat)],
        None => head,
    };
    scaled + seq![
        "-c:v"@,
        "libx264"@,
        "-preset"@,
        "medium"@,
        "-crf"@,
        "23"@,
        "-c:a"@,
        "aac"@,
        "-b:a"@,
        "192k"@,
        "-y"@,
        seg,
    ]
}

/// Build the encoder argument list for one clip's segment.
pub fn build_segment_args(
    clip: &ExportClip,
    width: &Option<u32>,
    height: &Option<u32>,
    seg: &String,
) -> (r: Vec<String>)
    requires
        clip.in_ms < clip.out_ms,
    ensures
        r.deep_view() == spec_segment_args(
            clip.asset_path@,
            clip.in_ms as nat,
            (clip.out_ms - clip.in_ms) as nat,
            spec_scale_pair(*width, *height),
            seg@,
        ),
{
    let mut args: Vec<String> = Vec::new();
    args.push(String::from_str("-ss"));
    args.push(ms_to_secs3(clip.in_ms));
    args.push(String::from_str("-i"));
    args.push(clip.asset_path.clone());
    args.push(String::from_str("-t"));
    args.push(ms_to_secs3(clip.out_ms - clip.in_ms));
    if let (Some(w), Some(h)) = (width, height) {
        args.push(String::from_str("-vf"));
        let mut filter = String::new();
        filter.append("scale=");
        push_u64_dec(&mut filter, *w as u64);
        filter.append(":");
        push_u64_dec(&mut filter, *h as u64);
        args.push(filter);
    }
    args.push(String::from_str("-c:v"));
    args.push(String::from_str("libx264"));
    args.push(String::from_str("-preset"));
    args.push(String::from_str("medium"));
    args.push(String::from_str("-crf"));
    args.push(String::from_str("23"));
    args.push(String::from_str("-c:a"));
    args.push(String::from_str("aac"));
    args.push(String::from_str("-b:a"));
    args.push(String::from_str("192k"));
    args.push(String::from_str("-y"));
    args.push(seg.clone());
    proof {
        assert(args.deep_view() =~= spec_segment_args(
            clip.asset_path@,
            clip.in_ms as nat,
            (clip.out_ms - clip.in_ms) as nat,
            spec_scale_pair(*width, *height),
            seg@,
        ));
    }
    args
}

/// The paired scale option: present only when both sides are.
pub open spec fn spec_scale_pair(w: Option<u32>, h: Option<u32>) -> Option<(u32, u32)> {
    match (w, h) {
        (Some(w), Some(h)) => Some((w, h)),
        _ => None,
    }
}

/// A clip is valid when its trim range is non-empty.
pub open spec fn clip_ok(c: ExportClip) -> bool {
    c.in_ms < c.out_ms
}

/// All clips of a request are valid.
pub open spec fn clips_ok(cs: Seq<ExportClip>) -> bool {
    forall|i: int| 0 <= i < cs.len() ==> clip_ok(#[trigger] cs[i])
}

/// Sum of the clip durations, in milliseconds.
pub open spec fn sum_durations(cs: Seq<ExportClip>) -> int
    decreases cs.len(),
{
    if cs.len() == 0 {
        0
    } else {
        sum_durations(cs.drop_last()) + cs.last().out_ms - cs.last().in_ms
    }
}

/// With valid clips every term is positive, so a prefix sums to no more
/// than the whole.
pub proof fn lemma_sum_durations_prefix(cs: Seq<ExportClip>, i: int)
    requires
        clips_ok(cs),
        0 <= i <= cs.len(),
    ensures
        0 <= sum_durations(cs.take(i)) <= sum_durations(cs),
    decreases cs.len(),
{
    if cs.len() == 0 {
        assert(cs.take(i) =~= cs);
    } else {
        assert(clips_ok(cs.drop_last())) by {
            assert(forall|j: int|
                0 <= j < cs.drop_last().len() ==> cs.drop_last()[j] == #[trigger] cs[j]);
        }
        if i < cs.len() {
            assert(cs.drop_last().take(i) =~= cs.take(i));
            lemma_sum_durations_prefix(cs.drop_last(), i);
            lemma_sum_durations_prefix(cs.drop_last(), cs.drop_last().len() as int);
            assert(cs.drop_last().take(cs.drop_last().len() as int) =~= cs.drop_last());
        } else {
            assert(cs.take(i) =~= cs);
            lemma_sum_durations_prefix(cs.drop_last(), cs.drop_last().len() as int);
            assert(cs.drop_last().take(cs.drop_last().len() as int) =~= cs.drop_last());
        }
    }
}

/// Extending a prefix by one clip adds that clip's duration.
pub proof fn lemma_sum_durations_step(cs: Seq<ExportClip>, i: int)
    requires
        0 <= i < cs.len(),
    ensures
        sum_durations(cs.take(i + 1)) == sum_durations(cs.take(i)) + cs[i].out_ms - cs[i].in_ms,
{
    assert(cs.take(i + 1).drop_last() =~= cs.take(i));
    assert(cs.take(i + 1).last() == cs[i]);
}

/// Check a request's clips: every trim range non-empty and the summed
/// duration within the millisecond counter's range.
pub fn clips_valid(clips: &Vec<ExportClip>) -> (r: bool)
    ensures
        r == (clips_ok(clips@) && sum_durations(clips@) <= u64::MAX),
{
    let n = clips.len();
    let mut total: u64 = 0;
    let mut i: usize = 0;
    proof {
        assert(clips@.take(0) =~= Seq::<ExportClip>::empty());
    }
    while i < n
        invariant
            n == clips@.len(),
            0 <= i <= n,
            clips_ok(clips@.take(i as int)),
            total == sum_durations(clips@.take(i as int)),
        decreases n - i,
    {
        proof {
            lemma_sum_durations_step(clips@, i as int);
            assert(forall|j: int|
                0 <= j < i ==> clips@.take(i + 1)[j] == #[trigger] clips@.take(i as int)[j]);
            assert(clips@.take(i + 1)[i as int] == clips@[i as int]);
        }
        if clips[i].in_ms >= clips[i].out_ms {
            return false;
        }
        let dur = clips[i].out_ms - clips[i].in_ms;
        if total > u64::MAX - dur {
            proof {
                if clips_ok(clips@) {
                    lemma_sum_durations_prefix(clips@, i + 1);
                }
            }
            return false;
        }
        total = total + dur;
        i = i + 1;
    }
    proof {
        assert(clips@.take(n as int) =~= clips@);
    }
    true
}

/// Where segment preparation stands between two pieces of outside work.
#[derive(Debug, Clone, Copy, PartialEq, Eq, Structural)]
pub enum PreparePhase {
    /// Waiting to hear whether the current clip's source file exists.
    CheckingSource,
    /// Waiting for the encoder run on the current clip.
    Encoding,
    /// All clips encoded; waiting for the manifest file write.
    WritingManifest,
    /// Preparation succeeded.
    Finished,
    /// Preparation failed; the error tells why.
    Failed,
}

/// How an encoder run for one segment ended, as the runner saw it.
#[derive(Debug, Clone, Copy, PartialEq, Eq, Structural)]
pub enum EncoderOutcome {
    /// The encoder exited with status zero.
    Completed,
    /// The encoder exited with a nonzero status.
    NonZeroExit,
    /// The encoder could not be started at all.
    LaunchFailed,
}

/// What the runner must do next for the preparation machine.
pub enum PrepareAction {
    /// Test whether this source file exists on disk.
    CheckSource { path: String },
    /// Run the encoder with these arguments and report its outcome.
    RunEncoder { args: Vec<String> },
    /// Write `content` to `path` and report whether the write succeeded.
    WriteManifest { path: String, content: String },
    /// Preparation is complete.
    Finish { result: ExportPrepareResult },
    /// Preparation has failed.
    Abort { error: ErrorEnvelope },
}

/// The segment-preparation state machine. The runner performs each
/// action it is handed (a file-existence test, an encoder run, the
/// manifest write) and feeds the outcome back; every decision in
/// between is made here.
pub struct PrepareMachine {
    pub clips: Vec<ExportClip>,
    pub width: Option<u32>,
    pub height: Option<u32>,
    pub export_dir: String,
    pub next_index: usize,
    pub segment_paths: Vec<String>,
    pub total_duration_ms: u64,
    pub phase: PreparePhase,
    pub error: Option<ErrorEnvelope>,
}

impl PrepareMachine {
    /// The machine's invariant: the accumulated total and segment list
    /// always describe exactly the clips already encoded.
    pub open spec fn wf(self) -> bool {
        &&& clips_ok(self.clips@)
        &&& sum_durations(self.clips@) <= u64::MAX
        &&& self.next_index <= self.clips@.len()
        &&& self.total_duration_ms == sum_durations(self.clips@.take(self.next_index as int))
        &&& self.segment_paths.deep_view() == Seq::new(
            self.next_index as nat,
            |i: int| spec_segment_path(self.export_dir@, i as nat),
        )
        &&& (self.phase == PreparePhase::CheckingSource || self.phase == PreparePhase::Encoding)
            ==> self.next_index < self.clips@.len()
        &&& (self.phase == PreparePhase::WritingManifest || self.phase == PreparePhase::Finished)
            ==> self.next_index == self.clips@.len()
        &&& (self.phase == PreparePhase::Failed) == (self.error is Some)
    }

    /// Start preparing a request. With no clips there is nothing to
    /// encode and the machine goes straight to writing the manifest.
    pub fn new(request: ExportRequest, export_dir: String) -> (m: Self)
        requires
            clips_ok(request.clips@),
            sum_durations(request.clips@) <= u64::MAX,
        ensures
            m.wf(),
            m.clips@ == request.clips@,
            m.width == request.width,
            m.height == request.height,
            m.export_dir@ == export_dir@,
            m.next_index == 0,
            m.segment_paths@.len() == 0,
            m.total_duration_ms == 0,
            m.phase == (if request.clips@.len() == 0 {
                PreparePhase::WritingManifest
            } else {
                PreparePhase::CheckingSource
            }),
            m.error is None,
    {
        let phase = if request.clips.len() == 0 {
            PreparePhase::WritingManifest
        } else {
            PreparePhase::CheckingSource
        };
        let m = PrepareMachine {
            clips: request.clips,
            width: request.width,
            height: request.height,
            export_dir,
            next_index: 0,
            segment_paths: Vec::new(),
            total_duration_ms: 0,
            phase,
            error: None,
        };
        proof {
            assert(m.clips@.take(0) =~= Seq::<ExportClip>::empty());
            assert(m.segment_paths.deep_view() =~= Seq::new(
                0nat,
                |i: int| spec_segment_path(m.export_dir@, i as nat),
            ));
        }
        m
    }

    /// What the runner must do next, decided by the current phase.
    pub fn next_action(&self) -> (a: PrepareAction)
        requires
            self.wf(),
        ensures
            self.phase == PreparePhase::CheckingSource ==> (a matches PrepareAction::CheckSource {
                path,
            } && path@ == self.clips@[self.next_index as int].asset_path@),
            self.phase == PreparePhase::Encoding ==> (a matches PrepareAction::RunEncoder { args }
                && args.deep_view() == spec_segment_args(
                self.clips@[self.next_index as int].asset_path@,
                self.clips@[self.next_index as int].in_ms as nat,
                (self.clips@[self.next_index as int].out_ms
                    - self.clips@[self.next_index as int].in_ms) as nat,
                spec_scale_pair(self.width, self.height),
                spec_segment_path(self.export_dir@, self.next_index as nat),
            )),
            self.phase == PreparePhase::WritingManifest ==> (a
                matches PrepareAction::WriteManifest { path, content } && path@ == spec_join(
                self.export_dir@,
                "concat_list.txt"@,
            ) && content@ == spec_manifest(self.segment_paths.deep_view())),
            self.phase == PreparePhase::Finished ==> (a matches PrepareAction::Finish { result }
                && result.segment_paths.deep_view() == self.segment_paths.deep_view()
                && result.list_file@ == spec_join(self.export_dir@, "concat_list.txt"@)
                && result.total_duration_ms == sum_durations(self.clips@)),
            self.phase == PreparePhase::Failed ==> (a matches PrepareAction::Abort { error }
                && self.error == Some(error)),
    {
        match self.phase {
            PreparePhase::CheckingSource => {
                let c = &self.clips[self.next_index];
                PrepareAction::CheckSource { path: c.asset_path.clone() }
            },
            PreparePhase::Encoding => {
                let seg = segment_path(self.export_dir.as_str(), self.next_index);
                let c = &self.clips[self.next_index];
                let args = build_segment_args(c, &self.width, &self.height, &seg);
                PrepareAction::RunEncoder { args }
            },
            PreparePhase::WritingManifest => {
                let path = join_path(self.export_dir.as_str(), "concat_list.txt");
                let content = build_concat_manifest(&self.segment_paths);
                PrepareAction::WriteManifest { path, content }
            },
            PreparePhase::Finished => {
                proof {
                    assert(self.clips@.take(self.clips@.len() as int) =~= self.clips@);
                }
                let paths = self.segment_paths.clone();
                proof {
                    assert forall|i: int| 0 <= i < self.segment_paths@.len() implies paths@[i]
                        == self.segment_paths@[i] by {}
                    assert(paths@ =~= self.segment_paths@);
                    assert(paths.deep_view() =~= self.segment_paths.deep_view());
                }
                let result = ExportPrepareResult {
                    segment_paths: paths,
                    list_file: join_path(self.export_dir.as_str(), "concat_list.txt"),
                    total_duration_ms: self.total_duration_ms,
                };
                PrepareAction::Finish { result }
            },
            PreparePhase::Failed => {
                match &self.error {
                    Some(e) => PrepareAction::Abort { error: e.clone() },
                    None => {
                        proof {
                            assert(false);
                        }
                        PrepareAction::Abort { error: ErrorEnvelope::new("", "", "") }
                    },
                }
            },
        }
    }

    /// Record whether the current clip's source file exists. A missing
    /// source aborts the whole preparation at once.
    pub fn on_source_checked(&mut self, exists: bool)
        requires
            old(self).wf(),
            old(self).phase == PreparePhase::CheckingSource,
        ensures
            final(self).wf(),
            final(self).clips == old(self).clips,
            final(self).width == old(self).width,
            final(self).height == old(self).height,
            final(self).export_dir == old(self).export_dir,
            final(self).next_index == old(self).next_index,
            final(self).segment_paths == old(self).segment_paths,
            final(self).total_duration_ms == old(self).total_duration_ms,
            exists ==> final(self).phase == PreparePhase::Encoding && final(self).error is None,
            !exists ==> (final(self).phase == PreparePhase::Failed && (final(self).error
                matches Some(e) && e.code@ == "FILE_NOT_FOUND"@ && e.message@
                == "Source file not found: "@
                + old(self).clips@[old(self).next_index as int].asset_path@ && e.hint@
                == "Make sure all source files are available"@)),
    {
        if exists {
            self.phase = PreparePhase::Encoding;
        } else {
            let mut msg = String::new();
            msg.append("Source file not found: ");
            msg.append(self.clips[self.next_index].asset_path.as_str());
            self.error = Some(
                ErrorEnvelope::new(
                    "FILE_NOT_FOUND",
                    msg.as_str(),
                    "Make sure all source files are available",
                ),
            );
            self.phase = PreparePhase::Failed;
        }
    }

    /// Record how the encoder run for the current clip ended. On success
    /// the clip's duration joins the total and its segment path the list;
    /// any failure aborts the preparation with the matching error.
    pub fn on_encoder_done(&mut self, outcome: EncoderOutcome, detail: &str)
        requires
            old(self).wf(),
            old(self).phase == PreparePhase::Encoding,
        ensures
            final(self).wf(),
            final(self).clips == old(self).clips,
            final(self).width == old(self).width,
            final(self).height == old(self).height,
            final(self).export_dir == old(self).export_dir,
            outcome == EncoderOutcome::Completed ==> ({
                &&& final(self).next_index == old(self).next_index + 1
                &&& final(self).total_duration_ms == old(self).total_duration_ms + old(
                    self,
                ).clips@[old(self).next_index as int].out_ms - old(self).clips@[old(
                    self,
                ).next_index as int].in_ms
                &&& final(self).segment_paths.deep_view() == old(
                    self,
                ).segment_paths.deep_view().push(
                    spec_segment_path(old(self).export_dir@, old(self).next_index as nat),
                )
                &&& final(self).phase == (if old(self).next_index + 1 < old(self).clips@.len() {
                    PreparePhase::CheckingSource
                } else {
                    PreparePhase::WritingManifest
                })
                &&& final(self).error is None
            }),
            outcome == EncoderOutcome::NonZeroExit ==> ({
                &&& final(self).phase == PreparePhase::Failed
                &&& final(self).next_index == old(self).next_index
                &&& final(self).segment_paths == old(self).segment_paths
                &&& final(self).total_duration_ms == old(self).total_duration_ms
                &&& (final(self).error matches Some(e) && e.code@ == "SEGMENT_FAILED"@
                    && e.message@ == "Failed to create segment "@ + spec_dec(
                    old(self).next_index as nat,
                ) + ": "@ + detail@ && e.hint@ == "Check if the source file is valid"@)
            }),
            outcome == EncoderOutcome::LaunchFailed ==> ({
                &&& final(self).phase == PreparePhase::Failed
                &&& final(self).next_index == old(self).next_index
                &&& final(self).segment_paths == old(self).segment_paths
                &&& final(self).total_duration_ms == old(self).total_duration_ms
                &&& (final(self).error matches Some(e) && e.code@ == "FFMPEG_ERROR"@ && e.message@
                    == "Failed to run ffmpeg: "@ + detail@ && e.hint@
                    == "Make sure FFmpeg is installed: brew install ffmpeg"@)
            }),
    {
        match outcome {
            EncoderOutcome::Completed => {
                let i = self.next_index;
                let n = self.clips.len();
                let dur = self.clips[i].out_ms - self.clips[i].in_ms;
                proof {
                    lemma_sum_durations_step(self.clips@, i as int);
                    lemma_sum_durations_prefix(self.clips@, i + 1);
                }
                let seg = segment_path(self.export_dir.as_str(), i);
                let ghost dv0 = self.segment_paths.deep_view();
                self.segment_paths.push(seg);
                self.total_duration_ms = self.total_duration_ms + dur;
                self.next_index = i + 1;
                self.phase = if self.next_index < n {
                    PreparePhase::CheckingSource
                } else {
                    PreparePhase::WritingManifest
                };
                proof {
                    assert(self.segment_paths.deep_view() =~= dv0.push(
                        spec_segment_path(self.export_dir@, i as nat),
                    ));
                    assert(self.segment_paths.deep_view() =~= Seq::new(
                        (i + 1) as nat,
                        |k: int| spec_segment_path(self.export_dir@, k as nat),
                    ));
                }
            },
            EncoderOutcome::NonZeroExit => {
                let mut msg = String::new();
                msg.append("Failed to create segment ");
                push_u64_dec(&mut msg, self.next_index as u64);
                msg.append(": ");
                msg.append(detail);
                self.error = Some(
                    ErrorEnvelope::new(
                        "SEGMENT_FAILED",
                        msg.as_str(),
                        "Check if the source file is valid",
                    ),
                );
                self.phase = PreparePhase::Failed;
            },
            EncoderOutcome::LaunchFailed => {
                let mut msg = String::new();
                msg.append("Failed to run ffmpeg: ");
                msg.append(detail);
                self.error = Some(
                    ErrorEnvelope::new(
                        "FFMPEG_ERROR",
                        msg.as_str(),
                        "Make sure FFmpeg is installed: brew install ffmpeg",
                    ),
                );
                self.phase = PreparePhase::Failed;
            },
        }
    }

    /// Record whether the manifest file write succeeded.
    pub fn on_manifest_written(&mut self, ok: bool, err: &str)
        requires
            old(self).wf(),
            old(self).phase == PreparePhase::WritingManifest,
        ensures
            final(self).wf(),
            final(self).clips == old(self).clips,
            final(self).width == old(self).width,
            final(self).height == old(self).height,
            final(self).export_dir == old(self).export_dir,
            final(self).next_index == old(self).next_index,
            final(self).segment_paths == old(self).segment_paths,
            final(self).total_duration_ms == old(self).total_duration_ms,
            ok ==> final(self).phase == PreparePhase::Finished && final(self).error is None,
            !ok ==> (final(self).phase == PreparePhase::Failed && (final(self).error
                matches Some(e) && e.code@ == "FILE_WRITE_ERROR"@ && e.message@
                == "Failed to write concat list: "@ + err@ && e.hint@
                == "Check application permissions"@)),
    {
        if ok {
            self.phase = PreparePhase::Finished;
        } else {
            let mut msg = String::new();
            msg.append("Failed to write concat list: ");
            msg.append(err);
            self.error = Some(
                ErrorEnvelope::new("FILE_WRITE_ERROR", msg.as_str(), "Check application permissions"),
            );
            self.phase = PreparePhase::Failed;
        }
    }

    /// Preparation is still running: more actions will follow.
    pub fn is_running(&self) -> (r: bool)
        ensures
            r == (self.phase != PreparePhase::Finished && self.phase != PreparePhase::Failed),
    {
        match self.phase {
            PreparePhase::Finished => false,
            PreparePhase::Failed => false,
            _ => true,
        }
    }
}

} // verus!
