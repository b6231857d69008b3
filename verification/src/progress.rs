//! The concat driver's decision core: spotting `time=` progress markers
//! in the encoder's diagnostic lines, turning them into clamped progress
//! events, and deciding what the final exit status means.
//!
//! Events produced from diagnostic lines always carry the concat stage;
//! the single complete event comes only from a successful exit, so a
//! successful run yields exactly one complete event however many
//! intermediate events fired.

use vstd::prelude::*;

use crate::parsers::{parse_ffmpeg_time, spec_parse_ffmpeg_time};
use crate::text::{char_is_space, is_space, push_u64_dec, spec_dec, spec_find_from};
use crate::types::{ErrorEnvelope, ExportProgress, ExportStage};

verus! {

/// The longest prefix of `s` holding no whitespace.
pub open spec fn spec_until_space(s: Seq<char>) -> Seq<char>
    decreases s.len(),
{
    if s.len() == 0 {
        Seq::<char>::empty()
    } else if is_space(s[0]) {
        Seq::<char>::empty()
    } else {
        seq![s[0]] + spec_until_space(s.drop_first())
    }
}

/// Take characters of `s` up to the first whitespace.
pub fn take_until_space(s: &str) -> (r: String)
    ensures
        r@ == spec_until_space(s@),
{
    let n = s.unicode_len();
    let mut i: usize = 0;
    proof {
        assert(s@.skip(0) =~= s@);
        assert(s@.take(0) =~= Seq::<char>::empty());
    }
    while i < n && !char_is_space(s.get_char(i))
        invariant
            n == s@.len(),
            0 <= i <= n,
            spec_until_space(s@) == s@.take(i as int) + spec_until_space(s@.skip(i as int)),
        decreases n - i,
    {
        proof {
            assert(s@.skip(i as int)[0] == s@[i as int]);
            assert(s@.skip(i as int).drop_first() =~= s@.skip(i + 1));
            assert(s@.take(i as int) + (seq![s@[i as int]] + spec_until_space(s@.skip(i + 1)))
                =~= s@.take(i + 1) + spec_until_space(s@.skip(i + 1)));
        }
        i = i + 1;
    }
    proof {
        if i == n {
            assert(s@.skip(n as int) =~= Seq::<char>::empty());
        }
        assert(spec_until_space(s@.skip(i as int)) =~= Seq::<char>::empty());
        assert(spec_until_space(s@) =~= s@.take(i as int));
        assert(s@.subrange(0, i as int) =~= s@.take(i as int));
    }
    s.substring_char(0, i).to_owned()
}

/// Progress as thousandths of the total, clamped to 1000. A zero total
/// counts as already complete.
pub open spec fn spec_progress_permille(cur: u64, total: u64) -> u32 {
    if total == 0 {
        1000u32
    } else if cur as int * 1000 / total as int >= 1000 {
        1000u32
    } else {
        (cur as int * 1000 / total as int) as u32
    }
}

/// Compute the clamped progress fraction in thousandths.
pub fn progress_permille(cur: u64, total: u64) -> (r: u32)
    ensures
        r == spec_progress_permille(cur, total),
        r <= 1000,
{
    if total == 0 {
        return 1000;
    }
    let scaled: u128 = (cur as u128) * 1000 / (total as u128);
    proof {
        assert(cur as int * 1000 / total as int == (cur as u128) as int * 1000 / (
        total as u128) as int);
    }
    if scaled >= 1000 {
        1000
    } else {
        scaled as u32
    }
}

/// The fraction never exceeds the clamp, and it never decreases as the
/// current position grows: within one run, progress is monotone.
pub proof fn lemma_progress_monotone(c1: u64, c2: u64, total: u64)
    requires
        c1 <= c2,
    ensures
        spec_progress_permille(c1, total) <= spec_progress_permille(c2, total) <= 1000,
{
    if total != 0 {
        assert(c1 as int * 1000 <= c2 as int * 1000);
        vstd::arithmetic::div_mod::lemma_div_is_ordered(
            c1 as int * 1000,
            c2 as int * 1000,
            total as int,
        );
    }
}

/// The progress message carried on a concat event: the percentage,
/// rounded to the nearest whole point.
pub open spec fn spec_progress_message(permille: u32) -> Seq<char> {
    "Exporting... "@ + spec_dec(((permille + 5) / 10) as nat) + "%"@
}

/// The field values of a progress event, for contracts that must speak
/// of an event before any exec `String` exists.
pub ghost struct ProgressFields {
    pub stage: ExportStage,
    pub progress_permille: u32,
    pub current_ms: u64,
    pub total_ms: u64,
    pub message: Seq<char>,
}

impl ProgressFields {
    /// Whether an exec event has exactly these field values.
    pub open spec fn matches(self, p: ExportProgress) -> bool {
        &&& p.stage == self.stage
        &&& p.progress_permille == self.progress_permille
        &&& p.current_ms == self.current_ms
        &&& p.total_ms == self.total_ms
        &&& p.message@ == self.message
    }
}

/// What a diagnostic line means: nothing when it carries no readable
/// `time=` marker, otherwise one concat-stage progress event for the
/// timestamp after the first marker, up to the following whitespace.
pub open spec fn spec_parse_progress_line(line: Seq<char>, total: u64) -> Option<ProgressFields> {
    match spec_find_from(line, "time="@, 0) {
        None => None,
        Some(i) => {
            let token = spec_until_space(line.skip(i + "time="@.len()));
            match spec_parse_ffmpeg_time(token) {
                None => None,
                Some(cur) => Some(
                    ProgressFields {
                        stage: ExportStage::Concat,
                        progress_permille: spec_progress_permille(cur, total),
                        current_ms: cur,
                        total_ms: total,
                        message: spec_progress_message(spec_progress_permille(cur, total)),
                    },
                ),
            }
        },
    }
}

/// Diagnostic lines never produce the terminal event: every event a
/// line yields carries the concat stage, so the one complete event of a
/// successful run can only come from `concat_exit`.
pub proof fn lemma_line_events_are_concat(line: Seq<char>, total: u64)
    ensures
        spec_parse_progress_line(line, total) matches Some(f) ==> f.stage == ExportStage::Concat,
{
}

/// Scan one diagnostic line for a progress marker. Malformed or missing
/// markers yield nothing: progress reporting is best-effort.
pub fn parse_progress_line(line: &str, total_ms: u64) -> (r: Option<ExportProgress>)
    ensures
        (r is Some) == (spec_parse_progress_line(line@, total_ms) is Some),
        r matches Some(p) ==> spec_parse_progress_line(line@, total_ms).unwrap().matches(p),
{
    proof {
        reveal_strlit("time=");
    }
    let n = line.unicode_len();
    let idx = match crate::text::find_sub(line, "time=") {
        None => {
            return None;
        },
        Some(i) => i,
    };
    proof {
        crate::text::lemma_find_from_some(line@, "time="@, 0, idx as int);
        assert("time="@.len() == 5);
    }
    let rest = line.substring_char(idx + 5, n);
    proof {
        assert(rest@ =~= line@.skip(idx + 5));
    }
    let token = take_until_space(rest);
    let cur = match parse_ffmpeg_time(token.as_str()) {
        None => {
            return None;
        },
        Some(c) => c,
    };
    let permille = progress_permille(cur, total_ms);
    let mut message = String::new();
    message.append("Exporting... ");
    push_u64_dec(&mut message, ((permille + 5) / 10) as u64);
    message.append("%");
    Some(
        ExportProgress {
            stage: ExportStage::Concat,
            progress_permille: permille,
            current_ms: cur,
            total_ms,
            message,
        },
    )
}

/// The encoder invocation for stream-copy concatenation of the manifest's
/// segments into the output file.
pub fn build_concat_args(list_file: &String, output_path: &String) -> (r: Vec<String>)
    ensures
        r.deep_view() == seq![
            "-f"@,
            "concat"@,
            "-safe"@,
            "0"@,
            "-i"@,
            list_file@,
            "-c"@,
            "copy"@,
            "-y"@,
            output_path@,
        ],
{
    let mut args: Vec<String> = Vec::new();
    args.push(String::from_str("-f"));
    args.push(String::from_str("concat"));
    args.push(String::from_str("-safe"));
    args.push(String::from_str("0"));
    args.push(String::from_str("-i"));
    args.push(list_file.clone());
    args.push(String::from_str("-c"));
    args.push(String::from_str("copy"));
    args.push(String::from_str("-y"));
    args.push(output_path.clone());
    proof {
        assert(args.deep_view() =~= seq![
            "-f"@,
            "concat"@,
            "-safe"@,
            "0"@,
            "-i"@,
            list_file@,
            "-c"@,
            "copy"@,
            "-y"@,
            output_path@,
        ]);
    }
    args
}

/// Decide what the concat process's exit means: failure becomes the
/// export-failed envelope; success becomes the one terminal event, which
/// is emitted even when no progress marker was ever observed.
pub fn concat_exit(success: bool, total_ms: u64) -> (r: Result<ExportProgress, ErrorEnvelope>)
    ensures
        success ==> (r matches Ok(p) && p.stage == ExportStage::Complete && p.progress_permille
            == 1000 && p.current_ms == total_ms && p.total_ms == total_ms && p.message@
            == "Export complete!"@),
        !success ==> (r matches Err(e) && e.code@ == "EXPORT_FAILED"@ && e.message@
            == "FFmpeg export failed"@ && e.hint@
            == "Check if output path is writable and source files are valid"@),
{
    if success {
        Ok(
            ExportProgress {
                stage: ExportStage::Complete,
                progress_permille: 1000,
                current_ms: total_ms,
                total_ms,
                message: String::from_str("Export complete!"),
            },
        )
    } else {
        Err(
            ErrorEnvelope::new(
                "EXPORT_FAILED",
                "FFmpeg export failed",
                "Check if output path is writable and source files are valid",
            ),
        )
    }
}

/// The envelope for a concat process that could not be started.
pub fn concat_spawn_error(err: &str) -> (r: ErrorEnvelope)
    ensures
        r.code@ == "FFMPEG_ERROR"@,
        r.message@ == "Failed to start ffmpeg: "@ + err@,
        r.hint@ == "Make sure FFmpeg is installed"@,
{
    let mut msg = String::new();
    msg.append("Failed to start ffmpeg: ");
    msg.append(err);
    ErrorEnvelope::new("FFMPEG_ERROR", msg.as_str(), "Make sure FFmpeg is installed")
}

/// The envelope for a concat process whose exit status could not be read.
pub fn concat_wait_error(err: &str) -> (r: ErrorEnvelope)
    ensures
        r.code@ == "FFMPEG_ERROR"@,
        r.message@ == "FFmpeg process error: "@ + err@,
        r.hint@ == "Export may have been interrupted"@,
{
    let mut msg = String::new();
    msg.append("FFmpeg process error: ");
    msg.append(err);
    ErrorEnvelope::new("FFMPEG_ERROR", msg.as_str(), "Export may have been interrupted")
}

} // verus!
