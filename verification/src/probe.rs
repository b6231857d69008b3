//! Metadata extraction from the prober's minimal JSON schema: the first
//! video stream's dimensions and frame rate, and the format object's
//! duration and size. The runner runs the prober and deserializes its
//! document; every decision about what the document means is made here.

use vstd::prelude::*;

use crate::parsers::{
    parse_frame_rate, parse_secs_ms, spec_parse_frame_rate, spec_parse_secs_ms,
};
use crate::text::{parse_u64_dec, spec_parse_u64};
use crate::types::{ErrorEnvelope, FFprobeOutput, FFprobeStream, FrameRate, MediaMetadata};

verus! {

/// Index of the first stream whose codec type is `video`, if any.
pub open spec fn spec_first_video(streams: Seq<FFprobeStream>) -> Option<int>
    decreases streams.len(),
{
    if streams.len() == 0 {
        None
    } else if streams[0].codec_type@ == "video"@ {
        Some(0)
    } else {
        match spec_first_video(streams.drop_first()) {
            Some(i) => Some(i + 1),
            None => None,
        }
    }
}

/// What metadata the prober's document yields, or the code of the error
/// it earns: no video stream, then no readable duration, then missing
/// dimensions, checked in that order. Frame rate and size are optional
/// and parse failures there are ignored.
pub open spec fn spec_extract_metadata(probe: FFprobeOutput) -> Result<MediaMetadata, Seq<char>> {
    match spec_first_video(probe.streams@) {
        None => Err("NO_VIDEO_STREAM"@),
        Some(vi) => {
            let duration = match probe.format.duration {
                None => None::<u64>,
                Some(d) => spec_parse_secs_ms(d@),
            };
            match duration {
                None => Err("NO_DURATION"@),
                Some(duration_ms) => match probe.streams@[vi].width {
                    None => Err("NO_WIDTH"@),
                    Some(width) => match probe.streams@[vi].height {
                        None => Err("NO_HEIGHT"@),
                        Some(height) => Ok(
                            MediaMetadata {
                                duration_ms,
                                width,
                                height,
                                fps: (match probe.streams@[vi].r_frame_rate {
                                    None => None::<FrameRate>,
                                    Some(r) => spec_parse_frame_rate(r@),
                                }),
                                size_bytes: (match probe.format.size {
                                    None => None::<u64>,
                                    Some(s) => spec_parse_u64(s@),
                                }),
                            },
                        ),
                    },
                },
            }
        },
    }
}

/// The human message for each extraction error code.
pub open spec fn spec_probe_error_message(code: Seq<char>) -> Seq<char> {
    if code == "NO_VIDEO_STREAM"@ {
        "No video stream found in file"@
    } else if code == "NO_DURATION"@ {
        "Could not determine video duration"@
    } else if code == "NO_WIDTH"@ {
        "Could not determine video width"@
    } else {
        "Could not determine video height"@
    }
}

/// The remediation hint for each extraction error code.
pub open spec fn spec_probe_error_hint(code: Seq<char>) -> Seq<char> {
    if code == "NO_VIDEO_STREAM"@ {
        "Make sure the file is a valid video file"@
    } else {
        "The file may be corrupted"@
    }
}

/// Extract media metadata from a parsed prober document.
#[verifier::rlimit(50)]
pub fn extract_metadata(probe: &FFprobeOutput) -> (r: Result<MediaMetadata, ErrorEnvelope>)
    ensures
        (r is Ok) == (spec_extract_metadata(*probe) is Ok),
        r matches Ok(m) ==> spec_extract_metadata(*probe) == Ok::<MediaMetadata, Seq<char>>(m),
        r matches Err(e) ==> (spec_extract_metadata(*probe) matches Err(code) && e.code@ == code
            && e.message@ == spec_probe_error_message(code) && e.hint@ == spec_probe_error_hint(
            code,
        )),
{
    proof {
        reveal_strlit("NO_VIDEO_STREAM");
        reveal_strlit("NO_DURATION");
        reveal_strlit("NO_WIDTH");
        reveal_strlit("NO_HEIGHT");
    }
    let video = String::from_str("video");
    let n = probe.streams.len();
    let mut vi: usize = 0;
    proof {
        lemma_first_video_agree(probe.streams@);
    }
    while vi < n && !(probe.streams[vi].codec_type == video)
        invariant
            n == probe.streams@.len(),
            0 <= vi <= n,
            video@ == "video"@,
            spec_first_video(probe.streams@) == spec_first_video_from(probe.streams@, vi as int),
        decreases n - vi,
    {
        proof {
            assert(spec_first_video_from(probe.streams@, vi as int) == spec_first_video_from(
                probe.streams@,
                vi + 1,
            ));
        }
        vi = vi + 1;
    }
    if vi == n {
        proof {
            assert(spec_first_video(probe.streams@) is None);
        }
        return Err(
            ErrorEnvelope::new(
                "NO_VIDEO_STREAM",
                "No video stream found in file",
                "Make sure the file is a valid video file",
            ),
        );
    }
    proof {
        assert(spec_first_video(probe.streams@) == Some(vi as int));
    }
    let duration_ms = match &probe.format.duration {
        None => {
            proof {
                assert(spec_extract_metadata(*probe) == Err::<MediaMetadata, Seq<char>>(
                    "NO_DURATION"@,
                ));
            }
            return Err(
                ErrorEnvelope::new(
                    "NO_DURATION",
                    "Could not determine video duration",
                    "The file may be corrupted",
                ),
            );
        },
        Some(d) => match parse_secs_ms(d.as_str()) {
            None => {
                return Err(
                    ErrorEnvelope::new(
                        "NO_DURATION",
                        "Could not determine video duration",
                        "The file may be corrupted",
                    ),
                );
            },
            Some(ms) => ms,
        },
    };
    let width = match probe.streams[vi].width {
        None => {
            return Err(
                ErrorEnvelope::new(
                    "NO_WIDTH",
                    "Could not determine video width",
                    "The file may be corrupted",
                ),
            );
        },
        Some(w) => w,
    };
    let height = match probe.streams[vi].height {
        None => {
            return Err(
                ErrorEnvelope::new(
                    "NO_HEIGHT",
                    "Could not determine video height",
                    "The file may be corrupted",
                ),
            );
        },
        Some(h) => h,
    };
    let fps = match &probe.streams[vi].r_frame_rate {
        None => None,
        Some(r) => parse_frame_rate(r.as_str()),
    };
    let size_bytes = match &probe.format.size {
        None => None,
        Some(s) => parse_u64_dec(s.as_str()),
    };
    Ok(MediaMetadata { duration_ms, width, height, fps, size_bytes })
}

/// `spec_first_video` restricted to indices at or after `i`.
pub open spec fn spec_first_video_from(streams: Seq<FFprobeStream>, i: int) -> Option<int>
    decreases streams.len() - i,
{
    if i < 0 || i >= streams.len() {
        None
    } else if streams[i].codec_type@ == "video"@ {
        Some(i)
    } else {
        spec_first_video_from(streams, i + 1)
    }
}

/// The recursive head-first search agrees with the index-based one.
pub proof fn lemma_first_video_agree(streams: Seq<FFprobeStream>)
    ensures
        spec_first_video(streams) == spec_first_video_from(streams, 0),
    decreases streams.len(),
{
    if streams.len() > 0 {
        lemma_first_video_agree(streams.drop_first());
        lemma_first_video_from_shift(streams, 0);
    }
}

/// Shifting the start across the dropped head adds one to the index.
proof fn lemma_first_video_from_shift(streams: Seq<FFprobeStream>, i: int)
    requires
        0 <= i,
        streams.len() >= 1,
    ensures
        spec_first_video_from(streams.drop_first(), i) == (
        match spec_first_video_from(streams, i + 1) {
            Some(j) => Some(j - 1),
            None => None,
        }),
    decreases streams.len() - i,
{
    if i < streams.len() - 1 {
        lemma_first_video_from_shift(streams, i + 1);
        assert(streams.drop_first()[i] == streams[i + 1]);
    } else {
        assert(spec_first_video_from(streams.drop_first(), i) is None);
        assert(spec_first_video_from(streams, i + 1) is None);
    }
}

} // verus!
