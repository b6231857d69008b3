//! Pure parsers for the toolchain's textual formats: `H:M:S.fraction`
//! progress timestamps, rational frame-rate strings, and decimal second
//! counts, plus the thumbnail-offset rule.

use vstd::prelude::*;

use crate::text::{
    char_is_digit, dec_val, is_digit, parse_u64_dec, spec_parse_u64, spec_split, split_str,
};
use crate::types::FrameRate;

verus! {

/// The fraction digits of a seconds field, truncated to milliseconds:
/// the first three digits, padded with zeros on the right.
pub open spec fn spec_frac_ms(f: Seq<char>) -> nat {
    if f.len() == 0 {
        0
    } else if f.len() == 1 {
        dec_val(f) * 100
    } else if f.len() == 2 {
        dec_val(f) * 10
    } else {
        dec_val(f.take(3))
    }
}

/// A fraction field is all digits (it may be empty).
pub open spec fn spec_frac_ok(f: Seq<char>) -> bool {
    forall|i: int| 0 <= i < f.len() ==> is_digit(#[trigger] f[i])
}

/// A decimal seconds count, `S` or `S.fraction`, as milliseconds,
/// truncated to the millisecond.
pub open spec fn spec_parse_secs_ms(s: Seq<char>) -> Option<u64> {
    let fields = spec_split(s, '.');
    if fields.len() == 1 {
        spec_whole_plus_frac(fields[0], 0)
    } else if fields.len() == 2 && spec_frac_ok(fields[1]) {
        spec_whole_plus_frac(fields[0], spec_frac_ms(fields[1]))
    } else {
        None
    }
}

/// `whole` seconds plus `frac` milliseconds, if the whole part parses
/// and the total fits in a `u64`.
pub open spec fn spec_whole_plus_frac(whole: Seq<char>, frac: nat) -> Option<u64> {
    match spec_parse_u64(whole) {
        Some(v) => if v * 1000 + frac <= u64::MAX {
            Some((v * 1000 + frac) as u64)
        } else {
            None
        },
        None => None,
    }
}

/// A progress timestamp `H:M:S[.fraction]` as milliseconds: exactly three
/// colon-separated fields, truncated to the millisecond.
pub open spec fn spec_parse_ffmpeg_time(s: Seq<char>) -> Option<u64> {
    let fields = spec_split(s, ':');
    if fields.len() == 3 {
        match (spec_parse_u64(fields[0]), spec_parse_u64(fields[1]), spec_parse_secs_ms(
            fields[2],
        )) {
            (Some(h), Some(m), Some(sms)) => if h * 3600000 + m * 60000 + sms <= u64::MAX {
                Some((h * 3600000 + m * 60000 + sms) as u64)
            } else {
                None
            },
            _ => None,
        }
    } else {
        None
    }
}

/// A rational frame-rate string `num/den`: exactly two fields around one
/// slash, both decimal numbers, denominator nonzero.
pub open spec fn spec_parse_frame_rate(s: Seq<char>) -> Option<FrameRate> {
    let fields = spec_split(s, '/');
    if fields.len() == 2 {
        match (spec_parse_u64(fields[0]), spec_parse_u64(fields[1])) {
            (Some(num), Some(den)) => if den == 0 {
                None
            } else {
                Some(FrameRate { num, den })
            },
            _ => None,
        }
    } else {
        None
    }
}

/// Parse a decimal seconds count (`S` or `S.fraction`) as milliseconds.
pub fn parse_secs_ms(s: &str) -> (r: Option<u64>)
    ensures
        r == spec_parse_secs_ms(s@),
{
    let fields = split_str(s, '.');
    if fields.len() == 1 {
        proof {
            assert(fields.deep_view()[0] == fields@[0]@);
        }
        match parse_u64_dec(fields[0].as_str()) {
            Some(v) => {
                if v <= u64::MAX / 1000 {
                    proof {
                        assert(v * 1000 <= u64::MAX) by (nonlinear_arith)
                            requires
                                v <= u64::MAX / 1000,
                        ;
                    }
                    Some(v * 1000)
                } else {
                    proof {
                        assert(v * 1000 > u64::MAX) by (nonlinear_arith)
                            requires
                                v > u64::MAX / 1000,
                        ;
                    }
                    None
                }
            },
            None => None,
        }
    } else if fields.len() == 2 {
        proof {
            assert(fields.deep_view()[0] == fields@[0]@);
            assert(fields.deep_view()[1] == fields@[1]@);
        }
        let whole = match parse_u64_dec(fields[0].as_str()) {
            Some(v) => v,
            None => {
                return None;
            },
        };
        let frac_str = fields[1].as_str();
        let flen = frac_str.unicode_len();
        let mut i: usize = 0;
        while i < flen
            invariant
                flen == frac_str@.len(),
                0 <= i <= flen,
                spec_split(s@, '.').len() == 2,
                frac_str@ == spec_split(s@, '.')[1],
                forall|j: int| 0 <= j < i ==> is_digit(#[trigger] frac_str@[j]),
            decreases flen - i,
        {
            if !char_is_digit(frac_str.get_char(i)) {
                return None;
            }
            i = i + 1;
        }
        let frac: u64 = if flen == 0 {
            0
        } else if flen == 1 {
            proof {
                crate::text::lemma_dec_val_small(frac_str@);
            }
            let d = match parse_u64_dec(frac_str) {
                Some(d) => d,
                None => {
                    proof {
                        assert(false);
                    }
                    return None;
                },
            };
            d * 100
        } else if flen == 2 {
            proof {
                crate::text::lemma_dec_val_small(frac_str@);
            }
            let d = match parse_u64_dec(frac_str) {
                Some(d) => d,
                None => {
                    proof {
                        assert(false);
                    }
                    return None;
                },
            };
            d * 10
        } else {
            let first3 = frac_str.substring_char(0, 3);
            proof {
                assert(first3@ == frac_str@.take(3));
                crate::text::lemma_dec_val_small(frac_str@.take(3));
            }
            let d = match parse_u64_dec(first3) {
                Some(d) => d,
                None => {
                    proof {
                        assert(false);
                    }
                    return None;
                },
            };
            d
        };
        proof {
            assert(frac < 1000);
            assert(frac as nat == spec_frac_ms(frac_str@));
        }
        if whole <= (u64::MAX - frac) / 1000 {
            proof {
                assert(whole * 1000 + frac <= u64::MAX) by (nonlinear_arith)
                    requires
                        whole <= (u64::MAX - frac) / 1000,
                        frac < 1000,
                ;
            }
            Some(whole * 1000 + frac)
        } else {
            proof {
                assert(whole * 1000 + frac > u64::MAX) by (nonlinear_arith)
                    requires
                        whole > (u64::MAX - frac) / 1000,
                        frac < 1000,
                ;
            }
            None
        }
    } else {
        None
    }
}

/// Parse the toolchain's progress timestamp (`hh:mm:ss.xx`) to
/// milliseconds. Returns `None` unless there are exactly three
/// colon-separated fields and every field is a decimal number.
pub fn parse_ffmpeg_time(time_str: &str) -> (r: Option<u64>)
    ensures
        r == spec_parse_ffmpeg_time(time_str@),
{
    let fields = split_str(time_str, ':');
    if fields.len() != 3 {
        return None;
    }
    proof {
        assert(fields.deep_view()[0] == fields@[0]@);
        assert(fields.deep_view()[1] == fields@[1]@);
        assert(fields.deep_view()[2] == fields@[2]@);
    }
    let hours = match parse_u64_dec(fields[0].as_str()) {
        Some(v) => v,
        None => {
            return None;
        },
    };
    let minutes = match parse_u64_dec(fields[1].as_str()) {
        Some(v) => v,
        None => {
            return None;
        },
    };
    let secs_ms = match parse_secs_ms(fields[2].as_str()) {
        Some(v) => v,
        None => {
            return None;
        },
    };
    let total: u128 = (hours as u128) * 3600000 + (minutes as u128) * 60000 + (secs_ms as u128);
    if total > u64::MAX as u128 {
        None
    } else {
        Some(total as u64)
    }
}

/// Parse a frame-rate string like `30/1` or `30000/1001` into the exact
/// rational. Returns `None` unless there are exactly two fields around
/// one slash, both decimal, with a nonzero denominator.
pub fn parse_frame_rate(rate_str: &str) -> (r: Option<FrameRate>)
    ensures
        r == spec_parse_frame_rate(rate_str@),
{
    let fields = split_str(rate_str, '/');
    if fields.len() != 2 {
        return None;
    }
    proof {
        assert(fields.deep_view()[0] == fields@[0]@);
        assert(fields.deep_view()[1] == fields@[1]@);
    }
    let num = match parse_u64_dec(fields[0].as_str()) {
        Some(v) => v,
        None => {
            return None;
        },
    };
    let den = match parse_u64_dec(fields[1].as_str()) {
        Some(v) => v,
        None => {
            return None;
        },
    };
    if den == 0 {
        None
    } else {
        Some(FrameRate { num, den })
    }
}

/// Offset into a clip at which a representative thumbnail frame is
/// taken: a tenth of the duration, clamped to 500..=5000 milliseconds.
pub open spec fn spec_thumbnail_time(duration_ms: u64) -> u64 {
    if duration_ms / 10 < 500 {
        500u64
    } else if duration_ms / 10 > 5000 {
        5000u64
    } else {
        duration_ms / 10
    }
}

/// Compute the thumbnail offset for a clip of the given duration.
pub fn calculate_thumbnail_time(duration_ms: u64) -> (r: u64)
    ensures
        r == spec_thumbnail_time(duration_ms),
{
    let ten_percent = duration_ms / 10;
    if ten_percent < 500 {
        500
    } else if ten_percent > 5000 {
        5000
    } else {
        ten_percent
    }
}

} // verus!
