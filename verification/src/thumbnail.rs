//! Thumbnail planning: the cache file name derived from the source
//! path's digest, and the encoder invocation that grabs one
//! representative frame.

use vstd::prelude::*;

use crate::parsers::{calculate_thumbnail_time, spec_thumbnail_time};
use crate::text::{ms_to_secs3, spec_secs3};

verus! {

/// The lower-case hex rendering of the digest of `data`, as
/// `md5::compute` and two hex digits per byte produce it. The digest
/// depends on the input bytes alone.
pub uninterp spec fn md5_hex_of(data: Seq<u8>) -> Seq<char>;

/// Relies on `md5::compute`: the digest is a pure function of the input
/// bytes, and its lower-hex rendering writes two digits for each of the
/// sixteen digest bytes.
#[verifier::external_body]
fn md5_hex(data: &[u8]) -> (r: String)
    ensures
        r@ == md5_hex_of(data@),
        r@.len() == 32,
{
    format!("{:x}", md5::compute(data))
}

/// The cache file name for a source path: the path's digest plus the
/// image extension, so one source file keeps one thumbnail.
pub fn thumbnail_file_name(path: &String) -> (r: String)
    ensures
        r@ == md5_hex_of(vstd::utf8::encode_utf8(path@)) + ".jpg"@,
{
    let digest = md5_hex(path.as_str().as_bytes());
    digest.concat(".jpg")
}

/// The encoder invocation that seeks to the thumbnail offset and writes
/// a single high-quality frame, overwriting the cache file.
pub fn build_thumbnail_args(path: &String, thumb_path: &String, duration_ms: u64) -> (r: Vec<
    String,
>)
    ensures
        r.deep_view() == seq![
            "-ss"@,
            spec_secs3(spec_thumbnail_time(duration_ms) as nat),
            "-i"@,
            path@,
            "-frames:v"@,
            "1"@,
            "-q:v"@,
            "2"@,
            "-y"@,
            thumb_path@,
        ],
{
    let offset = calculate_thumbnail_time(duration_ms);
    let mut args: Vec<String> = Vec::new();
    args.push(String::from_str("-ss"));
    args.push(ms_to_secs3(offset));
    args.push(String::from_str("-i"));
    args.push(path.clone());
    args.push(String::from_str("-frames:v"));
    args.push(String::from_str("1"));
    args.push(String::from_str("-q:v"));
    args.push(String::from_str("2"));
    args.push(String::from_str("-y"));
    args.push(thumb_path.clone());
    proof {
        assert(args.deep_view() =~= seq![
            "-ss"@,
            spec_secs3(spec_thumbnail_time(duration_ms) as nat),
            "-i"@,
            path@,
            "-frames:v"@,
            "1"@,
            "-q:v"@,
            "2"@,
            "-y"@,
            thumb_path@,
        ]);
    }
    args
}

} // verus!
