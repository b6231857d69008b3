use cutroom::parsers::{
    calculate_thumbnail_time, parse_ffmpeg_time, parse_frame_rate, parse_secs_ms,
};
use cutroom::text::{ms_to_secs3, parse_u64_dec, split_str, trim_str, u64_to_dec};
use cutroom::types::FrameRate;

#[test]
fn time_round_trip_example() {
    assert_eq!(parse_ffmpeg_time("01:02:03.500"), Some(3723500));
}

#[test]
fn time_rejects_wrong_field_count() {
    assert_eq!(parse_ffmpeg_time("1:2"), None);
    assert_eq!(parse_ffmpeg_time("1:2:3:4"), None);
    assert_eq!(parse_ffmpeg_time(""), None);
}

#[test]
fn time_rejects_non_numeric() {
    assert_eq!(parse_ffmpeg_time("a:b:c"), None);
    assert_eq!(parse_ffmpeg_time("1:2:x"), None);
    assert_eq!(parse_ffmpeg_time("-1:0:0"), None);
}

#[test]
fn time_truncates_fraction_to_milliseconds() {
    assert_eq!(parse_ffmpeg_time("0:0:1.2345"), Some(1234));
    assert_eq!(parse_ffmpeg_time("0:0:1.2"), Some(1200));
    assert_eq!(parse_ffmpeg_time("0:0:1."), Some(1000));
    assert_eq!(parse_ffmpeg_time("10:00:00"), Some(36000000));
    assert_eq!(parse_ffmpeg_time("00:00:05.00"), Some(5000));
}

#[test]
fn frame_rate_ntsc() {
    let r = parse_frame_rate("30000/1001").unwrap();
    assert_eq!(r, FrameRate { num: 30000, den: 1001 });
    let fps = r.num as f64 / r.den as f64;
    assert!((fps - 29.97).abs() < 0.01);
}

#[test]
fn frame_rate_zero_denominator() {
    assert_eq!(parse_frame_rate("30/0"), None);
}

#[test]
fn frame_rate_missing_slash() {
    assert_eq!(parse_frame_rate("30"), None);
    assert_eq!(parse_frame_rate("30/1/2"), None);
    assert_eq!(parse_frame_rate("x/1"), None);
}

#[test]
fn thumbnail_offset_clamps_low() {
    assert_eq!(calculate_thumbnail_time(0), 500);
    assert_eq!(calculate_thumbnail_time(4999), 500);
}

#[test]
fn thumbnail_offset_clamps_high() {
    assert_eq!(calculate_thumbnail_time(100000), 5000);
}

#[test]
fn thumbnail_offset_mid_range() {
    assert_eq!(calculate_thumbnail_time(20000), 2000);
}

#[test]
fn seconds_parse_truncates() {
    assert_eq!(parse_secs_ms("3.5"), Some(3500));
    assert_eq!(parse_secs_ms("3.5678"), Some(3567));
    assert_eq!(parse_secs_ms("12.345678"), Some(12345));
    assert_eq!(parse_secs_ms("7"), Some(7000));
    assert_eq!(parse_secs_ms("x"), None);
    assert_eq!(parse_secs_ms("1.2.3"), None);
}

#[test]
fn u64_decimal_parse_bounds() {
    assert_eq!(parse_u64_dec("0"), Some(0));
    assert_eq!(parse_u64_dec("18446744073709551615"), Some(u64::MAX));
    assert_eq!(parse_u64_dec("18446744073709551616"), None);
    assert_eq!(parse_u64_dec(""), None);
    assert_eq!(parse_u64_dec("12a"), None);
}

#[test]
fn decimal_rendering() {
    assert_eq!(u64_to_dec(0), "0");
    assert_eq!(u64_to_dec(7), "7");
    assert_eq!(u64_to_dec(1234567), "1234567");
    assert_eq!(u64_to_dec(u64::MAX), "18446744073709551615");
}

#[test]
fn seconds_rendering_three_places() {
    assert_eq!(ms_to_secs3(0), "0.000");
    assert_eq!(ms_to_secs3(1500), "1.500");
    assert_eq!(ms_to_secs3(65432), "65.432");
    assert_eq!(ms_to_secs3(999), "0.999");
}

#[test]
fn split_keeps_empty_fields() {
    let fields = split_str("a,b,,c", ',');
    assert_eq!(fields, vec!["a", "b", "", "c"]);
    assert_eq!(split_str("", ','), vec![""]);
    assert_eq!(split_str("x", ','), vec!["x"]);
}

#[test]
fn trim_both_ends() {
    assert_eq!(trim_str("  x y\t"), "x y");
    assert_eq!(trim_str("\r\n"), "");
    assert_eq!(trim_str("plain"), "plain");
}
