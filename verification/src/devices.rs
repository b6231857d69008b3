//! Device discovery: a best-effort readout of the toolchain's device
//! listing diagnostics. The text is sectioned by header lines, device
//! lines are picked apart around their bracketed index, video devices
//! are filtered to screen captures, and a default screen and microphone
//! are synthesized if none were parsed — the caller never sees an empty
//! list.

use vstd::prelude::*;

use crate::text::{
    contains_sub, find_sub, is_match_at, rfind_sub, spec_find_from, spec_rfind_from, spec_split,
    spec_trim, split_str, starts_with_str, trim_str,
};
use crate::types::ScreenDevice;

verus! {

/// Which device section of the listing a line falls in.
#[derive(Debug, Clone, Copy, PartialEq, Eq, Structural)]
pub enum DeviceSection {
    /// Before any section header.
    Outside,
    /// After the video-devices header.
    Video,
    /// After the audio-devices header.
    Audio,
}

/// Whether `pat` occurs somewhere in `line`.
pub open spec fn spec_contains(line: Seq<char>, pat: Seq<char>) -> bool {
    spec_find_from(line, pat, 0) is Some
}

/// The section in force after reading `line`, given the section before.
pub open spec fn spec_line_section(line: Seq<char>, cur: DeviceSection) -> DeviceSection {
    if spec_contains(line, "AVFoundation video devices:"@) {
        DeviceSection::Video
    } else if spec_contains(line, "AVFoundation audio devices:"@) {
        DeviceSection::Audio
    } else {
        cur
    }
}

/// A section header line carries no device of its own.
pub open spec fn spec_is_header(line: Seq<char>) -> bool {
    spec_contains(line, "AVFoundation video devices:"@) || spec_contains(
        line,
        "AVFoundation audio devices:"@,
    )
}

/// The device a non-header line describes, as (id, name, type) views:
/// the id sits between the last `] [` and the following `]`, the name
/// is the trimmed remainder, and in the video section only screen
/// captures count. A line whose name would begin past the end carries
/// no device.
pub open spec fn spec_device_of_line(line: Seq<char>, section: DeviceSection) -> Option<
    (Seq<char>, Seq<char>, Seq<char>),
> {
    if section == DeviceSection::Outside {
        None
    } else if !spec_contains(line, "[AVFoundation"@) {
        None
    } else {
        match spec_rfind_from(line, "] ["@, line.len() - "] ["@.len()) {
            None => None,
            Some(bs) => {
                let rest = line.skip(bs + 3);
                match spec_find_from(rest, "]"@, 0) {
                    None => None,
                    Some(be) => if bs + 3 + be + 2 > line.len() {
                        None
                    } else {
                        let id = rest.take(be);
                        let name = spec_trim(line.skip(bs + 3 + be + 2));
                        if section == DeviceSection::Video {
                            if is_match_at(name, "Capture screen"@, 0) {
                                Some((id, name, "screen"@))
                            } else {
                                None
                            }
                        } else {
                            Some((id, name, "audio"@))
                        }
                    },
                }
            },
        }
    }
}

/// The devices the listing's lines yield, threading the section state.
pub open spec fn spec_scan_devices(lines: Seq<Seq<char>>, section: DeviceSection) -> Seq<
    (Seq<char>, Seq<char>, Seq<char>),
>
    decreases lines.len(),
{
    if lines.len() == 0 {
        Seq::empty()
    } else {
        let sec2 = spec_line_section(lines[0], section);
        let rest = spec_scan_devices(lines.drop_first(), sec2);
        if spec_is_header(lines[0]) {
            rest
        } else {
            match spec_device_of_line(lines[0], section) {
                Some(t) => seq![t] + rest,
                None => rest,
            }
        }
    }
}

/// Whether some parsed device carries the given type.
pub open spec fn spec_has_type(ds: Seq<(Seq<char>, Seq<char>, Seq<char>)>, t: Seq<char>) -> bool {
    exists|k: int| 0 <= k < ds.len() && ds[k].2 == t
}

/// The safety fallback: a default screen if no screen device was
/// parsed, then a default microphone if no audio device is present.
pub open spec fn spec_with_defaults(ds: Seq<(Seq<char>, Seq<char>, Seq<char>)>) -> Seq<
    (Seq<char>, Seq<char>, Seq<char>),
> {
    let with_screen = if ds.len() == 0 || !spec_has_type(ds, "screen"@) {
        ds.push(("0"@, "Capture screen 0"@, "screen"@))
    } else {
        ds
    };
    if !spec_has_type(with_screen, "audio"@) {
        with_screen.push(("0"@, "Default microphone"@, "audio"@))
    } else {
        with_screen
    }
}

/// The (id, name, type) views of a device list.
pub open spec fn device_views(ds: Seq<ScreenDevice>) -> Seq<(Seq<char>, Seq<char>, Seq<char>)> {
    Seq::new(ds.len(), |i: int| (ds[i].id@, ds[i].name@, ds[i].device_type@))
}

/// What the whole listing means: scan the lines from outside any
/// section, then apply the fallback defaults.
pub open spec fn spec_parse_device_list(text: Seq<char>) -> Seq<(Seq<char>, Seq<char>, Seq<char>)> {
    spec_with_defaults(spec_scan_devices(spec_split(text, '\n'), DeviceSection::Outside))
}

/// Pick the device out of one listing line, if it names one.
pub fn device_of_line(line: &str, section: DeviceSection) -> (r: Option<ScreenDevice>)
    ensures
        (r is Some) == (spec_device_of_line(line@, section) is Some),
        r matches Some(d) ==> spec_device_of_line(line@, section) == Some(
            (d.id@, d.name@, d.device_type@),
        ),
{
    proof {
        reveal_strlit("] [");
        reveal_strlit("]");
    }
    match section {
        DeviceSection::Outside => {
            return None;
        },
        _ => {},
    }
    if !contains_sub(line, "[AVFoundation") {
        return None;
    }
    let n = line.unicode_len();
    let bs = match rfind_sub(line, "] [") {
        None => {
            return None;
        },
        Some(b) => b,
    };
    proof {
        crate::text::lemma_rfind_from_some(line@, "] ["@, n - 3, bs as int);
    }
    let rest = line.substring_char(bs + 3, n);
    proof {
        assert(rest@ =~= line@.skip(bs + 3));
    }
    let be = match find_sub(rest, "]") {
        None => {
            return None;
        },
        Some(b) => b,
    };
    proof {
        crate::text::lemma_find_from_some(rest@, "]"@, 0, be as int);
        assert(bs + 3 + be < n);
    }
    if n - (bs + 3 + be) < 2 {
        return None;
    }
    let id = rest.substring_char(0, be).to_owned();
    proof {
        assert(id@ =~= line@.skip(bs + 3).take(be as int));
    }
    let name_part = line.substring_char(bs + 3 + be + 2, n);
    proof {
        assert(name_part@ =~= line@.skip(bs + 3 + be + 2));
    }
    let name = trim_str(name_part);
    match section {
        DeviceSection::Video => {
            if starts_with_str(name.as_str(), "Capture screen") {
                Some(ScreenDevice { id, name, device_type: "screen".to_owned() })
            } else {
                None
            }
        },
        _ => Some(ScreenDevice { id, name, device_type: "audio".to_owned() }),
    }
}

/// Whether any device in the list carries the given type.
pub fn has_device_type(devices: &Vec<ScreenDevice>, t: &String) -> (r: bool)
    ensures
        r == spec_has_type(device_views(devices@), t@),
{
    let n = devices.len();
    let mut i: usize = 0;
    while i < n
        invariant
            n == devices@.len(),
            0 <= i <= n,
            forall|k: int| 0 <= k < i ==> devices@[k].device_type@ != t@,
        decreases n - i,
    {
        if devices[i].device_type == *t {
            proof {
                assert(device_views(devices@)[i as int].2 == t@);
            }
            return true;
        }
        i = i + 1;
    }
    proof {
        assert forall|k: int| 0 <= k < device_views(devices@).len() implies device_views(
            devices@,
        )[k].2 != t@ by {}
    }
    false
}

/// Parse the toolchain's device-listing diagnostics into the devices it
/// names, with the fallback defaults applied.
pub fn parse_device_list(text: &str) -> (r: Vec<ScreenDevice>)
    ensures
        device_views(r@) == spec_parse_device_list(text@),
{
    let lines = split_str(text, '\n');
    let ghost lv = lines.deep_view();
    let n = lines.len();
    let mut devices: Vec<ScreenDevice> = Vec::new();
    let mut section = DeviceSection::Outside;
    let mut i: usize = 0;
    proof {
        assert(lv.skip(0) =~= lv);
        assert(device_views(devices@) =~= Seq::<(Seq<char>, Seq<char>, Seq<char>)>::empty());
    }
    while i < n
        invariant
            n == lines@.len(),
            lv == lines.deep_view(),
            lv.len() == n,
            0 <= i <= n,
            spec_scan_devices(lv, DeviceSection::Outside) == device_views(devices@)
                + spec_scan_devices(lv.skip(i as int), section),
        decreases n - i,
    {
        let line = lines[i].as_str();
        proof {
            assert(lv.skip(i as int)[0] == lv[i as int]);
            assert(lv[i as int] == lines@[i as int]@);
            assert(lv.skip(i as int).drop_first() =~= lv.skip(i + 1));
        }
        if contains_sub(line, "AVFoundation video devices:") {
            section = DeviceSection::Video;
        } else if contains_sub(line, "AVFoundation audio devices:") {
            section = DeviceSection::Audio;
        } else {
            match device_of_line(line, section) {
                Some(d) => {
                    let ghost dv0 = device_views(devices@);
                    let ghost t = (d.id@, d.name@, d.device_type@);
                    devices.push(d);
                    proof {
                        assert(device_views(devices@) =~= dv0.push(t));
                        assert(dv0.push(t) =~= dv0 + seq![t]);
                        assert(dv0 + (seq![t] + spec_scan_devices(lv.skip(i + 1), section)) =~= (
                        dv0 + seq![t]) + spec_scan_devices(lv.skip(i + 1), section));
                    }
                },
                None => {},
            }
        }
        i = i + 1;
    }
    proof {
        assert(lv.skip(n as int) =~= Seq::<Seq<char>>::empty());
    }
    let ghost scanned = device_views(devices@);
    let screen_type = String::from_str("screen");
    let audio_type = String::from_str("audio");
    let no_screen = devices.len() == 0 || !has_device_type(&devices, &screen_type);
    if no_screen {
        let ghost dv0 = device_views(devices@);
        devices.push(
            ScreenDevice {
                id: "0".to_owned(),
                name: "Capture screen 0".to_owned(),
                device_type: "screen".to_owned(),
            },
        );
        proof {
            assert(device_views(devices@) =~= dv0.push(("0"@, "Capture screen 0"@, "screen"@)));
        }
    }
    if !has_device_type(&devices, &audio_type) {
        let ghost dv1 = device_views(devices@);
        devices.push(
            ScreenDevice {
                id: "0".to_owned(),
                name: "Default microphone".to_owned(),
                device_type: "audio".to_owned(),
            },
        );
        proof {
            assert(device_views(devices@) =~= dv1.push(("0"@, "Default microphone"@, "audio"@)));
        }
    }
    proof {
        assert(device_views(devices@) == spec_with_defaults(scanned));
    }
    devices
}

} // verus!
