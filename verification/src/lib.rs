//! Control layer for an external media toolchain: export pipeline
//! (trim-and-encode segments, manifest, stream-copy concatenation with
//! progress), media probing, and a registry of live capture subprocesses.

pub mod capture;
pub mod devices;
pub mod export;
pub mod files;
pub mod parsers;
pub mod paths;
pub mod probe;
pub mod progress;
pub mod registry;
pub mod text;
pub mod thumbnail;
pub mod types;

use vstd::prelude::*;

verus! {

/// The trivial liveness probe of the command surface.
pub fn ping() -> (r: String)
    ensures
        r@ == "pong"@,
{
    String::from_str("pong")
}

/// The legacy greeting command, kept for compatibility.
pub fn greet(name: &str) -> (r: String)
    ensures
        r@ == "Hello, "@ + name@ + "! You've been greeted from Rust!"@,
{
    let mut out = String::new();
    out.append("Hello, ");
    out.append(name);
    out.append("! You've been greeted from Rust!");
    out
}

/// The probe stub kept for compatibility: names the path it would probe.
pub fn probe_media_stub(path: String) -> (r: String)
    ensures
        r@ == "Would probe: "@ + path@,
{
    let mut out = String::new();
    out.append("Would probe: ");
    out.append(path.as_str());
    out
}

} // verus!
