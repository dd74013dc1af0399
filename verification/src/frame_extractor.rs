//! The frame extractor's initialization-time reporting.
//!
//! Bringing the streaming backend up is the driver's job; what the library
//! owns is the banner describing the backend version that is logged when
//! initialization succeeds, including the nano-version suffix convention.
use crate::text::{dec_chars, decimal_string};
use vstd::prelude::*;
use vstd::string::*;

verus! {

/// The suffix describing a backend nano version: development and
/// prerelease builds are marked, release builds are not.
pub open spec fn nano_suffix_chars(nano: nat) -> Seq<char> {
    if nano == 1 {
        "(CVS)"@
    } else if nano == 2 {
        "(Prelease)"@
    } else {
        ""@
    }
}

/// The banner logged once the streaming backend is initialized.
pub open spec fn version_banner_chars(major: nat, minor: nat, micro: nat, nano: nat) -> Seq<
    char,
> {
    "This program is linked against GStreamer "@ + dec_chars(major) + "."@ + dec_chars(minor)
        + "."@ + dec_chars(micro) + " "@ + nano_suffix_chars(nano)
}

/// The nano-version suffix for a concrete version.
pub fn nano_suffix(nano: u32) -> (r: &'static str)
    ensures
        r@ == nano_suffix_chars(nano as nat),
{
    let s: &'static str = if nano == 1 {
        "(CVS)"
    } else if nano == 2 {
        "(Prelease)"
    } else {
        ""
    };
    s
}

/// Initialize-time reporting for the frame extractor: the banner the
/// driver logs after bringing the streaming backend up, built from the
/// backend's (major, minor, micro, nano) version.
pub fn init_frame_extractor(version: (u32, u32, u32, u32)) -> (r: String)
    ensures
        r@ == version_banner_chars(
            version.0 as nat,
            version.1 as nat,
            version.2 as nat,
            version.3 as nat,
        ),
{
    let (major, minor, micro, nano) = version;
    let mut s = String::from_str("This program is linked against GStreamer ");
    s.append(decimal_string(major as u64).as_str());
    s.append(".");
    s.append(decimal_string(minor as u64).as_str());
    s.append(".");
    s.append(decimal_string(micro as u64).as_str());
    s.append(" ");
    s.append(nano_suffix(nano));
    proof {
        assert(s@ =~= version_banner_chars(
            version.0 as nat,
            version.1 as nat,
            version.2 as nat,
            version.3 as nat,
        ));
    }
    s
}

} // verus!
