//! The thumbnail extractor's computable side.
//!
//! Extracting a thumbnail means launching a short decode pipeline over the
//! video file and writing one scaled frame to disk; the pipeline
//! description and the destination are plain values this library computes
//! and states exactly, while the launch itself is the driver's job.
use crate::frame_extractor::{init_frame_extractor, version_banner_chars};
use vstd::prelude::*;
use vstd::string::*;

verus! {

/// The launch description of the thumbnail decode pipeline for one video
/// file: decode it and hand raw video frames to an application sink named
/// `sink`.
pub open spec fn thumbnail_pipeline_chars(video_path: Seq<char>) -> Seq<char> {
    "filesrc location="@ + video_path + " ! decodebin ! videoconvert ! appsink name=sink"@
}

/// Initialize-time reporting for the thumbnail extractor: the same
/// backend banner as the frame extractor's.
pub fn init_thumbnail_extractor(version: (u32, u32, u32, u32)) -> (r: String)
    ensures
        r@ == version_banner_chars(
            version.0 as nat,
            version.1 as nat,
            version.2 as nat,
            version.3 as nat,
        ),
{
    init_frame_extractor(version)
}

/// The plan for extracting a thumbnail of `input_path`: the decode
/// pipeline to launch, and the path the scaled image is written to.
pub fn extract_thumbnail(input_path: &str, output_path: &str) -> (r: (String, String))
    ensures
        r.0@ == thumbnail_pipeline_chars(input_path@),
        r.1@ == output_path@,
{
    let mut pipeline = String::from_str("filesrc location=");
    pipeline.append(input_path);
    pipeline.append(" ! decodebin ! videoconvert ! appsink name=sink");
    proof {
        assert(pipeline@ =~= thumbnail_pipeline_chars(input_path@));
    }
    (pipeline, String::from_str(output_path))
}

} // verus!
