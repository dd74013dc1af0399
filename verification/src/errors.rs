//! The stream pipeline's error taxonomy.
//!
//! A driver that decodes a video and feeds the engine reports its failures
//! with these values; each is a distinct unit type so callers can match on
//! the kind, with a message for display.
use vstd::prelude::*;
use vstd::string::StringExecFns;

verus! {

/// No video path was supplied before the stream pipeline was built.
#[derive(Debug, Clone, Copy, PartialEq, Eq, Structural)]
pub struct VideoPathNotSpecifiedError;

impl VideoPathNotSpecifiedError {
    /// A human-readable description of the error.
    pub fn message(&self) -> (r: String)
        ensures
            r@ == "Video Path not specified in the DiPs Properties"@,
    {
        String::from_str("Video Path not specified in the DiPs Properties")
    }
}

/// No frame callback was supplied before the stream pipeline was built.
#[derive(Debug, Clone, Copy, PartialEq, Eq, Structural)]
pub struct FrameCallbackNotSpecifiedError;

impl FrameCallbackNotSpecifiedError {
    /// A human-readable description of the error.
    pub fn message(&self) -> (r: String)
        ensures
            r@ == "Frame Callback not specified in the DiPs Properties"@,
    {
        String::from_str("Frame Callback not specified in the DiPs Properties")
    }
}

/// The source held no video stream.
#[derive(Debug, Clone, Copy, PartialEq, Eq, Structural)]
pub struct StreamNotFoundError;

impl StreamNotFoundError {
    /// A human-readable description of the error.
    pub fn message(&self) -> (r: String)
        ensures
            r@ == "Video Stream not found"@,
    {
        String::from_str("Video Stream not found")
    }
}

/// The stream pipeline itself failed while running.
#[derive(Debug, Clone, Copy, PartialEq, Eq, Structural)]
pub struct StreamPipelineError;

impl StreamPipelineError {
    /// A human-readable description of the error.
    pub fn message(&self) -> (r: String)
        ensures
            r@ == "Stream Pipeline error"@,
    {
        String::from_str("Stream Pipeline error")
    }
}

} // verus!
