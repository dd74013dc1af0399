use dips::errors::{
    FrameCallbackNotSpecifiedError, StreamNotFoundError, StreamPipelineError,
    VideoPathNotSpecifiedError,
};

#[test]
fn stream_error_messages() {
    assert_eq!(
        VideoPathNotSpecifiedError.message(),
        "Video Path not specified in the DiPs Properties"
    );
    assert_eq!(
        FrameCallbackNotSpecifiedError.message(),
        "Frame Callback not specified in the DiPs Properties"
    );
    assert_eq!(StreamNotFoundError.message(), "Video Stream not found");
    assert_eq!(StreamPipelineError.message(), "Stream Pipeline error");
}

#[test]
fn stream_errors_are_distinct_unit_values() {
    assert_eq!(VideoPathNotSpecifiedError, VideoPathNotSpecifiedError);
    assert_eq!(StreamNotFoundError, StreamNotFoundError);
}
