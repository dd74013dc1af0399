use dips::frame_extractor::{init_frame_extractor, nano_suffix};
use dips::thumbnail_extractor::{extract_thumbnail, init_thumbnail_extractor};

#[test]
fn version_banner_release() {
    let banner = init_frame_extractor((1, 22, 5, 0));
    assert_eq!(banner, "This program is linked against GStreamer 1.22.5 ");
}

#[test]
fn version_banner_development() {
    let banner = init_frame_extractor((1, 24, 0, 1));
    assert_eq!(banner, "This program is linked against GStreamer 1.24.0 (CVS)");
}

#[test]
fn version_banner_prerelease() {
    let banner = init_thumbnail_extractor((1, 23, 90, 2));
    assert_eq!(banner, "This program is linked against GStreamer 1.23.90 (Prelease)");
}

#[test]
fn nano_suffixes() {
    assert_eq!(nano_suffix(0), "");
    assert_eq!(nano_suffix(1), "(CVS)");
    assert_eq!(nano_suffix(2), "(Prelease)");
    assert_eq!(nano_suffix(3), "");
}

#[test]
fn thumbnail_pipeline_description() {
    let (pipeline, output) = extract_thumbnail("clips/input.mp4", "cache/thumbnail.jpeg");
    assert_eq!(
        pipeline,
        "filesrc location=clips/input.mp4 ! decodebin ! videoconvert ! appsink name=sink"
    );
    assert_eq!(output, "cache/thumbnail.jpeg");
}
