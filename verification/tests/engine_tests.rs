use dips::bind_groups::{
    BindGroupsAlreadyInitializedError, MainComputeBindGroups, PreComputeBindGroups,
};
use dips::engine::{ComputeState, DimensionMismatchError, ReadbackSizeError, SendFrameAction};
use dips::properties::{ChromaFilter, DiPsProperties, Filter};
use dips::readback::pad_rows;

const WIDTH: u32 = 4;
const HEIGHT: u32 = 2;
const WINDOW: usize = 4;
const FRAME_LEN: usize = (WIDTH * HEIGHT * 4) as usize;

fn frame(seed: u8) -> Vec<u8> {
    (0..FRAME_LEN).map(|i| seed.wrapping_add(i as u8)).collect()
}

fn engine() -> ComputeState {
    ComputeState::new(WINDOW, WIDTH, HEIGHT, DiPsProperties::default())
}

#[test]
fn warm_up_then_initialize_then_dispatch() {
    let mut e = engine();
    // Frames 1 .. N-1: warm-up, no output.
    for k in 0..WINDOW - 1 {
        let action = e.send_frame(&frame(k as u8), false).unwrap();
        assert_eq!(action, SendFrameAction::WarmUp);
        assert!(!e.can_dispatch());
    }
    // Frame N triggers exactly one baseline initialization.
    let action = e.send_frame(&frame(9), false).unwrap();
    assert_eq!(action, SendFrameAction::InitializeBaseline);
    assert!(e.can_dispatch());
    // Every later frame dispatches.
    let action = e.send_frame(&frame(10), false).unwrap();
    assert_eq!(action, SendFrameAction::Dispatch { refresh_baseline: false });
}

#[test]
fn snapshot_requests_baseline_refresh() {
    let mut e = engine();
    for k in 0..WINDOW {
        e.send_frame(&frame(k as u8), false).unwrap();
    }
    let action = e.send_frame(&frame(20), true).unwrap();
    assert_eq!(action, SendFrameAction::Dispatch { refresh_baseline: true });
    let action = e.send_frame(&frame(21), false).unwrap();
    assert_eq!(action, SendFrameAction::Dispatch { refresh_baseline: false });
}

#[test]
fn snapshot_during_warm_up_stays_warm_up() {
    let mut e = engine();
    let action = e.send_frame(&frame(0), true).unwrap();
    assert_eq!(action, SendFrameAction::WarmUp);
}

#[test]
fn wrong_frame_size_is_rejected() {
    let mut e = engine();
    let bad = vec![0u8; FRAME_LEN - 1];
    assert_eq!(e.send_frame(&bad, false), Err(DimensionMismatchError));
    // The rejection left the engine untouched: a full window still takes
    // WINDOW well-sized frames.
    for k in 0..WINDOW - 1 {
        assert_eq!(e.send_frame(&frame(k as u8), false).unwrap(), SendFrameAction::WarmUp);
    }
    assert_eq!(
        e.send_frame(&frame(3), false).unwrap(),
        SendFrameAction::InitializeBaseline
    );
}

#[test]
fn baseline_readback_round_trip() {
    let mut e = engine();
    for k in 0..WINDOW {
        e.send_frame(&frame(k as u8), false).unwrap();
    }
    assert!(e.starting_texture.is_empty());
    let baseline = frame(77);
    let padded = pad_rows(&baseline, WIDTH, HEIGHT);
    e.complete_baseline(&padded).unwrap();
    assert_eq!(e.starting_texture, baseline);
}

#[test]
fn dispatch_readback_round_trip() {
    // Writing a frame and reading it straight back through the padding and
    // unpadding logic reproduces the original bytes exactly.
    let mut e = engine();
    for k in 0..WINDOW {
        e.send_frame(&frame(k as u8), false).unwrap();
    }
    let output = frame(42);
    let padded = pad_rows(&output, WIDTH, HEIGHT);
    assert_eq!(padded.len(), e.padded_output_len());
    let pixels = e.complete_dispatch(&padded).unwrap();
    assert_eq!(pixels, output);
    assert_eq!(e.get_pixels(), output);
}

#[test]
fn wrong_readback_size_is_rejected() {
    let mut e = engine();
    for k in 0..WINDOW {
        e.send_frame(&frame(k as u8), false).unwrap();
    }
    let short = vec![0u8; e.padded_output_len() - 1];
    assert_eq!(e.complete_dispatch(&short), Err(ReadbackSizeError));
    assert_eq!(e.complete_baseline(&short), Err(ReadbackSizeError));
}

#[test]
fn dispatch_grid_matches_dimensions() {
    let e = ComputeState::new(2, 1920, 1080, DiPsProperties::default());
    assert_eq!(e.dispatch_work_groups(), (120, 68));
}

#[test]
fn history_is_a_rolling_window() {
    let mut e = engine();
    for k in 0..WINDOW + 2 {
        e.send_frame(&frame(k as u8), false).unwrap();
    }
    // The oldest two frames fell out: the window holds frames 2..=5.
    assert_eq!(e.textures.len(), WINDOW);
    for (i, kept) in e.textures.iter().enumerate() {
        assert_eq!(*kept, frame((i + 2) as u8));
    }
}

#[test]
fn re_initializing_a_stage_fails_and_preserves_it() {
    // Re-triggering the one-shot initialization without an explicit reset
    // is an error, and the existing bindings stay untouched.
    let frames = vec![frame(1), frame(2)];
    let mut pre = PreComputeBindGroups::new(2);
    assert!(pre.pipeline_layout().is_some());
    PreComputeBindGroups::initialize(&mut pre, (WIDTH, HEIGHT), &frames).unwrap();
    assert!(pre.pipeline_layout().is_none());
    let err = PreComputeBindGroups::initialize(&mut pre, (9, 9), &vec![frame(9)]);
    assert_eq!(err, Err(BindGroupsAlreadyInitializedError));
    match &pre {
        PreComputeBindGroups::Initialized(c) => {
            assert_eq!(c.width, WIDTH);
            assert_eq!(c.height, HEIGHT);
            assert_eq!(c.start_textures, frames);
        }
        PreComputeBindGroups::Uninitialized(_) => panic!("stage lost its bindings"),
    }

    let mut main = MainComputeBindGroups::new(2);
    let baseline = frame(7);
    MainComputeBindGroups::initialize(&mut main, (WIDTH, HEIGHT), (&baseline, &frames)).unwrap();
    let err = MainComputeBindGroups::initialize(&mut main, (9, 9), (&frame(8), &frames));
    assert_eq!(err, Err(BindGroupsAlreadyInitializedError));
    match &main {
        MainComputeBindGroups::Initialized(c) => {
            assert_eq!(c.start_texture, baseline);
            assert_eq!(c.temporal_textures, frames);
        }
        MainComputeBindGroups::Uninitialized(_) => panic!("stage lost its bindings"),
    }
}

#[test]
fn engine_rejects_double_initialization_but_reset_allows_it() {
    let mut e = engine();
    for k in 0..WINDOW {
        e.send_frame(&frame(k as u8), false).unwrap();
    }
    // The baseline stage is initialized; a second trigger fails.
    let again =
        PreComputeBindGroups::initialize(&mut e.pre_compute_bind_groups, (WIDTH, HEIGHT), &e.textures.clone());
    assert_eq!(again, Err(BindGroupsAlreadyInitializedError));
    // After the explicit reset it may initialize once more.
    e.reset_baseline();
    let again =
        PreComputeBindGroups::initialize(&mut e.pre_compute_bind_groups, (WIDTH, HEIGHT), &e.textures.clone());
    assert_eq!(again, Ok(()));
}

#[test]
fn changed_properties_start_from_a_blank_engine() {
    // Run a full sequence through one engine, including a baseline.
    let mut first = engine();
    for k in 0..WINDOW + 1 {
        first.send_frame(&frame(k as u8), false).unwrap();
    }
    let baseline = frame(50);
    first.complete_baseline(&pad_rows(&baseline, WIDTH, HEIGHT)).unwrap();
    assert_eq!(first.starting_texture, baseline);

    // A fresh engine with a changed configuration retains nothing.
    let mut changed = DiPsProperties::default();
    changed.set_filter(Filter::InverseSigmoid);
    changed.set_chroma_filter(ChromaFilter::Red);
    changed.set_colorize(false);
    let mut second = ComputeState::new(WINDOW, WIDTH, HEIGHT, changed);
    assert!(second.starting_texture.is_empty());
    assert!(second.textures.is_empty());
    assert!(!second.can_dispatch());

    // Resubmitting the same frames walks the same warm-up from scratch.
    for k in 0..WINDOW - 1 {
        assert_eq!(
            second.send_frame(&frame(k as u8), false).unwrap(),
            SendFrameAction::WarmUp
        );
        assert!(second.starting_texture.is_empty());
    }
    assert_eq!(
        second.send_frame(&frame(3), false).unwrap(),
        SendFrameAction::InitializeBaseline
    );
    assert!(second.starting_texture.is_empty());
}

#[test]
fn error_messages() {
    assert_eq!(
        DimensionMismatchError.message(),
        "Frame size does not match the configured dimensions"
    );
    assert_eq!(
        ReadbackSizeError.message(),
        "Readback buffer size does not match the padded output layout"
    );
    assert_eq!(
        BindGroupsAlreadyInitializedError.message(),
        "Bind Groups have already been initialized"
    );
}
