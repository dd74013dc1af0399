//! The engine facade: the temporal diffraction compute core as a
//! synchronous state machine.
//!
//! The engine owns everything about a frame's journey that is not the GPU
//! itself: the rolling history window, the circular write index, the two
//! stages' binding-set state machines, the baseline pixels, and the
//! repacking of row-padded readbacks. `send_frame` records an incoming
//! frame and decides the action a GPU driver must mirror — accumulate
//! during warm-up, run the one-shot baseline stage when the window first
//! fills, or dispatch the differential stage (optionally refreshing the
//! baseline on a snapshot request). The driver performs the action and
//! hands the row-padded readback bytes back through `complete_baseline`
//! and `complete_dispatch`.
use crate::bind_groups::{
    main_layouts_spec, pre_layouts_spec, MainComputeBindGroups, PreComputeBindGroups,
};
use crate::circular_index::{wrapped_index, UCircularIndex};
use crate::grid::{
    compute_work_group_count, padded_bytes_per_row, padded_bytes_per_row_spec,
    unpadded_bytes_per_row_spec, work_group_count_spec, WORK_GROUP_HEIGHT, WORK_GROUP_WIDTH,
};
use crate::properties::DiPsProperties;
use crate::readback::{unpad_rows, unpad_rows_spec};
use vstd::prelude::*;
use vstd::string::StringExecFns;

verus! {

/// Returned when a supplied frame's byte length does not match the
/// configured `width * height * 4`.
#[derive(Debug, Clone, Copy, PartialEq, Eq, Structural)]
pub struct DimensionMismatchError;

impl DimensionMismatchError {
    /// A human-readable description of the error.
    pub fn message(&self) -> (r: String)
        ensures
            r@ == "Frame size does not match the configured dimensions"@,
    {
        String::from_str("Frame size does not match the configured dimensions")
    }
}

/// Returned when a readback buffer's byte length does not match the
/// row-padded output layout.
#[derive(Debug, Clone, Copy, PartialEq, Eq, Structural)]
pub struct ReadbackSizeError;

impl ReadbackSizeError {
    /// A human-readable description of the error.
    pub fn message(&self) -> (r: String)
        ensures
            r@ == "Readback buffer size does not match the padded output layout"@,
    {
        String::from_str("Readback buffer size does not match the padded output layout")
    }
}

/// What the GPU driver must do for the frame just recorded.
#[derive(Debug, Clone, Copy, PartialEq, Eq, Structural)]
pub enum SendFrameAction {
    /// Warm-up: the window is not full yet; there is no output for this
    /// frame.
    WarmUp,
    /// The window just filled: run the baseline stage over the window,
    /// hand its readback to `complete_baseline`, then dispatch the
    /// differential stage.
    InitializeBaseline,
    /// Dispatch the differential stage; when `refresh_baseline` is set,
    /// rerun the baseline stage over the current window first.
    Dispatch { refresh_baseline: bool },
}

/// The tightly packed byte length of one frame.
pub open spec fn frame_len_spec(width: u32, height: u32) -> nat {
    (width * height * 4) as nat
}

/// The history window after recording one more frame: append it, dropping
/// the oldest frame once the window is full.
pub open spec fn next_history(h: Seq<Seq<u8>>, frame: Seq<u8>, window: nat) -> Seq<Seq<u8>> {
    if h.len() < window {
        h.push(frame)
    } else {
        h.skip(1).push(frame)
    }
}

/// The history length after recording one more frame.
pub open spec fn len_step(len: nat, window: nat) -> nat {
    if len < window {
        len + 1
    } else {
        window
    }
}

/// The action decided for a frame, given the history length after
/// recording it and whether the stages were already initialized.
pub open spec fn action_spec(
    len_after: nat,
    window: nat,
    initialized_before: bool,
    snapshot: bool,
) -> SendFrameAction {
    if len_after < window {
        SendFrameAction::WarmUp
    } else if !initialized_before {
        SendFrameAction::InitializeBaseline
    } else {
        SendFrameAction::Dispatch { refresh_baseline: snapshot }
    }
}

/// The history length after `k` frames have been sent to a fresh engine
/// with the given window.
pub open spec fn run_len(k: nat, window: nat) -> nat
    decreases k,
{
    if k == 0 {
        0
    } else {
        len_step(run_len((k - 1) as nat, window), window)
    }
}

/// Whether the stages are initialized after `k` frames have been sent to a
/// fresh engine: initialization happens on the frame that fills the window
/// and is never undone.
pub open spec fn run_initialized(k: nat, window: nat) -> bool
    decreases k,
{
    if k == 0 {
        false
    } else {
        run_initialized((k - 1) as nat, window) || len_step(
            run_len((k - 1) as nat, window),
            window,
        ) == window
    }
}

/// The action `send_frame` returns for the `k`-th (1-based) well-sized
/// frame sent to a fresh engine.
pub open spec fn fresh_run_action(k: nat, window: nat, snapshot: bool) -> SendFrameAction
    recommends
        k >= 1,
{
    action_spec(
        run_len(k, window),
        window,
        run_initialized((k - 1) as nat, window),
        snapshot,
    )
}

/// Closed form of the history length: `min(k, window)`.
pub proof fn lemma_run_len(k: nat, window: nat)
    requires
        window >= 1,
    ensures
        run_len(k, window) == if k <= window {
            k
        } else {
            window
        },
    decreases k,
{
    if k > 0 {
        lemma_run_len((k - 1) as nat, window);
    }
}

/// Closed form of the initialization flag: the stages are initialized
/// exactly from the window-filling frame on.
pub proof fn lemma_run_initialized(k: nat, window: nat)
    requires
        window >= 1,
    ensures
        run_initialized(k, window) <==> k >= window,
    decreases k,
{
    if k > 0 {
        lemma_run_len((k - 1) as nat, window);
        lemma_run_initialized((k - 1) as nat, window);
    }
}

/// Warm-up: for any window size, each of the first `window - 1` frames
/// sent to a fresh engine is answered with no output, whatever the
/// snapshot flag says.
pub proof fn lemma_warm_up_phase(window: nat, k: nat, snapshot: bool)
    requires
        window >= 1,
        1 <= k < window,
    ensures
        fresh_run_action(k, window, snapshot) == SendFrameAction::WarmUp,
{
    lemma_run_len(k, window);
    lemma_run_initialized((k - 1) as nat, window);
}

/// The frame that fills the window triggers the baseline initialization,
/// exactly once: no earlier and no later frame does, and every later frame
/// dispatches.
pub proof fn lemma_window_fill_initializes(window: nat, k: nat, snapshot: bool)
    requires
        window >= 1,
        k >= 1,
    ensures
        k == window ==> fresh_run_action(k, window, snapshot)
            == SendFrameAction::InitializeBaseline,
        k != window ==> fresh_run_action(k, window, snapshot)
            != SendFrameAction::InitializeBaseline,
        k > window ==> fresh_run_action(k, window, snapshot) == (SendFrameAction::Dispatch {
            refresh_baseline: snapshot,
        }),
{
    lemma_run_len(k, window);
    lemma_run_initialized((k - 1) as nat, window);
}

/// The temporal diffraction compute engine.
pub struct ComputeState {
    /// Configured frame width in pixels; fixed for the engine's lifetime.
    pub width: u32,
    /// Configured frame height in pixels; fixed for the engine's lifetime.
    pub height: u32,
    /// The temporal window size: how many history frames are kept.
    pub window_size: usize,
    /// The filter configuration baked into the pipelines.
    pub properties: DiPsProperties,
    /// The rolling history window, oldest frame first.
    pub textures: Vec<Vec<u8>>,
    /// The circular index of the GPU history slot the next frame
    /// overwrites.
    pub texture_index: UCircularIndex,
    /// The one-shot baseline stage.
    pub pre_compute_bind_groups: PreComputeBindGroups,
    /// The per-frame differential stage.
    pub main_compute_bind_groups: MainComputeBindGroups,
    /// The baseline pixels; empty until the baseline stage's readback
    /// arrives.
    pub starting_texture: Vec<u8>,
    /// The most recent filtered output.
    pub pixels: Vec<u8>,
}

impl ComputeState {
    /// The tightly packed byte length of one frame for this engine.
    pub open spec fn frame_len(self) -> nat {
        frame_len_spec(self.width, self.height)
    }

    /// Machine-size bounds on the configured dimensions, so that buffer
    /// lengths and dispatch grids can be computed without overflow.
    pub open spec fn dims_in_bounds(self) -> bool {
        &&& self.width >= 1
        &&& self.height >= 1
        &&& self.width + WORK_GROUP_WIDTH <= u32::MAX
        &&& self.height + WORK_GROUP_HEIGHT <= u32::MAX
        &&& self.frame_len() <= usize::MAX
        &&& unpadded_bytes_per_row_spec(self.width as nat) + 256 <= usize::MAX
        &&& padded_bytes_per_row_spec(self.width as nat) * self.height <= usize::MAX
    }

    /// The engine's structural invariant: the index ranges over the
    /// window, the history never exceeds the window, every recorded frame
    /// has the configured size, and each stage's resources are consistent
    /// with the configuration.
    pub open spec fn wf(self) -> bool {
        &&& self.dims_in_bounds()
        &&& 1 <= self.window_size <= u32::MAX
        &&& self.texture_index.wf()
        &&& self.texture_index.max == self.window_size
        &&& self.textures@.len() <= self.window_size
        &&& forall|i: int|
            0 <= i < self.textures@.len() ==> (#[trigger] self.textures@[i])@.len()
                == self.frame_len()
        &&& self.starting_texture@.len() == 0 || self.starting_texture@.len() == self.frame_len()
        &&& (self.main_compute_bind_groups is Initialized <==> self.textures@.len()
            == self.window_size)
        &&& (self.main_compute_bind_groups matches MainComputeBindGroups::Initialized(c) ==> {
            &&& c.width == self.width
            &&& c.height == self.height
            &&& c.temporal_textures@.len() == self.window_size
            &&& forall|i: int|
                0 <= i < c.temporal_textures@.len() ==> (#[trigger] c.temporal_textures@[i])@.len()
                    == self.frame_len()
            &&& c.start_texture@.len() == 0 || c.start_texture@.len() == self.frame_len()
        })
        &&& (self.pre_compute_bind_groups is Initialized ==> self.textures@.len()
            == self.window_size)
        &&& (self.pre_compute_bind_groups matches PreComputeBindGroups::Initialized(c) ==> {
            &&& c.width == self.width
            &&& c.height == self.height
        })
        &&& self.pixels@.len() == 0 || self.pixels@.len() == self.frame_len()
    }

    /// Whether a fresh engine was just configured with these parameters:
    /// empty history, index at zero, both stages uninitialized, no
    /// baseline and no output.
    pub open spec fn is_fresh(
        self,
        window_size: usize,
        width: u32,
        height: u32,
        properties: DiPsProperties,
    ) -> bool {
        &&& self.width == width
        &&& self.height == height
        &&& self.window_size == window_size
        &&& self.properties == properties
        &&& self.textures@.len() == 0
        &&& self.texture_index == (UCircularIndex { current: 0, max: window_size })
        &&& self.pre_compute_bind_groups == PreComputeBindGroups::Uninitialized(
            pre_layouts_spec(window_size as u32),
        )
        &&& self.main_compute_bind_groups == MainComputeBindGroups::Uninitialized(
            main_layouts_spec(window_size as u32),
        )
        &&& self.starting_texture@.len() == 0
        &&& self.pixels@.len() == 0
    }

    /// Build a fresh engine. Changing any filter property afterwards
    /// requires constructing a new engine: the properties are baked into
    /// the pipelines.
    pub fn new(window_size: usize, width: u32, height: u32, properties: DiPsProperties) -> (r:
        Self)
        requires
            1 <= window_size <= u32::MAX,
            width >= 1,
            height >= 1,
            width + WORK_GROUP_WIDTH <= u32::MAX,
            height + WORK_GROUP_HEIGHT <= u32::MAX,
            frame_len_spec(width, height) <= usize::MAX,
            unpadded_bytes_per_row_spec(width as nat) + 256 <= usize::MAX,
            padded_bytes_per_row_spec(width as nat) * height <= usize::MAX,
        ensures
            r.is_fresh(window_size, width, height, properties),
            r.wf(),
    {
        Self {
            width,
            height,
            window_size,
            properties,
            textures: Vec::new(),
            texture_index: UCircularIndex::new(0, window_size),
            pre_compute_bind_groups: PreComputeBindGroups::new(window_size as u32),
            main_compute_bind_groups: MainComputeBindGroups::new(window_size as u32),
            starting_texture: Vec::new(),
            pixels: Vec::new(),
        }
    }

    /// Record one incoming frame and decide the driver's action.
    ///
    /// A frame whose length does not match the configured dimensions is
    /// rejected before any state changes. Otherwise the frame enters the
    /// history window (dropping the oldest frame once the window is full),
    /// the write index advances by one, and the action is: warm-up while
    /// the window is short of full; initialize-baseline on the exact frame
    /// that fills it (both stages are initialized then, exactly once); and
    /// dispatch afterwards, with a baseline refresh exactly when
    /// `snapshot` is set (the baseline stage is then explicitly reset and
    /// re-initialized over the current window).
    pub fn send_frame(&mut self, frame: &Vec<u8>, snapshot: bool) -> (r: Result<
        SendFrameAction,
        DimensionMismatchError,
    >)
        requires
            old(self).wf(),
        ensures
            final(self).wf(),
            frame@.len() != old(self).frame_len() ==> {
                &&& r matches Err(DimensionMismatchError)
                &&& *final(self) == *old(self)
            },
            frame@.len() == old(self).frame_len() ==> {
                let len_after = len_step(old(self).textures@.len() as nat, old(self).window_size as nat);
                let was_initialized = old(self).main_compute_bind_groups is Initialized;
                &&& r matches Ok(action) && action == action_spec(
                    len_after,
                    old(self).window_size as nat,
                    was_initialized,
                    snapshot,
                )
                &&& final(self).textures.deep_view() == next_history(
                    old(self).textures.deep_view(),
                    frame@,
                    old(self).window_size as nat,
                )
                &&& final(self).textures@.len() == len_after
                &&& final(self).texture_index.current == wrapped_index(
                    old(self).texture_index.current as int,
                    1,
                    old(self).window_size as int,
                )
                &&& final(self).width == old(self).width
                &&& final(self).height == old(self).height
                &&& final(self).window_size == old(self).window_size
                &&& final(self).properties == old(self).properties
                &&& final(self).starting_texture == old(self).starting_texture
                &&& final(self).pixels == old(self).pixels
                // Warm-up: nothing else changes.
                &&& len_after < old(self).window_size ==> {
                    &&& final(self).pre_compute_bind_groups == old(self).pre_compute_bind_groups
                    &&& final(self).main_compute_bind_groups == old(
                        self,
                    ).main_compute_bind_groups
                }
                // The window just filled: both stages initialize, exactly once.
                &&& (len_after == old(self).window_size && !was_initialized) ==> {
                    &&& final(self).pre_compute_bind_groups matches PreComputeBindGroups::Initialized(c)
                        && c.start_textures.deep_view() == final(self).textures.deep_view()
                    &&& final(self).main_compute_bind_groups matches MainComputeBindGroups::Initialized(m)
                        && m.temporal_textures.deep_view() == final(self).textures.deep_view()
                        && m.start_texture@ == old(self).starting_texture@
                }
                // Steady state: the overwritten slot's binding is updated.
                &&& was_initialized ==> {
                    &&& old(self).main_compute_bind_groups matches MainComputeBindGroups::Initialized(m0)
                        && final(self).main_compute_bind_groups matches MainComputeBindGroups::Initialized(m1)
                        && m1.temporal_textures.deep_view() == m0.temporal_textures.deep_view()
                        .update(old(self).texture_index.current as int, frame@)
                        && m1.start_texture == m0.start_texture
                    &&& !snapshot ==> final(self).pre_compute_bind_groups == old(
                        self,
                    ).pre_compute_bind_groups
                    &&& snapshot ==> (final(self).pre_compute_bind_groups matches PreComputeBindGroups::Initialized(c)
                        && c.start_textures.deep_view() == final(self).textures.deep_view())
                }
            },
    {
        let expected = (self.width as usize) * (self.height as usize) * 4;
        if frame.len() != expected {
            return Err(DimensionMismatchError);
        }
        // Record the frame: append, dropping the oldest once full.
        let owned = frame.clone();
        proof {
            assert(owned@ =~= frame@);
            assert(owned.deep_view() =~= frame@);
        }
        let slot = self.texture_index.value();
        if self.textures.len() < self.window_size {
            self.textures.push(owned);
            proof {
                assert(self.textures.deep_view() =~= old(self).textures.deep_view().push(frame@));
            }
        } else {
            self.textures.remove(0);
            self.textures.push(owned);
            proof {
                assert(self.textures.deep_view() =~= old(self).textures.deep_view().skip(1).push(
                    frame@,
                ));
            }
        }
        self.texture_index.add_assign(1);
        if self.textures.len() == self.window_size {
            match &self.main_compute_bind_groups {
                MainComputeBindGroups::Uninitialized(_) => {
                    // The window just filled: one-shot initialization of
                    // both stages.
                    let res_pre = PreComputeBindGroups::initialize(
                        &mut self.pre_compute_bind_groups,
                        (self.width, self.height),
                        &self.textures,
                    );
                    let res_main = MainComputeBindGroups::initialize(
                        &mut self.main_compute_bind_groups,
                        (self.width, self.height),
                        (&self.starting_texture, &self.textures),
                    );
                    proof {
                        // Both one-shot initializations succeed: neither
                        // stage was initialized before the window filled.
                        assert(res_pre is Ok);
                        assert(res_main is Ok);
                        let m = self.main_compute_bind_groups->Initialized_0;
                        assert forall|i: int|
                            0 <= i < m.temporal_textures@.len() implies (
                        #[trigger] m.temporal_textures@[i])@.len() == old(self).frame_len() by {
                            assert(m.temporal_textures.deep_view()[i]
                                == m.temporal_textures@[i].deep_view());
                            assert(m.temporal_textures.deep_view()[i]
                                == self.textures.deep_view()[i]);
                            assert(self.textures.deep_view()[i] == self.textures@[i].deep_view());
                        }
                    }
                    Ok(SendFrameAction::InitializeBaseline)
                },
                MainComputeBindGroups::Initialized(_) => {
                    match &mut self.main_compute_bind_groups {
                        MainComputeBindGroups::Initialized(container) => {
                            container.update_temporal_texture(frame, slot);
                            proof {
                                assert(container.temporal_textures.deep_view() =~= old(
                                    self,
                                ).main_compute_bind_groups->Initialized_0.temporal_textures.deep_view().update(
                                    slot as int,
                                    frame@,
                                ));
                            }
                        },
                        MainComputeBindGroups::Uninitialized(_) => {},
                    }
                    proof {
                        let m0 = old(self).main_compute_bind_groups->Initialized_0;
                        let m1 = self.main_compute_bind_groups->Initialized_0;
                        assert forall|i: int|
                            0 <= i < m1.temporal_textures@.len() implies (
                        #[trigger] m1.temporal_textures@[i])@.len() == old(self).frame_len() by {
                            assert(m1.temporal_textures.deep_view()[i]
                                == m1.temporal_textures@[i].deep_view());
                            if i == slot as int {
                                assert(m1.temporal_textures.deep_view()[i] == frame@);
                            } else {
                                assert(m1.temporal_textures.deep_view()[i]
                                    == m0.temporal_textures.deep_view()[i]);
                                assert(m0.temporal_textures.deep_view()[i]
                                    == m0.temporal_textures@[i].deep_view());
                            }
                        }
                    }
                    if snapshot {
                        // A snapshot is the explicit reset: the baseline
                        // stage re-initializes over the current window.
                        PreComputeBindGroups::reset(
                            &mut self.pre_compute_bind_groups,
                            self.window_size as u32,
                        );
                        let res_pre = PreComputeBindGroups::initialize(
                            &mut self.pre_compute_bind_groups,
                            (self.width, self.height),
                            &self.textures,
                        );
                        proof {
                            // The re-initialization follows the explicit
                            // reset, so it succeeds.
                            assert(res_pre is Ok);
                        }
                    }
                    Ok(SendFrameAction::Dispatch { refresh_baseline: snapshot })
                },
            }
        } else {
            Ok(SendFrameAction::WarmUp)
        }
    }

    /// Record one incoming frame without a snapshot request.
    pub fn add_texture(&mut self, frame: &Vec<u8>) -> (r: Result<
        SendFrameAction,
        DimensionMismatchError,
    >)
        requires
            old(self).wf(),
        ensures
            final(self).wf(),
            frame@.len() != old(self).frame_len() ==> {
                &&& r matches Err(DimensionMismatchError)
                &&& *final(self) == *old(self)
            },
            frame@.len() == old(self).frame_len() ==> {
                &&& r matches Ok(action) && action == action_spec(
                    len_step(old(self).textures@.len() as nat, old(self).window_size as nat),
                    old(self).window_size as nat,
                    old(self).main_compute_bind_groups is Initialized,
                    false,
                )
                &&& final(self).textures.deep_view() == next_history(
                    old(self).textures.deep_view(),
                    frame@,
                    old(self).window_size as nat,
                )
            },
    {
        self.send_frame(frame, false)
    }

    /// Accept the baseline stage's row-padded readback: repack it into the
    /// baseline pixels and bind it to the differential stage.
    pub fn complete_baseline(&mut self, padded: &Vec<u8>) -> (r: Result<(), ReadbackSizeError>)
        requires
            old(self).wf(),
            old(self).main_compute_bind_groups is Initialized,
        ensures
            final(self).wf(),
            padded@.len() != padded_bytes_per_row_spec(old(self).width as nat) * old(
                self,
            ).height ==> {
                &&& r matches Err(ReadbackSizeError)
                &&& *final(self) == *old(self)
            },
            padded@.len() == padded_bytes_per_row_spec(old(self).width as nat) * old(
                self,
            ).height ==> {
                &&& r matches Ok(())
                &&& final(self).starting_texture@ == unpad_rows_spec(
                    padded@,
                    old(self).width as nat,
                    old(self).height as nat,
                )
                &&& (old(self).main_compute_bind_groups matches MainComputeBindGroups::Initialized(m0)
                    && final(self).main_compute_bind_groups matches MainComputeBindGroups::Initialized(m1)
                    && m1.start_texture@ == unpad_rows_spec(
                    padded@,
                    old(self).width as nat,
                    old(self).height as nat,
                ) && m1.temporal_textures == m0.temporal_textures)
                &&& final(self).textures == old(self).textures
                &&& final(self).texture_index == old(self).texture_index
                &&& final(self).pre_compute_bind_groups == old(self).pre_compute_bind_groups
                &&& final(self).pixels == old(self).pixels
                &&& final(self).width == old(self).width
                &&& final(self).height == old(self).height
                &&& final(self).window_size == old(self).window_size
                &&& final(self).properties == old(self).properties
            },
    {
        let stride = padded_bytes_per_row(self.width);
        let expected = stride * (self.height as usize);
        if padded.len() != expected {
            return Err(ReadbackSizeError);
        }
        let tight = unpad_rows(padded, self.width, self.height);
        proof {
            assert(tight@.len() == self.frame_len()) by {
                vstd::arithmetic::mul::lemma_mul_is_commutative(
                    self.height as int,
                    self.width as int * 4,
                );
                vstd::arithmetic::mul::lemma_mul_is_associative(
                    self.width as int,
                    4,
                    self.height as int,
                );
                vstd::arithmetic::mul::lemma_mul_is_commutative(4, self.height as int);
                vstd::arithmetic::mul::lemma_mul_is_associative(
                    self.width as int,
                    self.height as int,
                    4,
                );
            }
        }
        match &mut self.main_compute_bind_groups {
            MainComputeBindGroups::Initialized(container) => {
                container.set_start_texture(&tight);
            },
            MainComputeBindGroups::Uninitialized(_) => {},
        }
        self.starting_texture = tight;
        Ok(())
    }

    /// Accept the differential stage's row-padded readback: repack it into
    /// the tightly packed output frame, keep it, and return it.
    pub fn complete_dispatch(&mut self, padded: &Vec<u8>) -> (r: Result<Vec<u8>, ReadbackSizeError>)
        requires
            old(self).wf(),
        ensures
            final(self).wf(),
            padded@.len() != padded_bytes_per_row_spec(old(self).width as nat) * old(
                self,
            ).height ==> {
                &&& r matches Err(ReadbackSizeError)
                &&& *final(self) == *old(self)
            },
            padded@.len() == padded_bytes_per_row_spec(old(self).width as nat) * old(
                self,
            ).height ==> {
                &&& r matches Ok(pixels) && pixels@ == unpad_rows_spec(
                    padded@,
                    old(self).width as nat,
                    old(self).height as nat,
                )
                &&& final(self).pixels@ == unpad_rows_spec(
                    padded@,
                    old(self).width as nat,
                    old(self).height as nat,
                )
                &&& final(self).textures == old(self).textures
                &&& final(self).texture_index == old(self).texture_index
                &&& final(self).pre_compute_bind_groups == old(self).pre_compute_bind_groups
                &&& final(self).main_compute_bind_groups == old(self).main_compute_bind_groups
                &&& final(self).starting_texture == old(self).starting_texture
                &&& final(self).width == old(self).width
                &&& final(self).height == old(self).height
                &&& final(self).window_size == old(self).window_size
                &&& final(self).properties == old(self).properties
            },
    {
        let stride = padded_bytes_per_row(self.width);
        let expected = stride * (self.height as usize);
        if padded.len() != expected {
            return Err(ReadbackSizeError);
        }
        let tight = unpad_rows(padded, self.width, self.height);
        proof {
            assert(tight@.len() == self.frame_len()) by {
                vstd::arithmetic::mul::lemma_mul_is_commutative(
                    self.height as int,
                    self.width as int * 4,
                );
                vstd::arithmetic::mul::lemma_mul_is_associative(
                    self.width as int,
                    4,
                    self.height as int,
                );
                vstd::arithmetic::mul::lemma_mul_is_commutative(4, self.height as int);
                vstd::arithmetic::mul::lemma_mul_is_associative(
                    self.width as int,
                    self.height as int,
                    4,
                );
            }
        }
        let out = tight.clone();
        proof {
            assert(out@ =~= tight@);
        }
        self.pixels = tight;
        Ok(out)
    }

    /// The most recent filtered output.
    pub fn get_pixels(&self) -> (r: Vec<u8>)
        ensures
            r@ == self.pixels@,
    {
        let out = self.pixels.clone();
        proof {
            assert(out@ =~= self.pixels@);
        }
        out
    }

    /// Whether the differential stage can be dispatched: its binding sets
    /// exist once the window has filled.
    pub fn can_dispatch(&self) -> (r: bool)
        ensures
            r == self.main_compute_bind_groups is Initialized,
    {
        match &self.main_compute_bind_groups {
            MainComputeBindGroups::Initialized(_) => true,
            MainComputeBindGroups::Uninitialized(_) => false,
        }
    }

    /// Explicitly reset the baseline stage so it can be initialized again:
    /// the only path back after its one-shot initialization.
    pub fn reset_baseline(&mut self)
        requires
            old(self).wf(),
        ensures
            final(self).wf(),
            final(self).pre_compute_bind_groups == PreComputeBindGroups::Uninitialized(
                pre_layouts_spec(old(self).window_size as u32),
            ),
            final(self).textures == old(self).textures,
            final(self).texture_index == old(self).texture_index,
            final(self).main_compute_bind_groups == old(self).main_compute_bind_groups,
            final(self).starting_texture == old(self).starting_texture,
            final(self).pixels == old(self).pixels,
            final(self).width == old(self).width,
            final(self).height == old(self).height,
            final(self).window_size == old(self).window_size,
            final(self).properties == old(self).properties,
    {
        PreComputeBindGroups::reset(&mut self.pre_compute_bind_groups, self.window_size as u32);
    }

    /// The dispatch grid covering the configured frame with 16 by 16 work
    /// groups.
    pub fn dispatch_work_groups(&self) -> (r: (u32, u32))
        requires
            self.wf(),
        ensures
            r.0 == work_group_count_spec(self.width as nat, WORK_GROUP_WIDTH as nat),
            r.1 == work_group_count_spec(self.height as nat, WORK_GROUP_HEIGHT as nat),
    {
        compute_work_group_count(
            (self.width, self.height),
            (WORK_GROUP_WIDTH, WORK_GROUP_HEIGHT),
        )
    }

    /// The byte length of the row-padded staging buffer the output is read
    /// back through.
    pub fn padded_output_len(&self) -> (r: usize)
        requires
            self.wf(),
        ensures
            r == padded_bytes_per_row_spec(self.width as nat) * self.height,
    {
        padded_bytes_per_row(self.width) * (self.height as usize)
    }
}

/// No state leaks across engine instances: two fresh engines configured
/// over the same geometry hold identical state apart from their filter
/// properties — in particular, neither retains any baseline — so
/// resubmitting a frame sequence to a fresh engine with changed properties
/// starts from the very same blank state.
pub proof fn lemma_fresh_engines_share_no_state(
    e1: ComputeState,
    e2: ComputeState,
    window_size: usize,
    width: u32,
    height: u32,
    p1: DiPsProperties,
    p2: DiPsProperties,
)
    requires
        e1.is_fresh(window_size, width, height, p1),
        e2.is_fresh(window_size, width, height, p2),
    ensures
        e1.starting_texture@.len() == 0,
        e2.starting_texture@.len() == 0,
        e1.textures.deep_view() == e2.textures.deep_view(),
        e1.pre_compute_bind_groups == e2.pre_compute_bind_groups,
        e1.main_compute_bind_groups == e2.main_compute_bind_groups,
        e1.texture_index == e2.texture_index,
        e1.pixels@.len() == 0,
        e2.pixels@.len() == 0,
{
    assert(e1.textures.deep_view() =~= e2.textures.deep_view());
}

} // verus!
