//! The two compute stages' binding-set state machines.
//!
//! Each stage starts `Uninitialized`, holding only its binding-set layouts;
//! when the temporal window first fills it is initialized exactly once with
//! the concrete resources. Initializing an already-initialized stage is an
//! error, not a silent no-op, and leaves the stage untouched.
use vstd::prelude::*;
use vstd::string::StringExecFns;

verus! {

/// The default temporal window: how many history frames the engine keeps.
pub const TEMPORAL_BUFFER_SIZE: usize = 4;

/// Returned when a stage's binding sets are asked to initialize a second
/// time without an explicit reset.
#[derive(Debug, Clone, Copy, PartialEq, Eq, Structural)]
pub struct BindGroupsAlreadyInitializedError;

impl BindGroupsAlreadyInitializedError {
    /// A human-readable description of the error.
    pub fn message(&self) -> (r: String)
        ensures
            r@ == "Bind Groups have already been initialized"@,
    {
        String::from_str("Bind Groups have already been initialized")
    }
}

/// Clone a list of frames, element by element; the contract speaks of the
/// frames' bytes.
pub fn clone_frames(frames: &Vec<Vec<u8>>) -> (r: Vec<Vec<u8>>)
    ensures
        r.deep_view() == frames.deep_view(),
{
    let mut out: Vec<Vec<u8>> = Vec::new();
    let mut i: usize = 0;
    while i < frames.len()
        invariant
            i <= frames@.len(),
            out@.len() == i,
            forall|k: int| 0 <= k < i ==> out.deep_view()[k] == frames.deep_view()[k],
        decreases frames@.len() - i,
    {
        let frame = frames[i].clone();
        proof {
            assert(frame@ =~= frames@[i as int]@);
        }
        out.push(frame);
        i = i + 1;
    }
    proof {
        assert(out.deep_view() =~= frames.deep_view());
    }
    out
}

/// How a compute shader may touch a bound storage texture.
#[derive(Debug, Clone, Copy, PartialEq, Eq, Structural)]
pub enum TextureAccess {
    ReadOnly,
    WriteOnly,
    ReadWrite,
}

/// One binding-set layout entry: a storage texture (or an array of `count`
/// of them) at slot `binding`, with the given access.
#[derive(Debug, Clone, Copy, PartialEq, Eq, Structural)]
pub struct LayoutEntry {
    pub binding: u32,
    pub access: TextureAccess,
    pub count: Option<u32>,
}

/// The differential (main) stage's three binding-set layouts: baseline
/// (read-only), temporal history array (read-only, one slot per window
/// frame), and output (write-only).
#[derive(Debug, Clone, Copy, PartialEq, Eq, Structural)]
pub struct MainComputeBindGroupLayouts {
    pub start_texture_layout: LayoutEntry,
    pub temporal_textures_layout: LayoutEntry,
    pub output_texture_layout: LayoutEntry,
}

/// The exact layouts the differential stage is built with.
pub open spec fn main_layouts_spec(window_size: u32) -> MainComputeBindGroupLayouts {
    MainComputeBindGroupLayouts {
        start_texture_layout: LayoutEntry {
            binding: 0,
            access: TextureAccess::ReadOnly,
            count: None,
        },
        temporal_textures_layout: LayoutEntry {
            binding: 0,
            access: TextureAccess::ReadOnly,
            count: Some(window_size),
        },
        output_texture_layout: LayoutEntry {
            binding: 0,
            access: TextureAccess::WriteOnly,
            count: None,
        },
    }
}

impl MainComputeBindGroupLayouts {
    pub fn new(window_size: u32) -> (r: Self)
        ensures
            r == main_layouts_spec(window_size),
    {
        Self {
            start_texture_layout: LayoutEntry {
                binding: 0,
                access: TextureAccess::ReadOnly,
                count: None,
            },
            temporal_textures_layout: LayoutEntry {
                binding: 0,
                access: TextureAccess::ReadOnly,
                count: Some(window_size),
            },
            output_texture_layout: LayoutEntry {
                binding: 0,
                access: TextureAccess::WriteOnly,
                count: None,
            },
        }
    }
}

/// The differential stage's bound resources: the frame dimensions, the
/// baseline pixels, and the bound history frames.
#[derive(Debug, Clone, PartialEq, Eq)]
pub struct MainComputeBindGroupsContainer {
    pub width: u32,
    pub height: u32,
    pub start_texture: Vec<u8>,
    pub temporal_textures: Vec<Vec<u8>>,
}

impl MainComputeBindGroupsContainer {
    pub fn new(
        width: u32,
        height: u32,
        starting_texture: &Vec<u8>,
        temporal_textures: &Vec<Vec<u8>>,
    ) -> (r: Self)
        ensures
            r.width == width,
            r.height == height,
            r.start_texture@ == starting_texture@,
            r.temporal_textures.deep_view() == temporal_textures.deep_view(),
    {
        let start_texture = starting_texture.clone();
        proof {
            assert(start_texture@ =~= starting_texture@);
        }
        Self { width, height, start_texture, temporal_textures: clone_frames(temporal_textures) }
    }

    /// Replace the baseline pixels.
    pub fn set_start_texture(&mut self, input_texture: &Vec<u8>)
        ensures
            final(self).start_texture@ == input_texture@,
            final(self).width == old(self).width,
            final(self).height == old(self).height,
            final(self).temporal_textures == old(self).temporal_textures,
    {
        let pixels = input_texture.clone();
        proof {
            assert(pixels@ =~= input_texture@);
        }
        self.start_texture = pixels;
    }

    /// Replace the bound history frame in one slot.
    pub fn update_temporal_texture(&mut self, input_texture: &Vec<u8>, slot: usize)
        requires
            slot < old(self).temporal_textures@.len(),
        ensures
            final(self).temporal_textures.deep_view() == old(
                self,
            ).temporal_textures.deep_view().update(slot as int, input_texture@),
            final(self).width == old(self).width,
            final(self).height == old(self).height,
            final(self).start_texture == old(self).start_texture,
    {
        let frame = input_texture.clone();
        proof {
            assert(frame@ =~= input_texture@);
            assert(frame.deep_view() =~= input_texture@);
        }
        self.temporal_textures.set(slot, frame);
        proof {
            assert(self.temporal_textures.deep_view() =~= old(
                self,
            ).temporal_textures.deep_view().update(slot as int, input_texture@));
        }
    }

    /// Replace the bound history frames, pairing slots with the supplied
    /// frames in order (extra slots or frames are left alone, as a zip
    /// would).
    pub fn update_temporal_textures(&mut self, input_textures: &Vec<Vec<u8>>)
        ensures
            final(self).temporal_textures@.len() == old(self).temporal_textures@.len(),
            forall|i: int|
                0 <= i < old(self).temporal_textures@.len() ==> #[trigger] final(
                    self
                ).temporal_textures.deep_view()[i] == (if i < input_textures@.len() {
                    input_textures.deep_view()[i]
                } else {
                    old(self).temporal_textures.deep_view()[i]
                }),
            final(self).width == old(self).width,
            final(self).height == old(self).height,
            final(self).start_texture == old(self).start_texture,
    {
        let mut i: usize = 0;
        let count = if self.temporal_textures.len() < input_textures.len() {
            self.temporal_textures.len()
        } else {
            input_textures.len()
        };
        while i < count
            invariant
                i <= count,
                count <= old(self).temporal_textures@.len(),
                count <= input_textures@.len(),
                count == if old(self).temporal_textures@.len() < input_textures@.len() {
                    old(self).temporal_textures@.len()
                } else {
                    input_textures@.len()
                },
                self.temporal_textures@.len() == old(self).temporal_textures@.len(),
                forall|k: int|
                    0 <= k < i ==> (#[trigger] self.temporal_textures@[k])@ == input_textures@[k]@,
                forall|k: int|
                    i <= k < self.temporal_textures@.len() ==> #[trigger] self.temporal_textures@[k]
                        == old(self).temporal_textures@[k],
                self.width == old(self).width,
                self.height == old(self).height,
                self.start_texture == old(self).start_texture,
            decreases count - i,
        {
            let frame = input_textures[i].clone();
            proof {
                assert(frame@ =~= input_textures@[i as int]@);
            }
            self.temporal_textures.set(i, frame);
            i = i + 1;
        }
        proof {
            assert forall|k: int| 0 <= k < old(self).temporal_textures@.len() implies #[trigger] self.temporal_textures.deep_view()[k] == (if k < input_textures@.len() {
                input_textures.deep_view()[k]
            } else {
                old(self).temporal_textures.deep_view()[k]
            }) by {
                if k < count {
                    assert(self.temporal_textures@[k].deep_view() =~= self.temporal_textures@[k]@);
                    assert(input_textures@[k].deep_view() =~= input_textures@[k]@);
                } else {
                    assert(self.temporal_textures@[k] == old(self).temporal_textures@[k]);
                }
            }
        }
    }
}

/// The differential stage: its layouts until the window fills, its bound
/// resources afterwards.
#[derive(Debug)]
pub enum MainComputeBindGroups {
    Uninitialized(MainComputeBindGroupLayouts),
    Initialized(MainComputeBindGroupsContainer),
}

impl MainComputeBindGroups {
    /// Create the stage in its uninitialized state, holding only layouts.
    pub fn new(window_size: u32) -> (r: Self)
        ensures
            r == MainComputeBindGroups::Uninitialized(main_layouts_spec(window_size)),
    {
        Self::Uninitialized(MainComputeBindGroupLayouts::new(window_size))
    }

    /// Initialize the stage with a baseline texture and the history frames.
    /// Fails, leaving the stage untouched, when it is already initialized.
    pub fn initialize(
        main_compute_bind_groups: &mut Self,
        dims: (u32, u32),
        textures: (&Vec<u8>, &Vec<Vec<u8>>),
    ) -> (r: Result<(), BindGroupsAlreadyInitializedError>)
        ensures
            (*old(main_compute_bind_groups)) is Uninitialized ==> {
                &&& r is Ok
                &&& *final(main_compute_bind_groups) matches MainComputeBindGroups::Initialized(c)
                &&& c.width == dims.0
                &&& c.height == dims.1
                &&& c.start_texture@ == textures.0@
                &&& c.temporal_textures.deep_view() == textures.1.deep_view()
            },
            (*old(main_compute_bind_groups)) is Initialized ==> {
                &&& r is Err
                &&& *final(main_compute_bind_groups) == *old(main_compute_bind_groups)
            },
    {
        let (width, height) = dims;
        let (starting_texture, temporal_textures) = textures;
        match main_compute_bind_groups {
            Self::Uninitialized(_layouts) => {
                let container = MainComputeBindGroupsContainer::new(
                    width,
                    height,
                    starting_texture,
                    temporal_textures,
                );
                *main_compute_bind_groups = Self::Initialized(container);
                Ok(())
            },
            Self::Initialized(_) => Err(BindGroupsAlreadyInitializedError),
        }
    }

    /// The pipeline layout is derivable only before initialization: the
    /// pipeline is created against the layouts, before any resource exists.
    pub fn pipeline_layout(&self) -> (r: Option<&MainComputeBindGroupLayouts>)
        ensures
            self is Uninitialized ==> (r matches Some(l) && *l == self->Uninitialized_0),
            self is Initialized ==> r is None,
    {
        match self {
            Self::Uninitialized(layouts) => Some(layouts),
            Self::Initialized(_) => None,
        }
    }
}

/// The baseline (pre-compute) stage's two binding-set layouts: the history
/// window array (read-only) and the baseline output (write-only).
#[derive(Debug, Clone, Copy, PartialEq, Eq, Structural)]
pub struct PreComputeBindGroupLayouts {
    pub start_textures_layout: LayoutEntry,
    pub output_texture_layout: LayoutEntry,
}

/// The exact layouts the baseline stage is built with.
pub open spec fn pre_layouts_spec(window_size: u32) -> PreComputeBindGroupLayouts {
    PreComputeBindGroupLayouts {
        start_textures_layout: LayoutEntry {
            binding: 0,
            access: TextureAccess::ReadOnly,
            count: Some(window_size),
        },
        output_texture_layout: LayoutEntry {
            binding: 0,
            access: TextureAccess::WriteOnly,
            count: None,
        },
    }
}

impl PreComputeBindGroupLayouts {
    pub fn new(window_size: u32) -> (r: Self)
        ensures
            r == pre_layouts_spec(window_size),
    {
        Self {
            start_textures_layout: LayoutEntry {
                binding: 0,
                access: TextureAccess::ReadOnly,
                count: Some(window_size),
            },
            output_texture_layout: LayoutEntry {
                binding: 0,
                access: TextureAccess::WriteOnly,
                count: None,
            },
        }
    }
}

/// The baseline stage's bound resources: the dimensions and the window of
/// frames it aggregates.
#[derive(Debug, Clone, PartialEq, Eq)]
pub struct PreComputeBindGroupsContainer {
    pub width: u32,
    pub height: u32,
    pub start_textures: Vec<Vec<u8>>,
}

impl PreComputeBindGroupsContainer {
    pub fn new(width: u32, height: u32, textures: &Vec<Vec<u8>>) -> (r: Self)
        ensures
            r.width == width,
            r.height == height,
            r.start_textures.deep_view() == textures.deep_view(),
    {
        Self { width, height, start_textures: clone_frames(textures) }
    }
}

/// The baseline stage: its layouts until the window first fills, its bound
/// resources afterwards.
#[derive(Debug)]
pub enum PreComputeBindGroups {
    Uninitialized(PreComputeBindGroupLayouts),
    Initialized(PreComputeBindGroupsContainer),
}

impl PreComputeBindGroups {
    /// Create the stage in its uninitialized state, holding only layouts.
    pub fn new(window_size: u32) -> (r: Self)
        ensures
            r == PreComputeBindGroups::Uninitialized(pre_layouts_spec(window_size)),
    {
        Self::Uninitialized(PreComputeBindGroupLayouts::new(window_size))
    }

    /// Initialize the stage with the full window of frames. Fails, leaving
    /// the stage untouched, when it is already initialized.
    pub fn initialize(
        pre_compute_bind_groups: &mut Self,
        dims: (u32, u32),
        textures: &Vec<Vec<u8>>,
    ) -> (r: Result<(), BindGroupsAlreadyInitializedError>)
        ensures
            (*old(pre_compute_bind_groups)) is Uninitialized ==> {
                &&& r is Ok
                &&& *final(pre_compute_bind_groups) matches PreComputeBindGroups::Initialized(c)
                &&& c.width == dims.0
                &&& c.height == dims.1
                &&& c.start_textures.deep_view() == textures.deep_view()
            },
            (*old(pre_compute_bind_groups)) is Initialized ==> {
                &&& r is Err
                &&& *final(pre_compute_bind_groups) == *old(pre_compute_bind_groups)
            },
    {
        let (width, height) = dims;
        match pre_compute_bind_groups {
            Self::Uninitialized(_layouts) => {
                let container = PreComputeBindGroupsContainer::new(width, height, textures);
                *pre_compute_bind_groups = Self::Initialized(container);
                Ok(())
            },
            Self::Initialized(_) => Err(BindGroupsAlreadyInitializedError),
        }
    }

    /// The pipeline layout is derivable only before initialization: the
    /// pipeline is created against the layouts, before any resource exists.
    pub fn pipeline_layout(&self) -> (r: Option<&PreComputeBindGroupLayouts>)
        ensures
            self is Uninitialized ==> (r matches Some(l) && *l == self->Uninitialized_0),
            self is Initialized ==> r is None,
    {
        match self {
            Self::Uninitialized(layouts) => Some(layouts),
            Self::Initialized(_) => None,
        }
    }

    /// Reset the stage to its uninitialized state so the baseline can be
    /// recomputed: the only path back after the one-shot initialization.
    pub fn reset(pre_compute_bind_groups: &mut Self, window_size: u32)
        ensures
            *final(pre_compute_bind_groups) == PreComputeBindGroups::Uninitialized(
                pre_layouts_spec(window_size),
            ),
    {
        *pre_compute_bind_groups = Self::Uninitialized(PreComputeBindGroupLayouts::new(
            window_size,
        ));
    }
}

} // verus!
