//! Dispatch-grid sizing and transfer-row padding arithmetic.
//!
//! GPU transfer queues require every copied row's byte stride to be a
//! multiple of 256, and compute passes are dispatched in fixed-size work
//! groups; both quantities are plain integer arithmetic over the frame
//! dimensions.
use vstd::prelude::*;

verus! {

/// Compute-shader work groups are 16 pixels wide and 16 pixels tall.
pub const WORK_GROUP_WIDTH: u32 = 16;

pub const WORK_GROUP_HEIGHT: u32 = 16;

/// Transfer rows are padded to a multiple of this many bytes.
pub const ROW_ALIGNMENT: usize = 256;

/// Four bytes per pixel: tightly packed RGBA8.
pub const BYTES_PER_PIXEL: usize = 4;

/// The byte length of one tightly packed row of `width` pixels.
pub open spec fn unpadded_bytes_per_row_spec(width: nat) -> nat {
    width * 4
}

/// The byte length of one transfer row: the tight row length rounded up to
/// the next multiple of 256 (unchanged when already aligned).
pub open spec fn padded_bytes_per_row_spec(width: nat) -> nat {
    let bytes = unpadded_bytes_per_row_spec(width);
    (bytes + (256 - bytes % 256) % 256) as nat
}

/// Round a tightly packed row length of `width * 4` bytes up to the
/// transfer alignment.
pub fn padded_bytes_per_row(width: u32) -> (r: usize)
    requires
        unpadded_bytes_per_row_spec(width as nat) + 256 <= usize::MAX,
    ensures
        r == padded_bytes_per_row_spec(width as nat),
        r % 256 == 0,
        unpadded_bytes_per_row_spec(width as nat) <= r < unpadded_bytes_per_row_spec(
            width as nat,
        ) + 256,
{
    let bytes_per_row = width as usize * 4;
    let padding = (256 - bytes_per_row % 256) % 256;
    bytes_per_row + padding
}

/// The number of work groups needed to cover `dim` pixels with groups of
/// `group_dim` pixels: the integer ceiling of `dim / group_dim`.
pub open spec fn work_group_count_spec(dim: nat, group_dim: nat) -> nat
    recommends
        group_dim > 0,
{
    crate::ceil_div(dim, group_dim)
}

/// The dispatch grid that covers a `width` by `height` frame with work
/// groups of `work_group_width` by `work_group_height` pixels, by integer
/// ceiling division in each dimension.
pub fn compute_work_group_count(dims: (u32, u32), work_group_dims: (u32, u32)) -> (r: (u32, u32))
    requires
        work_group_dims.0 > 0,
        work_group_dims.1 > 0,
        dims.0 + work_group_dims.0 <= u32::MAX,
        dims.1 + work_group_dims.1 <= u32::MAX,
    ensures
        r.0 == work_group_count_spec(dims.0 as nat, work_group_dims.0 as nat),
        r.1 == work_group_count_spec(dims.1 as nat, work_group_dims.1 as nat),
{
    let (width, height) = dims;
    let (work_group_width, work_group_height) = work_group_dims;
    let x = (width + work_group_width - 1) / work_group_width;
    let y = (height + work_group_height - 1) / work_group_height;
    (x, y)
}

/// The ceiling division covers every pixel and wastes less than one group.
pub proof fn lemma_work_group_count_covers(dim: nat, group_dim: nat)
    requires
        group_dim > 0,
    ensures
        work_group_count_spec(dim, group_dim) * group_dim >= dim,
        dim > 0 ==> (work_group_count_spec(dim, group_dim) - 1) * group_dim < dim,
{
    let q = (dim + group_dim - 1) as int / group_dim as int;
    vstd::arithmetic::div_mod::lemma_fundamental_div_mod((dim + group_dim - 1) as int,
        group_dim as int);
    vstd::arithmetic::div_mod::lemma_mod_bound((dim + group_dim - 1) as int, group_dim as int);
    assert((q - 1) * group_dim == q * group_dim - group_dim) by (nonlinear_arith);
    assert(group_dim * q == q * group_dim) by (nonlinear_arith);
}

} // verus!
