//! Temporal differential-imaging compute core.
//!
//! The library owns everything that can be decided and computed on the CPU:
//! the circular frame index, the row-padding and dispatch-grid arithmetic,
//! the partitioning of texture resources into binding sets, the generated
//! shader text, the two-stage (baseline + differential) pipeline state
//! machines, and the engine facade that sequences a frame through them.
//! The GPU device itself is an external collaborator: a driver performs the
//! actions this library decides on and hands the raw (row-padded) readback
//! bytes back in.
#![verifier::loop_isolation(false)]

pub mod bind_groups;
pub mod circular_index;
pub mod encoding;
pub mod engine;
pub mod errors;
pub mod filter;
pub mod frame_extractor;
pub mod grid;
pub mod properties;
pub mod readback;
pub mod schedule;
pub mod shader_gen;
pub mod text;
pub mod thumbnail_extractor;

use vstd::prelude::*;

verus! {

/// Integer ceiling division, the building block of dispatch-grid sizing
/// and of binding-set partitioning.
pub open spec fn ceil_div(a: nat, b: nat) -> nat
    recommends
        b > 0,
{
    ((a + b - 1) / b as int) as nat
}

} // verus!
