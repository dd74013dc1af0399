//! The engine-level filter selection, including the pass-through variant.
use vstd::prelude::*;

verus! {

/// The thresholding curve the differential stage applies, or no filtering
/// at all.
#[derive(Debug, Clone, Copy, PartialEq, Eq, Structural)]
pub enum DiPsFilter {
    Unfiltered,
    Sigmoid,
    InverseSigmoid,
}

/// The specialization-constant value selecting each curve; the
/// pass-through variant uses the sentinel 255.
pub open spec fn dips_filter_constant(f: DiPsFilter) -> u32 {
    match f {
        DiPsFilter::Unfiltered => 255u32,
        DiPsFilter::Sigmoid => 0u32,
        DiPsFilter::InverseSigmoid => 1u32,
    }
}

impl DiPsFilter {
    /// The specialization-constant value selecting this curve.
    pub fn shader_constant(&self) -> (r: u32)
        ensures
            r == dips_filter_constant(*self),
    {
        match self {
            DiPsFilter::Unfiltered => 255,
            DiPsFilter::Sigmoid => 0,
            DiPsFilter::InverseSigmoid => 1,
        }
    }
}

} // verus!
