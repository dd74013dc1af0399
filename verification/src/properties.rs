//! Runtime-selectable filter parameters.
//!
//! These are baked into the compute stages as specialization constants:
//! changing any field requires rebuilding both stages' pipelines, so the
//! engine takes a finished set of properties at construction. The
//! sensitivity scalar is held in tenths of a unit, keeping every constant
//! integral; the nominal range `[1, 10]` becomes `[10, 100]` tenths.
use vstd::prelude::*;
use vstd::string::StringExecFns;

verus! {

/// The temporal thresholding curve applied to each pixel's deviation.
#[derive(Debug, Clone, Copy, PartialEq, Eq, Structural)]
pub enum Filter {
    Sigmoid,
    InverseSigmoid,
}

/// The specialization-constant value selecting each curve.
pub open spec fn filter_constant(f: Filter) -> u32 {
    match f {
        Filter::Sigmoid => 0u32,
        Filter::InverseSigmoid => 1u32,
    }
}

impl Filter {
    /// The specialization-constant value selecting this curve.
    pub fn shader_constant(&self) -> (r: u32)
        ensures
            r == filter_constant(*self),
    {
        match self {
            Filter::Sigmoid => 0,
            Filter::InverseSigmoid => 1,
        }
    }
}

impl Default for Filter {
    fn default() -> (r: Self)
        ensures
            r == Filter::Sigmoid,
    {
        Filter::Sigmoid
    }
}

/// Which chroma channel the filter output is taken from.
#[derive(Debug, Clone, Copy, PartialEq, Eq, Structural)]
pub enum ChromaFilter {
    All,
    Red,
    Green,
    Blue,
}

/// The specialization-constant value selecting each channel.
pub open spec fn chroma_constant(c: ChromaFilter) -> u32 {
    match c {
        ChromaFilter::All => 0u32,
        ChromaFilter::Red => 1u32,
        ChromaFilter::Green => 2u32,
        ChromaFilter::Blue => 3u32,
    }
}

impl ChromaFilter {
    /// The specialization-constant value selecting this channel.
    pub fn shader_constant(&self) -> (r: u32)
        ensures
            r == chroma_constant(*self),
    {
        match self {
            ChromaFilter::All => 0,
            ChromaFilter::Red => 1,
            ChromaFilter::Green => 2,
            ChromaFilter::Blue => 3,
        }
    }
}

impl Default for ChromaFilter {
    fn default() -> (r: Self)
        ensures
            r == ChromaFilter::All,
    {
        ChromaFilter::All
    }
}

/// The filter configuration baked into the pipelines: colorization, the
/// spatial smoothing window (odd, in `[1, 7]`), the sensitivity scalar in
/// tenths (in `[10, 100]`), the thresholding curve, and the chroma channel.
#[derive(Debug, Clone, Copy, PartialEq, Eq, Structural)]
pub struct DiPsProperties {
    pub colorize: bool,
    pub window_size: u8,
    pub sigmoid_horizontal_scalar_tenths: u32,
    pub filter_type: Filter,
    pub chroma_filter: ChromaFilter,
}

/// A valid spatial window is odd and within `[1, 7]`; a valid sensitivity
/// lies in `[10, 100]` tenths.
pub open spec fn properties_wf(p: DiPsProperties) -> bool {
    &&& 1 <= p.window_size <= 7
    &&& p.window_size % 2 == 1
    &&& 10 <= p.sigmoid_horizontal_scalar_tenths <= 100
}

impl Default for DiPsProperties {
    fn default() -> (r: Self)
        ensures
            r == (DiPsProperties {
                colorize: true,
                window_size: 1,
                sigmoid_horizontal_scalar_tenths: 50,
                filter_type: Filter::Sigmoid,
                chroma_filter: ChromaFilter::All,
            }),
            properties_wf(r),
    {
        DiPsProperties {
            colorize: true,
            window_size: 1,
            sigmoid_horizontal_scalar_tenths: 50,
            filter_type: Filter::Sigmoid,
            chroma_filter: ChromaFilter::All,
        }
    }
}

impl DiPsProperties {
    /// A fresh configuration with the default parameters.
    pub fn new() -> (r: Self)
        ensures
            r == (DiPsProperties {
                colorize: true,
                window_size: 1,
                sigmoid_horizontal_scalar_tenths: 50,
                filter_type: Filter::Sigmoid,
                chroma_filter: ChromaFilter::All,
            }),
            properties_wf(r),
    {
        DiPsProperties {
            colorize: true,
            window_size: 1,
            sigmoid_horizontal_scalar_tenths: 50,
            filter_type: Filter::Sigmoid,
            chroma_filter: ChromaFilter::All,
        }
    }

    /// Finish a builder-style configuration: hand out the assembled value.
    pub fn build(&self) -> (r: Self)
        ensures
            r == *self,
    {
        *self
    }

    pub fn set_filter(&mut self, filter: Filter)
        ensures
            *final(self) == (DiPsProperties { filter_type: filter, ..*old(self) }),
    {
        self.filter_type = filter;
    }

    pub fn set_chroma_filter(&mut self, chroma_filter: ChromaFilter)
        ensures
            *final(self) == (DiPsProperties { chroma_filter, ..*old(self) }),
    {
        self.chroma_filter = chroma_filter;
    }

    /// Set the sensitivity scalar, clamped into `[10, 100]` tenths.
    pub fn set_sigmoid_horizontal_scalar(&mut self, scalar_tenths: u32)
        ensures
            *final(self) == (DiPsProperties {
                sigmoid_horizontal_scalar_tenths: if scalar_tenths < 10 {
                    10u32
                } else if scalar_tenths > 100 {
                    100u32
                } else {
                    scalar_tenths
                },
                ..*old(self)
            }),
            10 <= final(self).sigmoid_horizontal_scalar_tenths <= 100,
    {
        self.sigmoid_horizontal_scalar_tenths = if scalar_tenths < 10 {
            10
        } else if scalar_tenths > 100 {
            100
        } else {
            scalar_tenths
        };
    }

    /// Set the spatial window, clamped into `[1, 7]` and rounded down to an
    /// odd value.
    pub fn set_window_size(&mut self, size: u8)
        ensures
            final(self).window_size == {
                let clamped: u8 = if size < 1 {
                    1u8
                } else if size > 7 {
                    7u8
                } else {
                    size
                };
                if clamped % 2 == 0 {
                    (clamped - 1) as u8
                } else {
                    clamped
                }
            },
            1 <= final(self).window_size <= 7,
            final(self).window_size % 2 == 1,
            final(self).colorize == old(self).colorize,
            final(self).sigmoid_horizontal_scalar_tenths == old(
                self,
            ).sigmoid_horizontal_scalar_tenths,
            final(self).filter_type == old(self).filter_type,
            final(self).chroma_filter == old(self).chroma_filter,
    {
        let clamped: u8 = if size < 1 {
            1
        } else if size > 7 {
            7
        } else {
            size
        };
        self.window_size = if clamped % 2 == 0 {
            clamped - 1
        } else {
            clamped
        };
    }

    pub fn set_colorize(&mut self, colorize: bool)
        ensures
            *final(self) == (DiPsProperties { colorize, ..*old(self) }),
    {
        self.colorize = colorize;
    }

    /// The named specialization constants in pipeline order. The
    /// sensitivity entry is in tenths, as stored.
    pub fn get_properties_slice(&self) -> (r: Vec<(String, u32)>)
        ensures
            r@.len() == 5,
            r@[0].0@ == "COLORIZE"@ && r@[0].1 == (if self.colorize {
                1u32
            } else {
                0u32
            }),
            r@[1].0@ == "WINDOW_SIZE"@ && r@[1].1 == self.window_size as u32,
            r@[2].0@ == "SIGMOID_HORIZONTAL_SCALAR"@ && r@[2].1
                == self.sigmoid_horizontal_scalar_tenths,
            r@[3].0@ == "FILTER_TYPE"@ && r@[3].1 == filter_constant(self.filter_type),
            r@[4].0@ == "CHROMA_FILTER"@ && r@[4].1 == chroma_constant(self.chroma_filter),
    {
        let mut out: Vec<(String, u32)> = Vec::new();
        out.push(
            (String::from_str("COLORIZE"), if self.colorize {
                1
            } else {
                0
            }),
        );
        out.push((String::from_str("WINDOW_SIZE"), self.window_size as u32));
        out.push(
            (String::from_str("SIGMOID_HORIZONTAL_SCALAR"), self.sigmoid_horizontal_scalar_tenths),
        );
        out.push((String::from_str("FILTER_TYPE"), self.filter_type.shader_constant()));
        out.push((String::from_str("CHROMA_FILTER"), self.chroma_filter.shader_constant()));
        out
    }
}

} // verus!
