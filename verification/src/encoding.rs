//! Output stream encodings and their four-character codes.
//!
//! A four-character code packs the four ASCII letters of a codec tag into
//! one integer, least significant byte first.
use vstd::prelude::*;

verus! {

/// The four-character code for the letters `a`, `b`, `c`, `d`, packed
/// least significant byte first.
pub open spec fn fourcc(a: char, b: char, c: char, d: char) -> int {
    a as int + 256 * (b as int) + 65536 * (c as int) + 16777216 * (d as int)
}

/// The encodings the output stream can be written with.
#[derive(Debug, Clone, Copy, PartialEq, Eq, Structural)]
pub enum Encoding {
    /// Raw RGBA frames.
    Uncompressed,
    /// HuffYUV lossless compression.
    Huffman,
    /// H.264 compression.
    H264,
}

impl Encoding {
    /// The four-character code identifying this encoding's codec.
    pub fn as_fourcc(&self) -> (r: i32)
        ensures
            *self is Uncompressed ==> r == fourcc('R', 'G', 'B', 'A'),
            *self is Huffman ==> r == fourcc('H', 'F', 'Y', 'U'),
            *self is H264 ==> r == fourcc('H', '2', '6', '4'),
    {
        let (a, b, c, d): (u32, u32, u32, u32) = match self {
            Encoding::Uncompressed => ('R' as u32, 'G' as u32, 'B' as u32, 'A' as u32),
            Encoding::Huffman => ('H' as u32, 'F' as u32, 'Y' as u32, 'U' as u32),
            Encoding::H264 => ('H' as u32, '2' as u32, '6' as u32, '4' as u32),
        };
        (a + 256 * b + 65536 * c + 16777216 * d) as i32
    }
}

} // verus!
