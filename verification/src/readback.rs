//! Repacking between tightly packed pixel rows and row-padded transfer
//! buffers.
//!
//! A staging buffer read back from the device stores each row of
//! `width * 4` pixel bytes at a stride of `padded_bytes_per_row(width)`;
//! the engine repacks those rows into a tight buffer before handing pixels
//! to the caller, and the reverse (zero-filled) layout describes what the
//! engine writes.
use crate::grid::{padded_bytes_per_row, padded_bytes_per_row_spec, unpadded_bytes_per_row_spec};
use vstd::arithmetic::div_mod::{
    lemma_fundamental_div_mod, lemma_fundamental_div_mod_converse_div,
    lemma_fundamental_div_mod_converse_mod,
};
use vstd::prelude::*;

verus! {

/// The tight pixel buffer extracted from a row-padded transfer buffer:
/// byte `k` of the result is byte `k % row` of row `k / row` of the padded
/// buffer, where `row` is the tight row length.
pub open spec fn unpad_rows_spec(padded: Seq<u8>, width: nat, height: nat) -> Seq<u8> {
    let row = unpadded_bytes_per_row_spec(width);
    let stride = padded_bytes_per_row_spec(width);
    Seq::new(height * row, |k: int| padded[(k / row as int) * stride + k % row as int])
}

/// The row-padded transfer layout of a tight pixel buffer: each row is the
/// tight row followed by zero padding up to the transfer stride.
pub open spec fn pad_rows_spec(tight: Seq<u8>, width: nat, height: nat) -> Seq<u8> {
    let row = unpadded_bytes_per_row_spec(width);
    let stride = padded_bytes_per_row_spec(width);
    Seq::new(
        height * stride,
        |k: int|
            if (k % (stride as int)) < row {
                tight[(k / (stride as int)) * row + k % (stride as int)]
            } else {
                0u8
            },
    )
}

/// Repack a row-padded transfer buffer into a tight pixel buffer, dropping
/// each row's alignment padding.
pub fn unpad_rows(padded: &Vec<u8>, width: u32, height: u32) -> (r: Vec<u8>)
    requires
        unpadded_bytes_per_row_spec(width as nat) + 256 <= usize::MAX,
        padded@.len() == padded_bytes_per_row_spec(width as nat) * height,
    ensures
        r@ == unpad_rows_spec(padded@, width as nat, height as nat),
{
    let ghost spec_out = unpad_rows_spec(padded@, width as nat, height as nat);
    if width == 0 {
        let out: Vec<u8> = Vec::new();
        proof {
            assert(out@ =~= spec_out);
        }
        return out;
    }
    let row: usize = width as usize * 4;
    let stride: usize = padded_bytes_per_row(width);
    let padded_len = padded.len();
    let mut out: Vec<u8> = Vec::new();
    let mut r: usize = 0;
    while r < height as usize
        invariant
            r <= height,
            padded_len == padded@.len(),
            out@.len() == r * row,
            forall|k: int| 0 <= k < out@.len() ==> out@[k] == spec_out[k],
        decreases height - r,
    {
        proof {
            assert(r * stride + stride <= height * stride) by (nonlinear_arith)
                requires
                    r < height,
                    stride > 0,
            ;
            assert(r * row + row <= height * row) by (nonlinear_arith)
                requires
                    r < height,
                    row > 0,
            ;
        }
        let mut c: usize = 0;
        while c < row
            invariant
                c <= row,
                r < height,
                row == unpadded_bytes_per_row_spec(width as nat),
                stride == padded_bytes_per_row_spec(width as nat),
                row <= stride,
                padded_len == padded@.len(),
                padded@.len() == stride * height,
                r * stride + stride <= height * stride,
                r * row + row <= height * row,
                spec_out == unpad_rows_spec(padded@, width as nat, height as nat),
                out@.len() == r * row + c,
                forall|k: int| 0 <= k < out@.len() ==> out@[k] == spec_out[k],
            decreases row - c,
        {
            proof {
                let k = (r * row + c) as int;
                lemma_fundamental_div_mod_converse_div(k, row as int, r as int, c as int);
                lemma_fundamental_div_mod_converse_mod(k, row as int, r as int, c as int);
                assert(stride * height == height * stride) by (nonlinear_arith);
                assert(r * stride + c < padded@.len());
            }
            out.push(padded[r * stride + c]);
            c = c + 1;
        }
        proof {
            assert((r + 1) * row == r * row + row) by (nonlinear_arith);
        }
        r = r + 1;
    }
    proof {
        assert(out@ =~= spec_out);
    }
    out
}

/// Lay a tight pixel buffer out with row-padded transfer strides, filling
/// the padding bytes with zeroes.
pub fn pad_rows(tight: &Vec<u8>, width: u32, height: u32) -> (r: Vec<u8>)
    requires
        unpadded_bytes_per_row_spec(width as nat) + 256 <= usize::MAX,
        padded_bytes_per_row_spec(width as nat) * height <= usize::MAX,
        tight@.len() == unpadded_bytes_per_row_spec(width as nat) * height,
    ensures
        r@ == pad_rows_spec(tight@, width as nat, height as nat),
{
    let ghost spec_out = pad_rows_spec(tight@, width as nat, height as nat);
    if width == 0 {
        let out: Vec<u8> = Vec::new();
        proof {
            assert(out@ =~= spec_out);
        }
        return out;
    }
    let row: usize = width as usize * 4;
    let stride: usize = padded_bytes_per_row(width);
    let tight_len = tight.len();
    let mut out: Vec<u8> = Vec::new();
    let mut r: usize = 0;
    while r < height as usize
        invariant
            r <= height,
            tight_len == tight@.len(),
            out@.len() == r * stride,
            forall|k: int| 0 <= k < out@.len() ==> out@[k] == spec_out[k],
        decreases height - r,
    {
        proof {
            assert(r * stride + stride <= height * stride) by (nonlinear_arith)
                requires
                    r < height,
                    stride > 0,
            ;
            assert(r * row + row <= height * row) by (nonlinear_arith)
                requires
                    r < height,
                    row > 0,
            ;
        }
        let mut c: usize = 0;
        while c < stride
            invariant
                c <= stride,
                r < height,
                row == unpadded_bytes_per_row_spec(width as nat),
                stride == padded_bytes_per_row_spec(width as nat),
                row <= stride,
                tight_len == tight@.len(),
                tight@.len() == row * height,
                r * stride + stride <= height * stride,
                r * row + row <= height * row,
                spec_out == pad_rows_spec(tight@, width as nat, height as nat),
                out@.len() == r * stride + c,
                forall|k: int| 0 <= k < out@.len() ==> out@[k] == spec_out[k],
            decreases stride - c,
        {
            proof {
                let k = (r * stride + c) as int;
                lemma_fundamental_div_mod_converse_div(k, stride as int, r as int, c as int);
                lemma_fundamental_div_mod_converse_mod(k, stride as int, r as int, c as int);
                assert(row * height == height * row) by (nonlinear_arith);
            }
            if c < row {
                out.push(tight[r * row + c]);
            } else {
                out.push(0u8);
            }
            c = c + 1;
        }
        proof {
            assert((r + 1) * stride == r * stride + stride) by (nonlinear_arith);
        }
        r = r + 1;
    }
    proof {
        assert(out@ =~= spec_out);
    }
    out
}

/// Round trip: padding a tight pixel buffer out to transfer strides and
/// repacking it recovers the original buffer exactly.
pub proof fn lemma_pad_unpad_roundtrip(tight: Seq<u8>, width: nat, height: nat)
    requires
        tight.len() == unpadded_bytes_per_row_spec(width) * height,
    ensures
        unpad_rows_spec(pad_rows_spec(tight, width, height), width, height) =~= tight,
{
    let row = unpadded_bytes_per_row_spec(width);
    let stride = padded_bytes_per_row_spec(width);
    let padded = pad_rows_spec(tight, width, height);
    let unpadded = unpad_rows_spec(padded, width, height);
    if width == 0 {
        assert(unpadded =~= tight);
        return ;
    }
    assert(padded.len() == height * stride);
    assert(unpadded.len() == height * row);
    assert(tight.len() == height * row) by (nonlinear_arith)
        requires
            tight.len() == row * height,
    ;
    assert forall|k: int| 0 <= k < height * row implies unpadded[k] == tight[k] by {
        let q = k / row as int;
        let c = k % row as int;
        lemma_fundamental_div_mod(k, row as int);
        assert(0 <= c < row);
        assert(0 <= q < height) by (nonlinear_arith)
            requires
                0 <= k < height * row,
                k == row * q + c,
                0 <= c < row,
                row > 0,
        ;
        let j = q * stride + c;
        assert(0 <= j && j + (stride - c) <= height * stride) by (nonlinear_arith)
            requires
                0 <= q < height,
                0 <= c < row,
                row <= stride,
                j == q * stride + c,
        ;
        assert(unpadded[k] == padded[j]);
        lemma_fundamental_div_mod_converse_div(j, stride as int, q, c);
        lemma_fundamental_div_mod_converse_mod(j, stride as int, q, c);
        assert(padded[j] == tight[q * row as int + c]);
        assert(q * row as int + c == k) by {
            lemma_fundamental_div_mod(k, row as int);
            assert(row as int * q == q * row as int) by (nonlinear_arith);
        }
    }
}

} // verus!
