//! The macOS provider's verifiable surface.
//!
//! The host integration drives the screen-capture framework; here live the
//! platform facts and the stride removal that turns a padded surface into
//! the tightly packed buffer the pipeline expects.

use vstd::prelude::*;
use vstd::arithmetic::div_mod::{
    lemma_div_by_multiple, lemma_fundamental_div_mod_converse, lemma_mod_multiples_basic,
};
use vstd::arithmetic::mul::lemma_mul_upper_bound;

verus! {

/// The offset at which row `k` starts in a surface padded to
/// `bytes_per_row`-byte rows.
pub open spec fn spec_row_start(k: int, bytes_per_row: int) -> int {
    k * bytes_per_row
}

/// Screen capture is available on macOS.
pub fn is_supported() -> (r: bool)
    ensures
        r,
{
    true
}

/// This provider's platform name.
pub fn platform_name() -> (r: &'static str)
    ensures
        r@ == "macos"@,
{
    "macos"
}

/// Removes per-row padding from a locked surface's bytes.
///
/// The surface stores each of the `height` rows at a stride of
/// `bytes_per_row` bytes, of which only the leading `row_len` are pixel
/// data. The result holds the payload of every leading row the buffer
/// fully contains, in row order; copying stops at the first row that would
/// read past the end.
pub fn strip_row_padding(data: &Vec<u8>, height: u32, row_len: usize, bytes_per_row: usize) -> (r:
    Vec<u8>)
    ensures
        row_len == 0 ==> r.len() == 0,
        row_len > 0 ==> {
            let rows = r.len() as int / row_len as int;
            &&& r.len() as int % (row_len as int) == 0
            &&& rows <= height
            &&& rows == height || spec_row_start(rows, bytes_per_row as int) + row_len
                > data.len()
            &&& forall|k: int|
                0 <= k < rows ==> spec_row_start(k, bytes_per_row as int) + row_len <= data.len()
            &&& forall|t: int|
                0 <= t < r.len() ==> r[t] == data[
                    spec_row_start(t / (row_len as int), bytes_per_row as int) + t % (
                    row_len as int)
                ]
        },
{
    let mut out: Vec<u8> = Vec::new();
    if row_len == 0 {
        return out;
    }
    let mut row: u32 = 0;
    let mut row_off: u128 = 0;
    while row < height && row_off + (row_len as u128) <= (data.len() as u128)
        invariant
            row_len > 0,
            row <= height,
            row_off == row * bytes_per_row,
            row_off <= 0xffff_ffffu128 * 0xffff_ffff_ffff_ffffu128,
            out.len() == row * row_len,
            forall|k: int|
                0 <= k < row ==> spec_row_start(k, bytes_per_row as int) + row_len <= data.len(),
            forall|t: int|
                0 <= t < out.len() ==> out[t] == data[
                    spec_row_start(t / (row_len as int), bytes_per_row as int) + t % (
                    row_len as int)
                ],
        decreases height - row,
    {
        let start: usize = row_off as usize;
        let mut j: usize = 0;
        while j < row_len
            invariant
                row_len > 0,
                row < height,
                start == row * bytes_per_row,
                start + row_len <= data.len(),
                j <= row_len,
                out.len() == row * row_len + j,
                forall|t: int|
                    0 <= t < out.len() ==> out[t] == data[
                        spec_row_start(t / (row_len as int), bytes_per_row as int) + t % (
                        row_len as int)
                    ],
            decreases row_len - j,
        {
            out.push(data[start + j]);
            proof {
                let t = out.len() - 1;
                lemma_fundamental_div_mod_converse(
                    t as int,
                    row_len as int,
                    row as int,
                    j as int,
                );
            }
            j = j + 1;
        }
        proof {
            assert((row + 1) * (row_len as int) == row * (row_len as int) + row_len)
                by (nonlinear_arith);
            assert((row + 1) * (bytes_per_row as int) == row * (bytes_per_row as int)
                + bytes_per_row) by (nonlinear_arith);
            lemma_mul_upper_bound(
                row + 1,
                0xffff_ffffint,
                bytes_per_row as int,
                0xffff_ffff_ffff_ffffint,
            );
        }
        row_off = row_off + (bytes_per_row as u128);
        row = row + 1;
    }
    proof {
        lemma_div_by_multiple(row as int, row_len as int);
        lemma_mod_multiples_basic(row as int, row_len as int);
        assert(out.len() as int / row_len as int == row);
    }
    out
}

} // verus!
