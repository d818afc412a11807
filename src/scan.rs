//! The traversal of an image of `width` by `height` pixels.
//!
//! Pixel `(i, j)` has column `i` (left to right) and row `j` (bottom to top).
//! The output stream is row-major and starts with the top row, `j == height - 1`,
//! so rows may be rendered in any order, or in parallel, and then put in
//! place by their coordinates. Each row is rendered from a random stream of
//! its own, seeded from one base seed.
use vstd::prelude::*;
use vstd::arithmetic::div_mod::lemma_fundamental_div_mod_converse;

verus! {

/// The position of pixel `(i, j)` in the output stream.
pub open spec fn position_spec(i: int, j: int, width: int, height: int) -> int {
    (height - 1 - j) * width + i
}

/// The pixel that stands at position `k` of the output stream.
pub open spec fn pixel_at_spec(k: int, width: int, height: int) -> (int, int) {
    (k % width, height - 1 - k / width)
}

proof fn lemma_position_bound(i: int, j: int, width: int, height: int)
    requires
        0 <= i < width,
        0 <= j < height,
    ensures
        0 <= position_spec(i, j, width, height) < width * height,
{
    assert(0 <= (height - 1 - j) * width <= (height - 1) * width) by (nonlinear_arith)
        requires
            0 <= j < height,
            0 < width,
    ;
    assert((height - 1) * width + width == width * height) by (nonlinear_arith);
}

/// The position of pixel `(i, j)` in the output stream of an image of
/// `width` by `height` pixels.
pub fn output_position(i: usize, j: usize, width: usize, height: usize) -> (r: usize)
    requires
        i < width,
        j < height,
        width * height <= usize::MAX,
    ensures
        r == position_spec(i as int, j as int, width as int, height as int),
        r < width * height,
{
    proof {
        lemma_position_bound(i as int, j as int, width as int, height as int);
    }
    (height - 1 - j) * width + i
}

/// Whether each entry of `order` is the pixel of the image that stands at the
/// entry's own index in the output stream.
pub open spec fn in_output_order(order: Seq<(usize, usize)>, width: int, height: int) -> bool {
    forall|k: int|
        #![trigger order[k]]
        0 <= k < order.len() ==> {
            &&& (order[k].0 as int, order[k].1 as int) == pixel_at_spec(k, width, height)
            &&& order[k].0 < width
            &&& order[k].1 < height
            &&& position_spec(order[k].0 as int, order[k].1 as int, width, height) == k
        }
}

/// The pixels of an image of `width` by `height` pixels in the order of the
/// output stream: rows from the top one down, each from left to right.
pub fn scanline_order(width: usize, height: usize) -> (r: Vec<(usize, usize)>)
    requires
        width * height <= usize::MAX,
    ensures
        r@.len() == width * height,
        in_output_order(r@, width as int, height as int),
{
    let mut r: Vec<(usize, usize)> = Vec::new();
    let mut row: usize = 0;
    while row < height
        invariant
            row <= height,
            width * height <= usize::MAX,
            r@.len() == row * width,
            in_output_order(r@, width as int, height as int),
        decreases height - row,
    {
        let j = height - 1 - row;
        let mut i: usize = 0;
        while i < width
            invariant
                row < height,
                j == height - 1 - row,
                i <= width,
                r@.len() == row * width + i,
                in_output_order(r@, width as int, height as int),
            decreases width - i,
        {
            proof {
                let k = row * width + i;
                lemma_fundamental_div_mod_converse(k, width as int, row as int, i as int);
            }
            r.push((i, j));
            i += 1;
        }
        proof {
            assert((row + 1) * width == row * width + width) by (nonlinear_arith);
        }
        row += 1;
    }
    proof {
        assert(row * width == width * height) by (nonlinear_arith)
            requires
                row == height,
        ;
    }
    r
}

/// The seed of the random stream that renders row `row`, given the base seed
/// of the whole image: the two added, modulo 2^64.
pub open spec fn row_seed_spec(base: u64, row: u64) -> u64 {
    ((base as int + row as int) % 0x1_0000_0000_0000_0000) as u64
}

/// The seed of the random stream that renders row `row` of an image whose
/// base seed is `base`.
pub fn row_seed(base: u64, row: u64) -> (r: u64)
    ensures
        r == row_seed_spec(base, row),
{
    base.wrapping_add(row)
}

/// Two different rows of one image never share a random stream: their seeds
/// differ, whatever the base seed.
pub proof fn lemma_row_seeds_distinct(base: u64, a: u64, b: u64)
    requires
        a != b,
    ensures
        row_seed_spec(base, a) != row_seed_spec(base, b),
{
}

} // verus!
