use vstd::prelude::*;

verus! {

/// Squared distance, in cells, from cell (row `i`, column `j`) to the grid's
/// centre cell (row `height / 2`, column `width / 2`, halves rounded down).
pub open spec fn spec_center_dist_sq(width: int, height: int, i: int, j: int) -> int {
    (height / 2 - i) * (height / 2 - i) + (width / 2 - j) * (width / 2 - j)
}

proof fn lemma_square_bound(d: int)
    requires
        0 <= d <= 0x8000_0000_0000_0000,
    ensures
        0 <= d * d <= 0x4000_0000_0000_0000_0000_0000_0000_0000,
{
    assert(d * d <= 0x8000_0000_0000_0000 * 0x8000_0000_0000_0000) by (nonlinear_arith)
        requires
            0 <= d <= 0x8000_0000_0000_0000,
    ;
    assert(0 <= d * d) by (nonlinear_arith);
}

fn abs_diff_half(n: usize, k: usize) -> (r: u128)
    requires
        k < n,
    ensures
        r as int * r as int == (n as int / 2 - k) * (n as int / 2 - k),
        r <= 0x8000_0000_0000_0000,
{
    let c: usize = n / 2;
    let d: usize = if c >= k { c - k } else { k - c };
    assert(d as int * d as int == (n as int / 2 - k) * (n as int / 2 - k)) by (nonlinear_arith)
        requires
            d == c - k || d == k - c,
            c == n as int / 2,
    ;
    d as u128
}

/// The squared distance from a cell to the grid's centre, which the radial
/// falloff decays with.
pub fn center_dist_sq(width: usize, height: usize, i: usize, j: usize) -> (r: u128)
    requires
        i < height,
        j < width,
    ensures
        r == spec_center_dist_sq(width as int, height as int, i as int, j as int),
{
    let di = abs_diff_half(height, i);
    let dj = abs_diff_half(width, j);
    proof {
        lemma_square_bound(di as int);
        lemma_square_bound(dj as int);
    }
    di * di + dj * dj
}

} // verus!
