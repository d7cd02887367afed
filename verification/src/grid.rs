//! Grid snapping: mapping a world coordinate to the nearest line of the
//! placement grid, so placed tiles share the existing block grid's phase.

use vstd::prelude::*;

verus! {

/// Side length of one placement-grid cell, in world units.
pub const BLOCK_SIZE: i64 = 64;

/// Coordinates handed to the snapper stay well inside the `i64` range so the
/// snap arithmetic cannot overflow.
pub const COORD_LIMIT: i64 = 0x1000_0000_0000_0000;

/// Non-negative remainder of `c` modulo the cell size.
pub open spec fn grid_rem(c: int) -> int {
    c % (BLOCK_SIZE as int)
}

/// Where a coordinate snaps on a grid whose lines sit at `64 * k + offset`:
/// with `r` the non-negative remainder of `c - offset`, a coordinate in the
/// lower half of its cell snaps down by `r`, one in the upper half (the
/// midpoint included) snaps up by `64 - r`.
pub open spec fn spec_snap(c: int, offset: int) -> int {
    let r = grid_rem(c - offset);
    if r < BLOCK_SIZE as int / 2 {
        c - r
    } else {
        c + (BLOCK_SIZE as int - r)
    }
}

/// Non-negative remainder of `d` modulo the cell size.
fn euclid_rem_block(d: i64) -> (m: i64)
    requires
        i64::MIN < d,
    ensures
        m == grid_rem(d as int),
        0 <= m < BLOCK_SIZE,
{
    if d >= 0 {
        d % BLOCK_SIZE
    } else {
        let k = (-d) % BLOCK_SIZE;
        proof {
            let s = BLOCK_SIZE as int;
            let q = (-d) as int / s;
            vstd::arithmetic::div_mod::lemma_fundamental_div_mod((-d) as int, s);
            if k == 0 {
                vstd::arithmetic::div_mod::lemma_fundamental_div_mod_converse_mod(
                    d as int, s, -q, 0,
                );
            } else {
                vstd::arithmetic::div_mod::lemma_fundamental_div_mod_converse_mod(
                    d as int, s, -q - 1, s - k,
                );
            }
        }
        if k == 0 {
            0
        } else {
            BLOCK_SIZE - k
        }
    }
}

/// Snap a world coordinate to the placement grid anchored at `offset`.
///
/// The result is always a grid line (`64 * k + offset` for some integer `k`)
/// and never further than half a cell from the input; a coordinate exactly at
/// a cell midpoint snaps up.
pub fn snap_coord(c: i64, offset: i64) -> (r: i64)
    requires
        -COORD_LIMIT < c < COORD_LIMIT,
        -COORD_LIMIT < offset < COORD_LIMIT,
    ensures
        r == spec_snap(c as int, offset as int),
        grid_rem(r - offset) == 0,
        -BLOCK_SIZE / 2 <= r - c <= BLOCK_SIZE / 2,
{
    let m = euclid_rem_block(c - offset);
    if m < BLOCK_SIZE / 2 {
        c - m
    } else {
        c + (BLOCK_SIZE - m)
    }
}

} // verus!
