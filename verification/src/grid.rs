//! The bounded toroidal coordinate space and its wrap rule.

use vstd::prelude::*;

verus! {

/// Half-extent of the square play field, in world units: in-bounds
/// coordinates range over `[-HALF_EXTENT, HALF_EXTENT]` on each axis.
pub const HALF_EXTENT: i32 = 300;

/// Side length of one grid cell, in world units. Every snake segment
/// and every food item is a square box of this size, and one advance
/// moves the head by exactly this much.
pub const CELL_SIZE: i32 = 10;

/// A point of the play field, in world units. Grid cells sit at
/// multiples of [`CELL_SIZE`].
#[derive(Clone, Copy, PartialEq, Eq, Structural, Debug)]
pub struct Position {
    pub x: i32,
    pub y: i32,
}

/// The toroidal boundary rule on one axis: a coordinate within the
/// play field is kept; one past an edge re-enters at the opposite edge.
/// Total over all of `int`.
pub open spec fn spec_wrap(c: int) -> int {
    if c > HALF_EXTENT {
        -HALF_EXTENT as int
    } else if c < -HALF_EXTENT {
        HALF_EXTENT as int
    } else {
        c
    }
}

/// Wrap one coordinate to the play field.
///
/// A coordinate already in bounds comes back unchanged, so wrapping is
/// the identity on the play field.
pub fn wrap_coord(c: i32) -> (r: i32)
    ensures
        r as int == spec_wrap(c as int),
        -HALF_EXTENT <= c <= HALF_EXTENT ==> r == c,
{
    if c > HALF_EXTENT {
        -HALF_EXTENT
    } else if c < -HALF_EXTENT {
        HALF_EXTENT
    } else {
        c
    }
}

} // verus!
