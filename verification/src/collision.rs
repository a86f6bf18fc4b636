//! Axis-aligned bounding-box overlap, the one collision primitive of
//! the game: it serves both the self-collision and the food check.

use vstd::prelude::*;
use crate::grid::Position;

verus! {

/// Width and height of an axis-aligned box, in world units.
#[derive(Clone, Copy, PartialEq, Eq, Structural, Debug)]
pub struct Size {
    pub x: i32,
    pub y: i32,
}

/// Distance between two coordinates.
pub open spec fn abs_diff(a: int, b: int) -> int {
    if a >= b {
        a - b
    } else {
        b - a
    }
}

/// Two centred boxes overlap iff on both axes the distance of their
/// centres stays strictly below the sum of their half-extents (stated
/// doubled, so no halves appear).
pub open spec fn spec_overlaps(pa: Position, sa: Size, pb: Position, sb: Size) -> bool {
    &&& 2 * abs_diff(pa.x as int, pb.x as int) < sa.x + sb.x
    &&& 2 * abs_diff(pa.y as int, pb.y as int) < sa.y + sb.y
}

/// The box every snake segment and every food item occupies: one grid
/// cell.
pub open spec fn spec_cell_box() -> Size {
    Size { x: crate::grid::CELL_SIZE, y: crate::grid::CELL_SIZE }
}

/// The cell-sized box, for the executable collision checks.
pub fn cell_box() -> (s: Size)
    ensures
        s == spec_cell_box(),
{
    Size { x: crate::grid::CELL_SIZE, y: crate::grid::CELL_SIZE }
}

/// Axis-aligned bounding-box test: do the box of size `sa` centred at
/// `pa` and the box of size `sb` centred at `pb` intersect on both axes?
pub fn overlaps(pa: Position, sa: Size, pb: Position, sb: Size) -> (r: bool)
    ensures
        r == spec_overlaps(pa, sa, pb, sb),
{
    let dx: i64 = pa.x as i64 - pb.x as i64;
    let dx: i64 = if dx >= 0 { dx } else { -dx };
    let dy: i64 = pa.y as i64 - pb.y as i64;
    let dy: i64 = if dy >= 0 { dy } else { -dy };
    2 * dx < sa.x as i64 + sb.x as i64 && 2 * dy < sa.y as i64 + sb.y as i64
}

} // verus!
