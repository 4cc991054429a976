//! Axis-aligned boxes and the overlap test of the collision resolver.

use vstd::prelude::*;

verus! {

/// An axis-aligned box in arena coordinates, given by its centre and its
/// full width and height in position units.
#[derive(Clone, Copy, Debug, PartialEq, Eq, Structural)]
pub struct Aabb {
    pub center_x: i64,
    pub center_y: i64,
    pub width: u32,
    pub height: u32,
}

/// A box attached to a fighter: the offset of its centre from the origin of
/// the fighter, and its full width and height in position units.
#[derive(Clone, Copy, Debug, PartialEq, Eq, Structural)]
pub struct BoxShape {
    pub offset_x: i32,
    pub offset_y: i32,
    pub width: u32,
    pub height: u32,
}

/// Whether two extents on one axis overlap: each extent reaches half its
/// size to both sides of its centre, and the two share more than a border
/// point. Both sides of each comparison are doubled, so that an odd size
/// needs no rounding.
pub open spec fn extents_overlap(center_a: int, size_a: int, center_b: int, size_b: int) -> bool {
    &&& 2 * center_a - size_a < 2 * center_b + size_b
    &&& 2 * center_a + size_a > 2 * center_b - size_b
}

impl Aabb {
    /// Two boxes overlap when their extents overlap on both axes.
    pub open spec fn overlaps(&self, other: &Aabb) -> bool {
        &&& extents_overlap(
            self.center_x as int,
            self.width as int,
            other.center_x as int,
            other.width as int,
        )
        &&& extents_overlap(
            self.center_y as int,
            self.height as int,
            other.center_y as int,
            other.height as int,
        )
    }

    /// Tests whether the box and `other` overlap.
    pub fn collides(&self, other: &Aabb) -> (hit: bool)
        ensures
            hit == self.overlaps(other),
    {
        let ax: i128 = 2 * (self.center_x as i128);
        let ay: i128 = 2 * (self.center_y as i128);
        let bx: i128 = 2 * (other.center_x as i128);
        let by: i128 = 2 * (other.center_y as i128);
        let aw: i128 = self.width as i128;
        let ah: i128 = self.height as i128;
        let bw: i128 = other.width as i128;
        let bh: i128 = other.height as i128;
        ax - aw < bx + bw && ax + aw > bx - bw && ay - ah < by + bh && ay + ah > by - bh
    }
}

impl BoxShape {
    /// The box in arena coordinates when the fighter it is attached to
    /// stands at `(x, y)`.
    pub open spec fn placed(&self, x: int, y: int) -> Aabb {
        Aabb {
            center_x: (x + self.offset_x) as i64,
            center_y: (y + self.offset_y) as i64,
            width: self.width,
            height: self.height,
        }
    }

    /// Places the box at the position `(x, y)` of its fighter.
    pub fn place(&self, x: i32, y: i64) -> (placed: Aabb)
        requires
            i64::MIN <= y + self.offset_y <= i64::MAX,
        ensures
            placed == self.placed(x as int, y as int),
            placed.center_x == x + self.offset_x,
            placed.center_y == y + self.offset_y,
    {
        Aabb {
            center_x: x as i64 + self.offset_x as i64,
            center_y: y + self.offset_y as i64,
            width: self.width,
            height: self.height,
        }
    }
}

/// The overlap test does not depend on the order of the two boxes, and a
/// box of positive size overlaps itself.
pub proof fn theorem_overlap_symmetric(a: Aabb, b: Aabb)
    ensures
        a.overlaps(&b) == b.overlaps(&a),
        a.width > 0 && a.height > 0 ==> a.overlaps(&a),
{
}

/// Boxes whose centres are further apart than half the sum of their sizes,
/// on either axis, do not overlap; boxes that are nearer on both axes do.
pub proof fn theorem_overlap_by_distance(a: Aabb, b: Aabb)
    ensures
        a.overlaps(&b) <==> {
            &&& 2 * vstd::math::abs(a.center_x - b.center_x) < a.width + b.width
            &&& 2 * vstd::math::abs(a.center_y - b.center_y) < a.height + b.height
        },
{
}

} // verus!
