//! Points, drag rectangles and the containment test used for window snapping.

use vstd::prelude::*;

verus! {

/// A position in captured-image pixel space.
#[derive(Clone, Copy, Debug, PartialEq, Eq, Structural)]
pub struct Point {
    pub x: i64,
    pub y: i64,
}

/// The two corners of a drag, in the order in which they were set.
#[derive(Clone, Copy, Debug, PartialEq, Eq, Structural)]
pub struct Endpoints {
    pub initial_pt: Point,
    pub final_pt: Point,
}

pub open spec fn min_i64(a: i64, b: i64) -> i64 {
    if a <= b { a } else { b }
}

pub open spec fn max_i64(a: i64, b: i64) -> i64 {
    if a <= b { b } else { a }
}

/// The same rectangle, given by its least corner and its greatest corner.
pub open spec fn normalized(e: Endpoints) -> Endpoints {
    Endpoints {
        initial_pt: Point {
            x: min_i64(e.initial_pt.x, e.final_pt.x),
            y: min_i64(e.initial_pt.y, e.final_pt.y),
        },
        final_pt: Point {
            x: max_i64(e.initial_pt.x, e.final_pt.x),
            y: max_i64(e.initial_pt.y, e.final_pt.y),
        },
    }
}

/// Width and height of the rectangle that the two corners span.
pub open spec fn extent(e: Endpoints) -> (nat, nat) {
    let n = normalized(e);
    (
        (n.final_pt.x - n.initial_pt.x) as nat,
        (n.final_pt.y - n.initial_pt.y) as nat,
    )
}

/// Whether `p` lies in the half-open box `[top_left, bottom_right)` on both axes.
pub open spec fn in_box(top_left: Point, bottom_right: Point, p: Point) -> bool {
    &&& top_left.x <= p.x < bottom_right.x
    &&& top_left.y <= p.y < bottom_right.y
}

impl Endpoints {
    /// The corners reordered so that the first is the least on both axes.
    pub fn normalize(&self) -> (r: Endpoints)
        ensures
            r == normalized(*self),
            r.initial_pt.x <= r.final_pt.x,
            r.initial_pt.y <= r.final_pt.y,
    {
        let (x0, x1) = if self.initial_pt.x <= self.final_pt.x {
            (self.initial_pt.x, self.final_pt.x)
        } else {
            (self.final_pt.x, self.initial_pt.x)
        };
        let (y0, y1) = if self.initial_pt.y <= self.final_pt.y {
            (self.initial_pt.y, self.final_pt.y)
        } else {
            (self.final_pt.y, self.initial_pt.y)
        };
        Endpoints { initial_pt: Point { x: x0, y: y0 }, final_pt: Point { x: x1, y: y1 } }
    }

    /// Width and height of the spanned rectangle.
    pub fn size(&self) -> (r: (u64, u64))
        ensures
            r.0 as nat == extent(*self).0,
            r.1 as nat == extent(*self).1,
    {
        let n = self.normalize();
        let w = (n.final_pt.x as i128 - n.initial_pt.x as i128) as u64;
        let h = (n.final_pt.y as i128 - n.initial_pt.y as i128) as u64;
        (w, h)
    }
}

/// Whether `p` lies in `[top_left, bottom_right)` on both axes; a point on the
/// right or bottom edge is outside.
pub fn contains(top_left: Point, bottom_right: Point, p: Point) -> (r: bool)
    ensures
        r == in_box(top_left, bottom_right, p),
{
    top_left.x <= p.x && p.x < bottom_right.x && top_left.y <= p.y && p.y < bottom_right.y
}

/// Normalizing twice gives what normalizing once gives, and the result is
/// ordered on both axes.
pub proof fn lemma_normalize_idempotent(e: Endpoints)
    ensures
        normalized(normalized(e)) == normalized(e),
        normalized(e).initial_pt.x <= normalized(e).final_pt.x,
        normalized(e).initial_pt.y <= normalized(e).final_pt.y,
{
}

} // verus!
