//! Points, axis-aligned boxes and the side on which one box meets another.

use vstd::prelude::*;
use crate::units::{clamp, magnitude};

verus! {

/// A point or a displacement in the plane.
#[derive(Clone, Copy, Debug, PartialEq, Eq, Structural)]
pub struct Vec2 {
    pub x: i64,
    pub y: i64,
}

impl Vec2 {
    /// The point with these coordinates.
    pub fn new(x: i64, y: i64) -> (v: Vec2)
        ensures
            v == (Vec2 { x, y }),
    {
        Vec2 { x, y }
    }
}

/// An axis-aligned box, given by its center and half of its size along each axis.
#[derive(Clone, Copy, Debug, PartialEq, Eq, Structural)]
pub struct Aabb {
    pub center: Vec2,
    pub half_size: Vec2,
}

/// The side of a collider that the ball lies on when the two meet.
#[derive(Clone, Copy, Debug, PartialEq, Eq, Structural)]
pub enum Collision {
    Left,
    Right,
    Top,
    Bottom,
}

impl Aabb {
    /// A box has no negative extent.
    pub open spec fn wf(self) -> bool {
        self.half_size.x >= 0 && self.half_size.y >= 0
    }

    /// The x coordinate of the left edge.
    pub open spec fn min_x(self) -> int {
        self.center.x - self.half_size.x
    }

    /// The x coordinate of the right edge.
    pub open spec fn max_x(self) -> int {
        self.center.x + self.half_size.x
    }

    /// The y coordinate of the bottom edge.
    pub open spec fn min_y(self) -> int {
        self.center.y - self.half_size.y
    }

    /// The y coordinate of the top edge.
    pub open spec fn max_y(self) -> int {
        self.center.y + self.half_size.y
    }

    /// Two boxes intersect when their extents overlap on both axes. Boxes that only
    /// touch do intersect.
    pub open spec fn overlaps(self, other: Aabb) -> bool {
        &&& self.min_x() <= other.max_x()
        &&& self.max_x() >= other.min_x()
        &&& self.min_y() <= other.max_y()
        &&& self.max_y() >= other.min_y()
    }

    /// Whether `point` lies in the box, its border included.
    pub open spec fn holds(self, point: Vec2) -> bool {
        &&& self.min_x() <= point.x <= self.max_x()
        &&& self.min_y() <= point.y <= self.max_y()
    }

    /// The x coordinate of the point of the box nearest to `point`.
    pub open spec fn nearest_x(self, point: Vec2) -> int {
        clamp(point.x as int, self.min_x(), self.max_x())
    }

    /// The y coordinate of the point of the box nearest to `point`.
    pub open spec fn nearest_y(self, point: Vec2) -> int {
        clamp(point.y as int, self.min_y(), self.max_y())
    }

    /// The box around `center` that reaches `half_size` to each side.
    pub fn new(center: Vec2, half_size: Vec2) -> (b: Aabb)
        requires
            half_size.x >= 0,
            half_size.y >= 0,
        ensures
            b == (Aabb { center, half_size }),
            b.wf(),
    {
        Aabb { center, half_size }
    }

    /// Tests whether this is a proper box.
    pub fn is_wf(&self) -> (ok: bool)
        ensures
            ok == self.wf(),
    {
        self.half_size.x >= 0 && self.half_size.y >= 0
    }

    /// Tests whether the two boxes intersect. The edges are computed without rounding
    /// or wrapping, whatever the coordinates.
    pub fn intersects(&self, other: &Aabb) -> (hit: bool)
        ensures
            hit == self.overlaps(*other),
    {
        let a_min_x: i128 = self.center.x as i128 - self.half_size.x as i128;
        let a_max_x: i128 = self.center.x as i128 + self.half_size.x as i128;
        let a_min_y: i128 = self.center.y as i128 - self.half_size.y as i128;
        let a_max_y: i128 = self.center.y as i128 + self.half_size.y as i128;
        let b_min_x: i128 = other.center.x as i128 - other.half_size.x as i128;
        let b_max_x: i128 = other.center.x as i128 + other.half_size.x as i128;
        let b_min_y: i128 = other.center.y as i128 - other.half_size.y as i128;
        let b_max_y: i128 = other.center.y as i128 + other.half_size.y as i128;
        let x_overlaps = a_min_x <= b_max_x && a_max_x >= b_min_x;
        let y_overlaps = a_min_y <= b_max_y && a_max_y >= b_min_y;
        x_overlaps && y_overlaps
    }

    /// The point of the box nearest to `point`: `point` itself where the box holds it,
    /// else a point of the border.
    pub fn closest_point(&self, point: Vec2) -> (p: Vec2)
        requires
            self.wf(),
        ensures
            p.x == self.nearest_x(point),
            p.y == self.nearest_y(point),
            self.holds(p),
            self.holds(point) <==> p == point,
    {
        let x = nearest(point.x, self.center.x, self.half_size.x);
        let y = nearest(point.y, self.center.y, self.half_size.y);
        Vec2 { x, y }
    }
}

/// One coordinate clamped to `[center - half, center + half]`.
fn nearest(coordinate: i64, center: i64, half: i64) -> (r: i64)
    requires
        half >= 0,
    ensures
        r == clamp(coordinate as int, center - half, center + half),
{
    let lower: i128 = center as i128 - half as i128;
    let upper: i128 = center as i128 + half as i128;
    let value: i128 = coordinate as i128;
    if value < lower {
        lower as i64
    } else if value > upper {
        upper as i64
    } else {
        coordinate
    }
}

/// The side of `collider` that `ball` meets it on, if they intersect.
///
/// The offset runs from the point of `collider` nearest to the ball's center to that
/// center. Where it is longer along x than along y the side is `Left` (the ball lies to
/// the left) or `Right`; else it is `Top` (the ball lies above) or `Bottom`. An offset as
/// long along both axes counts as vertical, and a zero offset as `Bottom`.
pub open spec fn side_of_impact(ball: Aabb, collider: Aabb) -> Option<Collision> {
    if !ball.overlaps(collider) {
        None
    } else {
        let dx = ball.center.x - collider.nearest_x(ball.center);
        let dy = ball.center.y - collider.nearest_y(ball.center);
        if magnitude(dx) > magnitude(dy) {
            if dx < 0 {
                Some(Collision::Left)
            } else {
                Some(Collision::Right)
            }
        } else if dy > 0 {
            Some(Collision::Top)
        } else {
            Some(Collision::Bottom)
        }
    }
}

/// Finds the side of `collider` that `ball` meets it on, or `None` where the two do not
/// intersect.
pub fn collide_with_side(ball: Aabb, collider: Aabb) -> (side: Option<Collision>)
    requires
        collider.wf(),
    ensures
        side == side_of_impact(ball, collider),
        side is Some <==> ball.overlaps(collider),
{
    if !ball.intersects(&collider) {
        return None;
    }
    let closest = collider.closest_point(ball.center);
    let dx: i128 = ball.center.x as i128 - closest.x as i128;
    let dy: i128 = ball.center.y as i128 - closest.y as i128;
    let abs_dx: i128 = if dx < 0 { -dx } else { dx };
    let abs_dy: i128 = if dy < 0 { -dy } else { dy };
    let side = if abs_dx > abs_dy {
        if dx < 0 {
            Collision::Left
        } else {
            Collision::Right
        }
    } else if dy > 0 {
        Collision::Top
    } else {
        Collision::Bottom
    };
    Some(side)
}

} // verus!
