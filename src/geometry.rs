use vstd::prelude::*;
use vstd::math::abs;
use crate::units::WIDE_LIMIT;

verus! {

/// Axis-aligned rectangle: `x`, `y` is its top-left corner, y grows downward.
#[derive(Clone, Copy, Debug, PartialEq, Eq, Structural)]
pub struct Rectangle {
    pub x: i128,
    pub y: i128,
    pub width: i128,
    pub height: i128,
}

/// Side of an obstacle on which a horizontal collision was resolved.
#[derive(Clone, Copy, Debug, PartialEq, Eq, Structural)]
pub enum CollisionDirection {
    /// The rectangle was pushed out to the obstacle's left.
    Left,
    /// The rectangle was pushed out to the obstacle's right.
    Right,
}

impl Rectangle {
    /// Corner and extents small enough for the collision arithmetic, with
    /// extents that are not negative.
    pub open spec fn is_bounded(self) -> bool {
        &&& -WIDE_LIMIT <= self.x <= WIDE_LIMIT
        &&& -WIDE_LIMIT <= self.y <= WIDE_LIMIT
        &&& 0 <= self.width <= WIDE_LIMIT
        &&& 0 <= self.height <= WIDE_LIMIT
    }

    /// The two rectangles overlap on both axes; touching edges do not count.
    pub open spec fn overlaps(self, other: Rectangle) -> bool {
        &&& self.x < other.x + other.width
        &&& self.x + self.width > other.x
        &&& self.y < other.y + other.height
        &&& self.y + self.height > other.y
    }

    /// Offset along x between points one eighth into each rectangle.
    pub open spec fn biased_dx(self, other: Rectangle) -> int {
        (self.x + self.width / 8) - (other.x + other.width / 8)
    }

    /// Offset along y between points one eighth into each rectangle.
    pub open spec fn biased_dy(self, other: Rectangle) -> int {
        (self.y + self.height / 8) - (other.y + other.height / 8)
    }

    /// `self` pushed out of `other` along the axis of the larger biased offset,
    /// toward the side that the offset's sign points to.
    pub open spec fn pushed_out_of(self, other: Rectangle) -> Rectangle {
        let dx = self.biased_dx(other);
        let dy = self.biased_dy(other);
        if abs(dx) > abs(dy) {
            if dx > 0 {
                Rectangle { x: (other.x + other.width) as i128, ..self }
            } else {
                Rectangle { x: (other.x - self.width) as i128, ..self }
            }
        } else {
            if dy > 0 {
                Rectangle { y: (other.y + other.height) as i128, ..self }
            } else {
                Rectangle { y: (other.y - self.height) as i128, ..self }
            }
        }
    }

    /// Side of `other` on which `self` ends after a horizontal push-out: the
    /// left when its right edge reaches into `other` by less than `other`'s
    /// right edge reaches into it.
    pub open spec fn horizontal_side(self, other: Rectangle) -> CollisionDirection {
        let overlap_left = (self.x + self.width) - other.x;
        let overlap_right = (other.x + other.width) - self.x;
        if abs(overlap_left) < abs(overlap_right) {
            CollisionDirection::Left
        } else {
            CollisionDirection::Right
        }
    }

    /// `self` moved along x to sit against the side of `other` given by
    /// `horizontal_side`.
    pub open spec fn pushed_out_horizontally(self, other: Rectangle) -> Rectangle {
        match self.horizontal_side(other) {
            CollisionDirection::Left => Rectangle { x: (other.x - self.width) as i128, ..self },
            CollisionDirection::Right => Rectangle { x: (other.x + other.width) as i128, ..self },
        }
    }

    /// Whether the two rectangles overlap.
    pub fn intersects(&self, other: &Rectangle) -> (r: bool)
        requires
            self.is_bounded(),
            other.is_bounded(),
        ensures
            r == self.overlaps(*other),
    {
        self.x < other.x + other.width && self.x + self.width > other.x && self.y < other.y
            + other.height && self.y + self.height > other.y
    }

    /// Whether the two rectangles overlap; the test used by horizontal probes.
    pub fn intersects_horizontally(&self, other: &Rectangle) -> (r: bool)
        requires
            self.is_bounded(),
            other.is_bounded(),
        ensures
            r == self.overlaps(*other),
    {
        self.x < other.x + other.width && self.x + self.width > other.x && self.y < other.y
            + other.height && self.y + self.height > other.y
    }

    /// Moves `self` out of `other` along one axis (see `pushed_out_of`).
    pub fn resolve_collision(&mut self, other: &Rectangle)
        requires
            old(self).is_bounded(),
            other.is_bounded(),
        ensures
            *final(self) == old(self).pushed_out_of(*other),
    {
        let dx: i128 = (self.x + self.width / 8) - (other.x + other.width / 8);
        let dy: i128 = (self.y + self.height / 8) - (other.y + other.height / 8);
        let adx: i128 = if dx < 0 { -dx } else { dx };
        let ady: i128 = if dy < 0 { -dy } else { dy };
        if adx > ady {
            if dx > 0 {
                self.x = other.x + other.width;
            } else {
                self.x = other.x - self.width;
            }
        } else {
            if dy > 0 {
                self.y = other.y + other.height;
            } else {
                self.y = other.y - self.height;
            }
        }
    }

    /// Moves `self` along x out of `other` and reports on which side of
    /// `other` it now stands.
    pub fn resolve_horizontal_collision(&mut self, other: &Rectangle) -> (side: CollisionDirection)
        requires
            old(self).is_bounded(),
            other.is_bounded(),
        ensures
            side == old(self).horizontal_side(*other),
            *final(self) == old(self).pushed_out_horizontally(*other),
    {
        let overlap_left: i128 = (self.x + self.width) - other.x;
        let overlap_right: i128 = (other.x + other.width) - self.x;
        let abs_left: i128 = if overlap_left < 0 { -overlap_left } else { overlap_left };
        let abs_right: i128 = if overlap_right < 0 { -overlap_right } else { overlap_right };
        if abs_left < abs_right {
            self.x = self.x - overlap_left;
            CollisionDirection::Left
        } else {
            self.x = self.x + overlap_right;
            CollisionDirection::Right
        }
    }
}

} // verus!
