//! Collision geometry and entity types: axis-aligned rectangles with
//! overlap testing, impact-side classification, saturating translation,
//! and containment clamping.

use vstd::prelude::*;

verus! {

/// A vector in 2D space, used for per-tick velocities in cells/tick.
#[derive(Clone, Copy, Debug, PartialEq, Eq, Structural)]
pub struct Vec2d {
    pub x: i16,
    pub y: i16,
}

/// The size of the playfield (or of any rectangle) in terminal cells.
#[derive(Clone, Copy, Debug, PartialEq, Eq, Structural)]
pub struct Size {
    pub w: u16,
    pub h: u16,
}

/// An axis-aligned rectangle with a top-left corner and width + height.
/// Its right edge is `x + w` and its bottom edge is `y + h`.
#[derive(Clone, Copy, Debug, PartialEq, Eq, Structural)]
pub struct Square {
    pub x: u16,
    pub y: u16,
    pub w: u16,
    pub h: u16,
}

/// The side of a rectangle that another rectangle struck.
#[allow(non_camel_case_types)]
#[derive(Clone, Copy, Debug, PartialEq, Eq, Structural)]
pub enum Direction {
    UP,
    RIGHT,
    DOWN,
    LEFT,
}

/// A display color for a drawable entity.
#[derive(Clone, Copy, Debug, PartialEq, Eq, Structural)]
pub enum Color {
    Magenta,
    Grey,
    Yellow,
    Green,
    Cyan,
    Red,
}

/// An entity that can be moved by the player; its velocity is set anew every
/// tick from the input.
#[derive(Clone, Copy, Debug, PartialEq, Eq, Structural)]
pub struct PlayerEntity {
    pub collider: Square,
    pub speed: Vec2d,
    pub alive: bool,
}

/// An entity that moves on its own; its velocity persists and is changed only
/// by collision response.
#[derive(Clone, Copy, Debug, PartialEq, Eq, Structural)]
pub struct PhysicsEntity {
    pub collider: Square,
    pub speed: Vec2d,
    pub alive: bool,
}

/// An entity that never moves; destroyed once, it stays in storage as a
/// tombstone with `alive == false`.
#[derive(Clone, Copy, Debug, PartialEq, Eq, Structural)]
pub struct StaticEntity {
    pub collider: Square,
    pub alive: bool,
    pub color: Color,
}

/// Two rectangles overlap iff their intervals overlap strictly on both axes;
/// touching edges (an equal boundary coordinate) do not count as overlap.
pub open spec fn spec_overlaps(a: Square, b: Square) -> bool {
    &&& a.x < b.x + b.w
    &&& a.x + a.w > b.x
    &&& a.y < b.y + b.h
    &&& a.y + a.h > b.y
}

/// A coordinate translated by a signed delta, saturating at 0 and at the
/// largest `u16` value.
pub open spec fn sat_coord(p: int, d: int) -> int {
    if p + d < 0 {
        0
    } else if p + d > 0xffff {
        0xffff
    } else {
        p + d
    }
}

/// A coordinate repositioned so that an edge at `p + len` does not pass
/// `bound`; unchanged when it already does not.
pub open spec fn clamp_coord(p: int, len: int, bound: int) -> int {
    if bound < p + len {
        bound - len
    } else {
        p
    }
}

/// A rectangle translated by a velocity, both axes saturating.
pub open spec fn spec_translated(sq: Square, v: Vec2d) -> Square {
    Square {
        x: sat_coord(sq.x as int, v.x as int) as u16,
        y: sat_coord(sq.y as int, v.y as int) as u16,
        w: sq.w,
        h: sq.h,
    }
}

/// A rectangle clamped so that its right and bottom edges stay inside `bounds`.
pub open spec fn spec_clamped(sq: Square, bounds: Size) -> Square {
    Square {
        x: clamp_coord(sq.x as int, sq.w as int, bounds.w as int) as u16,
        y: clamp_coord(sq.y as int, sq.h as int, bounds.h as int) as u16,
        w: sq.w,
        h: sq.h,
    }
}

/// A full movement step: translate with saturation, then clamp into bounds.
pub open spec fn spec_moved(sq: Square, v: Vec2d, bounds: Size) -> Square {
    spec_clamped(spec_translated(sq, v), bounds)
}

/// The horizontal component of a rectangle's center point.
pub open spec fn spec_center_x(sq: Square) -> int {
    sq.x + sq.w / 2
}

/// The vertical component of a rectangle's "center" point. Deliberately
/// `y + y/2` (from the rectangle's own position, not its height): gameplay
/// (which half of a paddle was struck, which side of a block) depends on this
/// exact formula, so it is kept as the authoritative behavior rather than
/// replaced by a true centroid.
pub open spec fn spec_center_y(sq: Square) -> int {
    sq.y + sq.y / 2
}

/// Classifies the direction of the point `(dx, dy)` into one of four sectors.
///
/// The sectors are the buckets of the polar angle `atan2(dy, dx)` (range
/// `(-pi, pi]`) shifted by `pi/8`: angles below `pi/8` are RIGHT (this catches
/// the whole lower half-plane), `[pi/8, 3pi/8)` is UP, `[3pi/8, 5pi/8)` is
/// LEFT, and `[5pi/8, pi]` is DOWN. The comparisons against the sector
/// boundaries are carried out exactly in integer arithmetic: with `dy > 0`
/// and `dx > 0`, `atan2(dy, dx) < pi/8` iff `dy < dx * tan(pi/8)`, and since
/// `tan(pi/8) = sqrt(2) - 1`, that holds iff `(dy + dx)^2 < 2 * dx^2`; the
/// other boundaries use `tan(3pi/8) = sqrt(2) + 1` the same way. Equality
/// never occurs for integer inputs off the axes (`sqrt(2)` is irrational), so
/// the strict comparisons agree with the real-valued classification.
pub open spec fn spec_classify(dy: int, dx: int) -> Direction {
    if dy < 0 {
        Direction::RIGHT
    } else if dy == 0 {
        if dx < 0 {
            Direction::DOWN
        } else {
            Direction::RIGHT
        }
    } else if dx > 0 && (dy + dx) * (dy + dx) < 2 * (dx * dx) {
        Direction::RIGHT
    } else if dx > 0 && (dy - dx < 0 || (dy - dx) * (dy - dx) < 2 * (dx * dx)) {
        Direction::UP
    } else if dx >= 0 {
        Direction::LEFT
    } else if dy + dx > 0 && (dy + dx) * (dy + dx) > 2 * (dx * dx) {
        Direction::LEFT
    } else {
        Direction::DOWN
    }
}

/// The side of `other` that `self` struck, for two overlapping rectangles:
/// the sector of the vector from `other`'s center to `self`'s center.
pub open spec fn spec_collision_direction(a: Square, b: Square) -> Direction {
    spec_classify(spec_center_y(a) - spec_center_y(b), spec_center_x(a) - spec_center_x(b))
}

/// The square of a smallish value fits comfortably in 64 bits.
proof fn lemma_small_square_bounded(v: int)
    by (nonlinear_arith)
    requires
        -0x20000 <= v <= 0x20000,
    ensures
        0 <= v * v <= 0x4_0000_0000,
{
}

impl Square {
    /// The overlap test used for all impact detection.
    pub fn collides_with(&self, other: &Square) -> (r: bool)
        ensures
            r == spec_overlaps(*self, *other),
    {
        (self.x as u32) < (other.x as u32) + (other.w as u32)
            && (self.x as u32) + (self.w as u32) > (other.x as u32)
            && (self.y as u32) < (other.y as u32) + (other.h as u32)
            && (self.y as u32) + (self.h as u32) > (other.y as u32)
    }

    /// The rectangle's "center" point; see `spec_center_x` and
    /// `spec_center_y` for the exact (deliberately asymmetric) formula.
    pub fn get_center(&self) -> (r: Vec2d)
        requires
            self.x + self.w / 2 <= 0x7fff,
            self.y + self.y / 2 <= 0x7fff,
        ensures
            r.x == spec_center_x(*self),
            r.y == spec_center_y(*self),
    {
        let cx: u16 = self.x + self.w / 2;
        let cy: u16 = self.y + self.y / 2;
        Vec2d { x: cx as i16, y: cy as i16 }
    }

    /// The side of `other` that `self` struck, assuming the two rectangles
    /// already overlap. Buckets the angle of the vector between the two
    /// centers into four sectors; see `spec_classify`.
    pub fn get_collision_direction(&self, other: &Square) -> (r: Direction)
        requires
            self.x + self.w / 2 <= 0x7fff,
            self.y + self.y / 2 <= 0x7fff,
            other.x + other.w / 2 <= 0x7fff,
            other.y + other.y / 2 <= 0x7fff,
        ensures
            r == spec_collision_direction(*self, *other),
    {
        let self_center = self.get_center();
        let other_center = other.get_center();
        let dy: i64 = (self_center.y as i64) - (other_center.y as i64);
        let dx: i64 = (self_center.x as i64) - (other_center.x as i64);
        proof {
            lemma_small_square_bounded(dy + dx);
            lemma_small_square_bounded(dy - dx);
            lemma_small_square_bounded(dx as int);
        }
        if dy < 0 {
            Direction::RIGHT
        } else if dy == 0 {
            if dx < 0 {
                Direction::DOWN
            } else {
                Direction::RIGHT
            }
        } else if dx > 0 && (dy + dx) * (dy + dx) < 2 * (dx * dx) {
            Direction::RIGHT
        } else if dx > 0 && (dy - dx < 0 || (dy - dx) * (dy - dx) < 2 * (dx * dx)) {
            Direction::UP
        } else if dx >= 0 {
            Direction::LEFT
        } else if dy + dx > 0 && (dy + dx) * (dy + dx) > 2 * (dx * dx) {
            Direction::LEFT
        } else {
            Direction::DOWN
        }
    }

    /// Translates the rectangle horizontally, saturating at 0 and at the
    /// largest coordinate; a zero delta short-circuits.
    pub fn move_x(&mut self, x: i16)
        ensures
            final(self).x == sat_coord(old(self).x as int, x as int),
            final(self).y == old(self).y,
            final(self).w == old(self).w,
            final(self).h == old(self).h,
    {
        if x == 0 {
            return;
        } else if x < 0 {
            let mag_wide: i32 = -(x as i32);
            let mag: u16 = mag_wide as u16;
            if self.x >= mag {
                self.x = self.x - mag;
            } else {
                self.x = 0;
            }
        } else {
            let mag: u16 = x as u16;
            if self.x <= 0xffff - mag {
                self.x = self.x + mag;
            } else {
                self.x = 0xffff;
            }
        }
    }

    /// Translates the rectangle vertically, saturating at 0 and at the
    /// largest coordinate; a zero delta short-circuits.
    pub fn move_y(&mut self, y: i16)
        ensures
            final(self).y == sat_coord(old(self).y as int, y as int),
            final(self).x == old(self).x,
            final(self).w == old(self).w,
            final(self).h == old(self).h,
    {
        if y == 0 {
            return;
        } else if y < 0 {
            let mag_wide: i32 = -(y as i32);
            let mag: u16 = mag_wide as u16;
            if self.y >= mag {
                self.y = self.y - mag;
            } else {
                self.y = 0;
            }
        } else {
            let mag: u16 = y as u16;
            if self.y <= 0xffff - mag {
                self.y = self.y + mag;
            } else {
                self.y = 0xffff;
            }
        }
    }

    /// Repositions the rectangle so that it lies inside the given bounds:
    /// if the right (or bottom) edge passes the bound, the rectangle is moved
    /// back so that the edge sits exactly on it.
    pub fn keep_inside(&mut self, screen_size: Size)
        requires
            old(self).w <= screen_size.w,
            old(self).h <= screen_size.h,
        ensures
            *final(self) == spec_clamped(*old(self), screen_size),
    {
        if (screen_size.w as u32) < (self.x as u32) + (self.w as u32) {
            self.x = screen_size.w - self.w;
        }
        if (screen_size.h as u32) < (self.y as u32) + (self.h as u32) {
            self.y = screen_size.h - self.h;
        }
    }
}

impl PlayerEntity {
    /// Moves the entity by its velocity (x, then y, both saturating), then
    /// clamps the collider back inside the bounds. This is the only way the
    /// entity ever moves.
    pub fn apply_speed(&mut self, bounds: Size)
        requires
            old(self).collider.w <= bounds.w,
            old(self).collider.h <= bounds.h,
        ensures
            final(self).collider == spec_moved(old(self).collider, old(self).speed, bounds),
            final(self).speed == old(self).speed,
            final(self).alive == old(self).alive,
    {
        self.collider.move_x(self.speed.x);
        self.collider.move_y(self.speed.y);
        self.collider.keep_inside(bounds);
    }
}

impl PhysicsEntity {
    /// Moves the entity by its velocity (x, then y, both saturating), then
    /// clamps the collider back inside the bounds. This is the only way the
    /// entity ever moves.
    pub fn apply_speed(&mut self, bounds: Size)
        requires
            old(self).collider.w <= bounds.w,
            old(self).collider.h <= bounds.h,
        ensures
            final(self).collider == spec_moved(old(self).collider, old(self).speed, bounds),
            final(self).speed == old(self).speed,
            final(self).alive == old(self).alive,
    {
        self.collider.move_x(self.speed.x);
        self.collider.move_y(self.speed.y);
        self.collider.keep_inside(bounds);
    }
}

/// The overlap test is symmetric: `a` collides with `b` exactly when `b`
/// collides with `a`.
pub proof fn lemma_overlap_symmetric(a: Square, b: Square)
    ensures
        spec_overlaps(a, b) == spec_overlaps(b, a),
{
}

/// Rectangles that merely touch do not overlap: if one boundary coordinate
/// is shared (for instance `a`'s right edge equals `b`'s left edge), the two
/// rectangles do not collide.
pub proof fn lemma_edge_touch_no_overlap(a: Square, b: Square)
    ensures
        a.x + a.w == b.x ==> !spec_overlaps(a, b),
        b.x + b.w == a.x ==> !spec_overlaps(a, b),
        a.y + a.h == b.y ==> !spec_overlaps(a, b),
        b.y + b.h == a.y ==> !spec_overlaps(a, b),
{
}

/// Clamping into bounds is idempotent: a second `keep_inside` with the same
/// bounds leaves the rectangle where the first put it.
pub proof fn lemma_keep_inside_idempotent(sq: Square, bounds: Size)
    requires
        sq.w <= bounds.w,
        sq.h <= bounds.h,
    ensures
        spec_clamped(spec_clamped(sq, bounds), bounds) == spec_clamped(sq, bounds),
{
}

} // verus!
