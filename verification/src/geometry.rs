//! Integer points and axis-aligned rectangles, and the hit tests the games
//! share.

use vstd::prelude::*;

verus! {

/// A point on the pixel or tile grid; `y` grows downwards.
#[derive(Clone, Copy, Debug, PartialEq, Eq, Structural)]
pub struct Coord {
    pub x: isize,
    pub y: isize,
}

/// Half of `v`, rounded towards zero.
pub open spec fn half_toward_zero(v: int) -> int {
    if v >= 0 {
        v / 2
    } else {
        -((-v) / 2)
    }
}

impl Coord {
    /// The point `(x, y)`.
    pub fn new(x: isize, y: isize) -> (c: Coord)
        ensures
            c == (Coord { x, y }),
    {
        Coord { x, y }
    }

    /// This point moved by `(dx, dy)`.
    pub open spec fn plus(self, dx: int, dy: int) -> (int, int) {
        (self.x + dx, self.y + dy)
    }

    /// This point moved by `(dx, dy)`.
    pub fn translated(&self, dx: isize, dy: isize) -> (c: Coord)
        requires
            isize::MIN <= self.x + dx <= isize::MAX,
            isize::MIN <= self.y + dy <= isize::MAX,
        ensures
            c.x == self.x + dx,
            c.y == self.y + dy,
    {
        Coord { x: self.x + dx, y: self.y + dy }
    }
}

/// An axis-aligned rectangle given by its four edges, all of which belong to
/// it.
#[derive(Clone, Copy, Debug, PartialEq, Eq, Structural)]
pub struct Rect {
    pub left: isize,
    pub top: isize,
    pub right: isize,
    pub bottom: isize,
}

impl Rect {
    /// Whether `p` lies in the rectangle, edges included.
    pub open spec fn holds(self, p: Coord) -> bool {
        self.left <= p.x <= self.right && self.top <= p.y <= self.bottom
    }

    /// Whether the rectangle has any point at all.
    pub open spec fn is_inhabited(self) -> bool {
        self.left <= self.right && self.top <= self.bottom
    }

    /// Whether the two rectangles share a point: their interiors overlap, one
    /// lies inside the other, or they touch on an edge or a corner.
    pub open spec fn meets(self, other: Rect) -> bool {
        exists|p: Coord| self.holds(p) && other.holds(p)
    }

    /// The rectangle moved by `(dx, dy)`.
    pub open spec fn shifted(self, dx: int, dy: int) -> (int, int, int, int) {
        (self.left + dx, self.top + dy, self.right + dx, self.bottom + dy)
    }

    /// The rectangle as its four edges.
    pub open spec fn edges(self) -> (int, int, int, int) {
        (self.left as int, self.top as int, self.right as int, self.bottom as int)
    }

    /// The middle of the rectangle, each coordinate rounded towards zero.
    pub open spec fn middle(self) -> (int, int) {
        (half_toward_zero(self.left + self.right), half_toward_zero(self.top + self.bottom))
    }

    /// The rectangle spanned by two opposite corners, in either order.
    pub fn new(a: Coord, b: Coord) -> (r: Rect)
        ensures
            r.left == if a.x <= b.x { a.x } else { b.x },
            r.right == if a.x <= b.x { b.x } else { a.x },
            r.top == if a.y <= b.y { a.y } else { b.y },
            r.bottom == if a.y <= b.y { b.y } else { a.y },
            r.is_inhabited(),
            r.holds(a),
            r.holds(b),
    {
        Rect {
            left: if a.x <= b.x { a.x } else { b.x },
            top: if a.y <= b.y { a.y } else { b.y },
            right: if a.x <= b.x { b.x } else { a.x },
            bottom: if a.y <= b.y { b.y } else { a.y },
        }
    }

    /// The rectangle whose top left corner is `start` and whose far edges lie
    /// `width` to the right and `height` below.
    pub fn new_with_size(start: Coord, width: usize, height: usize) -> (r: Rect)
        requires
            width <= isize::MAX,
            height <= isize::MAX,
            start.x + width <= isize::MAX,
            start.y + height <= isize::MAX,
        ensures
            r.edges() == (start.x as int, start.y as int, start.x + width, start.y + height),
    {
        Rect {
            left: start.x,
            top: start.y,
            right: start.x + width as isize,
            bottom: start.y + height as isize,
        }
    }

    /// Point-in-rectangle test, inclusive on all four edges.
    pub fn contains(&self, p: Coord) -> (inside: bool)
        ensures
            inside == self.holds(p),
    {
        self.left <= p.x && p.x <= self.right && self.top <= p.y && p.y <= self.bottom
    }

    /// Rectangle-against-rectangle test: true when the two overlap or touch.
    pub fn intersects_rect(&self, other: &Rect) -> (hit: bool)
        ensures
            hit == self.meets(*other),
    {
        let left = if self.left >= other.left { self.left } else { other.left };
        let right = if self.right <= other.right { self.right } else { other.right };
        let top = if self.top >= other.top { self.top } else { other.top };
        let bottom = if self.bottom <= other.bottom { self.bottom } else { other.bottom };
        let hit = left <= right && top <= bottom;
        proof {
            if hit {
                let p = Coord { x: left, y: top };
                assert(self.holds(p) && other.holds(p));
            }
        }
        hit
    }

    /// The rectangle moved by `(dx, dy)`.
    pub fn translated(&self, dx: isize, dy: isize) -> (r: Rect)
        requires
            isize::MIN <= self.left + dx,
            self.right + dx <= isize::MAX,
            isize::MIN <= self.top + dy,
            self.bottom + dy <= isize::MAX,
            self.is_inhabited(),
        ensures
            r.edges() == self.shifted(dx as int, dy as int),
    {
        Rect {
            left: self.left + dx,
            top: self.top + dy,
            right: self.right + dx,
            bottom: self.bottom + dy,
        }
    }

    /// The rectangle moved so that its top left corner is `to`.
    pub fn moved_to(&self, to: Coord) -> (r: Rect)
        requires
            self.is_inhabited(),
            self.right - self.left <= isize::MAX,
            self.bottom - self.top <= isize::MAX,
            to.x + (self.right - self.left) <= isize::MAX,
            to.y + (self.bottom - self.top) <= isize::MAX,
        ensures
            r.edges() == (
                to.x as int,
                to.y as int,
                to.x + (self.right - self.left),
                to.y + (self.bottom - self.top),
            ),
    {
        Rect {
            left: to.x,
            top: to.y,
            right: to.x + (self.right - self.left),
            bottom: to.y + (self.bottom - self.top),
        }
    }

    /// The middle of the rectangle, each coordinate rounded towards zero.
    pub fn center(&self) -> (c: Coord)
        requires
            isize::MIN <= self.left + self.right <= isize::MAX,
            isize::MIN <= self.top + self.bottom <= isize::MAX,
        ensures
            (c.x as int, c.y as int) == self.middle(),
    {
        Coord { x: (self.left + self.right) / 2, y: (self.top + self.bottom) / 2 }
    }
}

/// Two rectangles meet exactly when, on each axis, the larger of their near
/// edges does not pass the smaller of their far edges.
pub proof fn lemma_meets_by_edges(a: Rect, b: Rect)
    ensures
        a.meets(b) <==> {
            &&& a.left <= a.right && b.left <= b.right
            &&& a.top <= a.bottom && b.top <= b.bottom
            &&& a.left <= b.right && b.left <= a.right
            &&& a.top <= b.bottom && b.top <= a.bottom
        },
{
    if a.left <= a.right && b.left <= b.right && a.top <= a.bottom && b.top <= b.bottom
        && a.left <= b.right && b.left <= a.right && a.top <= b.bottom && b.top <= a.bottom {
        let p = Coord {
            x: if a.left >= b.left { a.left } else { b.left },
            y: if a.top >= b.top { a.top } else { b.top },
        };
        assert(a.holds(p) && b.holds(p));
    }
}

/// Meeting is symmetric.
pub proof fn lemma_meets_symmetric(a: Rect, b: Rect)
    ensures
        a.meets(b) == b.meets(a),
{
    lemma_meets_by_edges(a, b);
    lemma_meets_by_edges(b, a);
}

/// Whether `degrees` is one of the eight compass headings 0, 45, .., 315.
pub open spec fn is_compass(degrees: int) -> bool {
    0 <= degrees < 360 && degrees % 45 == 0
}

/// The step of length one that a compass heading stands for, as `(dx, dy)`:
/// heading 0 points up the screen and headings grow clockwise.
pub open spec fn compass_step(degrees: int) -> (int, int) {
    if degrees == 0 {
        (0, -1)
    } else if degrees == 45 {
        (1, -1)
    } else if degrees == 90 {
        (1, 0)
    } else if degrees == 135 {
        (1, 1)
    } else if degrees == 180 {
        (0, 1)
    } else if degrees == 225 {
        (-1, 1)
    } else if degrees == 270 {
        (-1, 0)
    } else {
        (-1, -1)
    }
}

/// Calls `graphics_shapes::coord::Coord::from_angle`, which returns the point
/// at `distance` from `center` in the direction `degrees`, computed with
/// single-precision sine and cosine and rounded to the grid. Trusted: for a
/// distance of one and a compass heading the rounded offsets are those of
/// `compass_step`.
#[verifier::external_body]
pub(crate) fn point_on_circle(center: Coord, distance: usize, degrees: isize) -> (p: Coord)
    requires
        distance == 1,
        is_compass(degrees as int),
        isize::MIN < center.x < isize::MAX,
        isize::MIN < center.y < isize::MAX,
    ensures
        p.x == center.x + compass_step(degrees as int).0,
        p.y == center.y + compass_step(degrees as int).1,
{
    let p = graphics_shapes::coord::Coord::from_angle((center.x, center.y), distance, degrees);
    Coord { x: p.x, y: p.y }
}

} // verus!
