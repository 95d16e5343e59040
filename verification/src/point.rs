//! An integer point in the plane: construction, in-place translation,
//! squared distance, and a drawable text form.

use vstd::prelude::*;
use vstd::string::StringExecFns;
use crate::render;

verus! {

/// A point in the plane with integer coordinates.
pub struct Point {
    pub x: i32,
    pub y: i32,
}

impl Point {
    /// The origin, `(0, 0)`.
    pub fn origin() -> (p: Self)
        ensures
            p.x == 0,
            p.y == 0,
    {
        Self { x: 0, y: 0 }
    }

    /// Builds the point `(x, y)`.
    pub fn new(x: i32, y: i32) -> (p: Self)
        ensures
            p.x == x,
            p.y == y,
    {
        Self { x, y }
    }

    /// Moves the point in place by `(dx, dy)`: each delta is added to
    /// the matching coordinate.
    pub fn translate(&mut self, dx: i32, dy: i32)
        requires
            i32::MIN <= old(self).x + dx <= i32::MAX,
            i32::MIN <= old(self).y + dy <= i32::MAX,
        ensures
            final(self).x == old(self).x + dx,
            final(self).y == old(self).y + dy,
    {
        self.x = self.x + dx;
        self.y = self.y + dy;
    }
}

/// The squared Euclidean distance between `p` and `q`.
pub open spec fn spec_distance_squared(p: Point, q: Point) -> int {
    (p.x - q.x) * (p.x - q.x) + (p.y - q.y) * (p.y - q.y)
}

/// A square of an integer of up to 33 bits is non-negative and fits
/// well inside 65 bits; it is zero exactly for zero.
proof fn lemma_square_bounds(a: int)
    requires
        -0x1_0000_0000 <= a <= 0x1_0000_0000,
    ensures
        0 <= a * a <= 0x1_0000_0000_0000_0000,
        a * a == 0 <==> a == 0,
{
    assert(0 <= a * a <= 0x1_0000_0000_0000_0000 && (a * a == 0 <==> a == 0))
        by (nonlinear_arith)
        requires
            -0x1_0000_0000 <= a <= 0x1_0000_0000,
    ;
}

/// The squared Euclidean distance between two points. It is zero
/// exactly when the two points coincide.
pub fn distance_squared(p: &Point, q: &Point) -> (d: u128)
    ensures
        d == spec_distance_squared(*p, *q),
        d == 0 <==> p.x == q.x && p.y == q.y,
{
    let dx: i64 = (p.x as i64) - (q.x as i64);
    let dy: i64 = (p.y as i64) - (q.y as i64);
    proof {
        lemma_square_bounds(dx as int);
        lemma_square_bounds(dy as int);
    }
    let sum: i128 = (dx as i128) * (dx as i128) + (dy as i128) * (dy as i128);
    sum as u128
}

/// The text that drawing the point `(x, y)` produces.
pub open spec fn drawn_text(x: int, y: int) -> Seq<char> {
    "Drawing point at ("@ + render::int_chars(x) + ", "@ + render::int_chars(y) + ")"@
}

/// A value that can be drawn; here drawing produces a line of text.
pub trait Drawable {
    /// The text that drawing the value produces.
    spec fn drawn(&self) -> Seq<char>;

    /// Renders the value's drawing as text.
    fn draw(&self) -> (s: String)
        ensures
            s@ == self.drawn(),
    ;
}

impl Drawable for Point {
    open spec fn drawn(&self) -> Seq<char> {
        drawn_text(self.x as int, self.y as int)
    }

    fn draw(&self) -> (s: String) {
        let mut s = String::from_str("Drawing point at (");
        let xs = render::int_string(self.x);
        s.append(xs.as_str());
        s.append(", ");
        let ys = render::int_string(self.y);
        s.append(ys.as_str());
        s.append(")");
        proof {
            assert(s@ =~= self.drawn());
        }
        s
    }
}

} // verus!
