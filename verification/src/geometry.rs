//! Points, sizes and axis-aligned rectangles on the fixed-point grid, and the
//! affine map that carries one rectangle onto another.

use crate::fixed::{
    clamp_i32, div_round, half, lemma_product_bound, lemma_round_div_magnitude, round_div,
    saturate, UNIT,
};
use vstd::prelude::*;

verus! {

/// A displacement or a size.
#[derive(Clone, Copy, Debug, PartialEq, Eq, Structural)]
pub struct Vec2 {
    pub x: i32,
    pub y: i32,
}

/// A position.
#[derive(Clone, Copy, Debug, PartialEq, Eq, Structural)]
pub struct Pos2 {
    pub x: i32,
    pub y: i32,
}

/// An axis-aligned rectangle, given by two opposite corners. It is empty
/// unless `min` lies to the upper left of `max`.
#[derive(Clone, Copy, Debug, PartialEq, Eq, Structural)]
pub struct Rect {
    pub min: Pos2,
    pub max: Pos2,
}

/// The squared Euclidean distance between two positions.
pub open spec fn dist_sq(a: Pos2, b: Pos2) -> int {
    (a.x - b.x) * (a.x - b.x) + (a.y - b.y) * (a.y - b.y)
}

/// How far `x` lies outside the interval from `lo` to `hi`; zero inside it.
pub open spec fn axis_gap(x: int, lo: int, hi: int) -> int {
    if lo > x {
        lo - x
    } else if x > hi {
        x - hi
    } else {
        0
    }
}

/// The image of `x` under the affine map that sends `f0` to `t0` and `f1` to
/// `t1`. Where the source interval has no positive length, everything is sent
/// to `t0`.
pub open spec fn remap(x: int, f0: int, f1: int, t0: int, t1: int) -> int {
    if f1 > f0 {
        t0 + round_div((x - f0) * (t1 - t0), f1 - f0)
    } else {
        t0
    }
}

/// The square of a difference of two coordinates.
pub(crate) fn square_of_difference(a: i32, b: i32) -> (r: u128)
    ensures
        r == (a - b) * (a - b),
        r <= 0x1_0000_0000_0000_0000,
{
    let d: i64 = a as i64 - b as i64;
    proof {
        lemma_product_bound(d as int, d as int, 0x1_0000_0000, 0x1_0000_0000);
        assert((d as int) * (d as int) >= 0) by (nonlinear_arith);
    }
    let sq: i128 = (d as i128) * (d as i128);
    sq as u128
}

/// `remap` on machine integers, saturated to a coordinate.
fn remap_coord(x: i32, f0: i32, f1: i32, t0: i32, t1: i32) -> (r: i32)
    ensures
        r == clamp_i32(remap(x as int, f0 as int, f1 as int, t0 as int, t1 as int)),
{
    if f1 > f0 {
        let dx: i128 = x as i128 - f0 as i128;
        let dt: i128 = t1 as i128 - t0 as i128;
        proof {
            lemma_product_bound(dx as int, dt as int, 0x1_0000_0000, 0x1_0000_0000);
        }
        let q: i128 = div_round(dx * dt, f1 as i128 - f0 as i128);
        proof {
            lemma_round_div_magnitude((dx as int) * (dt as int), f1 - f0);
        }
        saturate(t0 as i128 + q)
    } else {
        t0
    }
}

impl Vec2 {
    /// The zero displacement.
    pub fn zero() -> (v: Vec2)
        ensures
            v == (Vec2 { x: 0, y: 0 }),
    {
        Vec2 { x: 0, y: 0 }
    }
}

impl Pos2 {
    /// The origin.
    pub fn zero() -> (p: Pos2)
        ensures
            p == (Pos2 { x: 0, y: 0 }),
    {
        Pos2 { x: 0, y: 0 }
    }

    /// The squared Euclidean distance to `other`.
    pub fn distance_sq(&self, other: Pos2) -> (d: u128)
        ensures
            d == dist_sq(*self, other),
    {
        square_of_difference(self.x, other.x) + square_of_difference(self.y, other.y)
    }
}

impl Rect {
    /// The rectangle that contains nothing: the identity of `union`.
    pub open spec fn spec_nothing() -> Rect {
        Rect {
            min: Pos2 { x: i32::MAX, y: i32::MAX },
            max: Pos2 { x: i32::MIN, y: i32::MIN },
        }
    }

    /// The square of one whole unit at the origin.
    pub open spec fn spec_unit() -> Rect {
        Rect { min: Pos2 { x: 0, y: 0 }, max: Pos2 { x: UNIT, y: UNIT } }
    }

    /// The extent along the x axis; negative for an empty rectangle.
    pub open spec fn spec_width(self) -> int {
        self.max.x - self.min.x
    }

    /// The extent along the y axis; negative for an empty rectangle.
    pub open spec fn spec_height(self) -> int {
        self.max.y - self.min.y
    }

    /// Whether the rectangle has positive extent on both axes.
    pub open spec fn spec_is_positive(self) -> bool {
        self.min.x < self.max.x && self.min.y < self.max.y
    }

    /// The smallest rectangle that covers both.
    pub open spec fn spec_union(self, other: Rect) -> Rect {
        Rect {
            min: Pos2 {
                x: if self.min.x <= other.min.x { self.min.x } else { other.min.x },
                y: if self.min.y <= other.min.y { self.min.y } else { other.min.y },
            },
            max: Pos2 {
                x: if self.max.x >= other.max.x { self.max.x } else { other.max.x },
                y: if self.max.y >= other.max.y { self.max.y } else { other.max.y },
            },
        }
    }

    /// The midpoint, each coordinate rounded toward zero.
    pub open spec fn spec_center(self) -> Pos2 {
        Pos2 {
            x: half(self.min.x + self.max.x) as i32,
            y: half(self.min.y + self.max.y) as i32,
        }
    }

    /// Whether `p` lies in the rectangle, its border included.
    pub open spec fn spec_contains(self, p: Pos2) -> bool {
        self.min.x <= p.x <= self.max.x && self.min.y <= p.y <= self.max.y
    }

    /// The squared Euclidean distance from `p` to the rectangle; zero inside.
    pub open spec fn spec_distance_sq_to_pos(self, p: Pos2) -> int {
        let dx = axis_gap(p.x as int, self.min.x as int, self.max.x as int);
        let dy = axis_gap(p.y as int, self.min.y as int, self.max.y as int);
        dx * dx + dy * dy
    }

    /// The rectangle that contains nothing.
    pub fn nothing() -> (r: Rect)
        ensures
            r == Rect::spec_nothing(),
    {
        Rect {
            min: Pos2 { x: 2147483647, y: 2147483647 },
            max: Pos2 { x: -2147483648, y: -2147483648 },
        }
    }

    /// The square of one whole unit at the origin.
    pub fn unit() -> (r: Rect)
        ensures
            r == Rect::spec_unit(),
    {
        Rect { min: Pos2 { x: 0, y: 0 }, max: Pos2 { x: UNIT, y: UNIT } }
    }

    /// The rectangle between two corners.
    pub fn from_min_max(min: Pos2, max: Pos2) -> (r: Rect)
        ensures
            r == (Rect { min, max }),
    {
        Rect { min, max }
    }

    /// The extent along the x axis.
    pub fn width(&self) -> (w: i64)
        ensures
            w == self.spec_width(),
    {
        self.max.x as i64 - self.min.x as i64
    }

    /// The extent along the y axis.
    pub fn height(&self) -> (h: i64)
        ensures
            h == self.spec_height(),
    {
        self.max.y as i64 - self.min.y as i64
    }

    /// Whether the rectangle has positive extent on both axes.
    pub fn is_positive(&self) -> (b: bool)
        ensures
            b == self.spec_is_positive(),
    {
        self.min.x < self.max.x && self.min.y < self.max.y
    }

    /// The smallest rectangle that covers both.
    pub fn union(&self, other: Rect) -> (r: Rect)
        ensures
            r == self.spec_union(other),
    {
        Rect {
            min: Pos2 {
                x: if self.min.x <= other.min.x { self.min.x } else { other.min.x },
                y: if self.min.y <= other.min.y { self.min.y } else { other.min.y },
            },
            max: Pos2 {
                x: if self.max.x >= other.max.x { self.max.x } else { other.max.x },
                y: if self.max.y >= other.max.y { self.max.y } else { other.max.y },
            },
        }
    }

    /// The upper left corner.
    pub fn left_top(&self) -> (p: Pos2)
        ensures
            p == self.min,
    {
        self.min
    }

    /// The midpoint, each coordinate rounded toward zero.
    pub fn center(&self) -> (p: Pos2)
        ensures
            p == self.spec_center(),
    {
        Pos2 { x: midpoint(self.min.x, self.max.x), y: midpoint(self.min.y, self.max.y) }
    }

    /// Whether `p` lies in the rectangle, its border included.
    pub fn contains(&self, p: Pos2) -> (b: bool)
        ensures
            b == self.spec_contains(p),
    {
        self.min.x <= p.x && p.x <= self.max.x && self.min.y <= p.y && p.y <= self.max.y
    }

    /// The squared Euclidean distance from `p` to the rectangle; zero inside.
    pub fn distance_sq_to_pos(&self, p: Pos2) -> (d: u128)
        ensures
            d == self.spec_distance_sq_to_pos(p),
    {
        let nx: i32 = nearest_in_interval(p.x, self.min.x, self.max.x);
        let ny: i32 = nearest_in_interval(p.y, self.min.y, self.max.y);
        square_of_difference(p.x, nx) + square_of_difference(p.y, ny)
    }
}

/// The coordinate between `a` and `b`, rounded toward zero.
fn midpoint(a: i32, b: i32) -> (m: i32)
    ensures
        m == half(a + b),
{
    let sum: i64 = a as i64 + b as i64;
    if sum >= 0 {
        (sum / 2) as i32
    } else {
        (-((-sum) / 2)) as i32
    }
}

/// The point of the interval from `lo` to `hi` closest to `x`, or `x` itself
/// where the interval is empty and `x` lies between its ends.
fn nearest_in_interval(x: i32, lo: i32, hi: i32) -> (n: i32)
    ensures
        (x - n) * (x - n) == axis_gap(x as int, lo as int, hi as int) * axis_gap(
            x as int,
            lo as int,
            hi as int,
        ),
{
    if lo > x {
        assert((x - lo) * (x - lo) == (lo - x) * (lo - x)) by (nonlinear_arith);
        lo
    } else if x > hi {
        hi
    } else {
        x
    }
}

/// The affine map that carries the rectangle `from` onto the rectangle `to`.
#[derive(Clone, Copy, Debug, PartialEq, Eq, Structural)]
pub struct RectTransform {
    pub from: Rect,
    pub to: Rect,
}

impl RectTransform {
    /// Where the map sends `p`, held to the coordinate range.
    pub open spec fn spec_transform_pos(self, p: Pos2) -> Pos2 {
        Pos2 {
            x: clamp_i32(
                remap(
                    p.x as int,
                    self.from.min.x as int,
                    self.from.max.x as int,
                    self.to.min.x as int,
                    self.to.max.x as int,
                ),
            ) as i32,
            y: clamp_i32(
                remap(
                    p.y as int,
                    self.from.min.y as int,
                    self.from.max.y as int,
                    self.to.min.y as int,
                    self.to.max.y as int,
                ),
            ) as i32,
        }
    }

    /// The rectangle spanned by the images of the two corners of `r`.
    pub open spec fn spec_transform_rect(self, r: Rect) -> Rect {
        Rect { min: self.spec_transform_pos(r.min), max: self.spec_transform_pos(r.max) }
    }

    /// The map in the opposite direction.
    pub open spec fn spec_inverse(self) -> RectTransform {
        RectTransform { from: self.to, to: self.from }
    }

    /// The map that carries `from` onto `to`.
    pub fn from_to(from: Rect, to: Rect) -> (t: RectTransform)
        ensures
            t == (RectTransform { from, to }),
    {
        RectTransform { from, to }
    }

    /// The map in the opposite direction.
    pub fn inverse(&self) -> (t: RectTransform)
        ensures
            t == self.spec_inverse(),
    {
        RectTransform { from: self.to, to: self.from }
    }

    /// Where the map sends `p`, rounded to the grid and held to the coordinate
    /// range.
    pub fn transform_pos(&self, p: Pos2) -> (q: Pos2)
        ensures
            q == self.spec_transform_pos(p),
    {
        Pos2 {
            x: remap_coord(p.x, self.from.min.x, self.from.max.x, self.to.min.x, self.to.max.x),
            y: remap_coord(p.y, self.from.min.y, self.from.max.y, self.to.min.y, self.to.max.y),
        }
    }

    /// The rectangle spanned by the images of the two corners of `r`.
    pub fn transform_rect(&self, r: Rect) -> (q: Rect)
        ensures
            q == self.spec_transform_rect(r),
    {
        Rect { min: self.transform_pos(r.min), max: self.transform_pos(r.max) }
    }
}

} // verus!
