//! Points of the plane and the point-in-triangle test.

use vstd::prelude::*;

verus! {

/// How many coordinate steps make one world unit: coordinates are thousandths of a unit.
pub const UNIT: i32 = 1000;

/// A position in the world, in thousandths of a world unit.
#[derive(Clone, Copy, Debug, PartialEq, Eq, Structural)]
pub struct Point {
    pub x: i32,
    pub y: i32,
}

/// Twice the signed area of the triangle `a b c`: positive when the three corners turn
/// one way round, negative when they turn the other way, zero when they lie on one line.
pub open spec fn signed_area2(a: Point, b: Point, c: Point) -> int {
    a.x * (b.y - c.y) + b.x * (c.y - a.y) + c.x * (a.y - b.y)
}

/// Twice the area of the triangle `a b c`.
pub open spec fn area2(a: Point, b: Point, c: Point) -> nat {
    let s = signed_area2(a, b, c);
    if s >= 0 { s as nat } else { (-s) as nat }
}

/// Whether `p` lies in the closed triangle `a b c`: on each side's line or on the side of
/// it where the opposite corner lies. Of a triangle whose corners lie on one line this
/// holds of the points of that line and of no others; where the three corners are one
/// point, it holds of every point.
pub open spec fn in_triangle(a: Point, b: Point, c: Point, p: Point) -> bool {
    let with_a = signed_area2(p, b, c);
    let with_b = signed_area2(a, p, c);
    let with_c = signed_area2(a, b, p);
    ||| (with_a >= 0 && with_b >= 0 && with_c >= 0)
    ||| (with_a <= 0 && with_b <= 0 && with_c <= 0)
}

/// The three signed areas that a point cuts a triangle into add up to the triangle's own.
pub proof fn lemma_signed_areas_add_up(a: Point, b: Point, c: Point, p: Point)
    ensures
        signed_area2(p, b, c) + signed_area2(a, p, c) + signed_area2(a, b, p) == signed_area2(
            a,
            b,
            c,
        ),
{
    let (ax, ay) = (a.x as int, a.y as int);
    let (bx, by) = (b.x as int, b.y as int);
    let (cx, cy) = (c.x as int, c.y as int);
    let (px, py) = (p.x as int, p.y as int);
    assert((px * (by - cy) + bx * (cy - py) + cx * (py - by)) + (ax * (py - cy) + px * (cy - ay)
        + cx * (ay - py)) + (ax * (by - py) + bx * (py - ay) + px * (ay - by)) == ax * (by - cy)
        + bx * (cy - ay) + cx * (ay - by)) by (nonlinear_arith);
}

/// A point lies in a triangle exactly when the three triangles that it forms with the
/// sides have areas that add up to the area of the whole.
pub proof fn lemma_in_triangle_by_areas(a: Point, b: Point, c: Point, p: Point)
    ensures
        in_triangle(a, b, c, p) <==> area2(a, b, c) == area2(p, b, c) + area2(a, p, c) + area2(
            a,
            b,
            p,
        ),
{
    lemma_signed_areas_add_up(a, b, c, p);
}

/// A coordinate times the difference of two coordinates is at most `2^63` either way.
proof fn lemma_product_bound(x: int, d: int)
    requires
        -0x8000_0000 <= x <= 0x8000_0000,
        -0x1_0000_0000 <= d <= 0x1_0000_0000,
    ensures
        -0x8000_0000_0000_0000 <= x * d <= 0x8000_0000_0000_0000,
{
    assert(-0x8000_0000_0000_0000 <= x * d <= 0x8000_0000_0000_0000) by (nonlinear_arith)
        requires
            -0x8000_0000 <= x <= 0x8000_0000,
            -0x1_0000_0000 <= d <= 0x1_0000_0000,
    ;
}

/// Twice the area of the triangle `a b c`, which is less than `2^65`.
pub fn triangle_area(a: Point, b: Point, c: Point) -> (doubled: u128)
    ensures
        doubled == area2(a, b, c),
        doubled <= 0x1_8000_0000_0000_0000,
{
    let (ax, ay): (i128, i128) = (a.x as i128, a.y as i128);
    let (bx, by): (i128, i128) = (b.x as i128, b.y as i128);
    let (cx, cy): (i128, i128) = (c.x as i128, c.y as i128);
    proof {
        lemma_product_bound(ax as int, by - cy);
        lemma_product_bound(bx as int, cy - ay);
        lemma_product_bound(cx as int, ay - by);
    }
    let signed: i128 = ax * (by - cy) + bx * (cy - ay) + cx * (ay - by);
    if signed >= 0 {
        signed as u128
    } else {
        (-signed) as u128
    }
}

/// Whether `p` lies in the closed triangle `a b c`, found by comparing areas: the three
/// triangles that `p` forms with the sides must add up to the whole.
pub fn triangle_contains(a: Point, b: Point, c: Point, p: Point) -> (inside: bool)
    ensures
        inside == in_triangle(a, b, c, p),
{
    proof {
        lemma_in_triangle_by_areas(a, b, c, p);
    }
    let whole: u128 = triangle_area(a, b, c);
    let part_a: u128 = triangle_area(p, b, c);
    let part_b: u128 = triangle_area(a, p, c);
    let part_c: u128 = triangle_area(a, b, p);
    whole == part_a + part_b + part_c
}

} // verus!
