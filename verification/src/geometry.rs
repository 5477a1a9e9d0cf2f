//! Positions, axis-aligned squares and the collision detector.
use vstd::prelude::*;

verus! {

/// Top-left corner of an entity, in length units. `y` grows downwards.
#[derive(Clone, Copy, Debug, PartialEq, Eq, Structural)]
pub struct Position {
    pub x: i64,
    pub y: i64,
}

/// The point `(px, py)` lies in the closed box spanned by the square with
/// top-left corner `corner` and side `size`.
pub open spec fn point_in_square(px: int, py: int, corner: Position, size: int) -> bool {
    &&& corner.x <= px <= corner.x + size
    &&& corner.y <= py <= corner.y + size
}

/// At least one of the four corners of the square `(inner, inner_size)` lies
/// in the closed box of the square `(outer, outer_size)`.
pub open spec fn corner_inside(
    inner: Position,
    inner_size: int,
    outer: Position,
    outer_size: int,
) -> bool {
    ||| point_in_square(inner.x as int, inner.y as int, outer, outer_size)
    ||| point_in_square(inner.x + inner_size, inner.y as int, outer, outer_size)
    ||| point_in_square(inner.x as int, inner.y + inner_size, outer, outer_size)
    ||| point_in_square(inner.x + inner_size, inner.y + inner_size, outer, outer_size)
}

/// The corner-containment rule: the corners of the strictly smaller square
/// are tested against the box of the other one; with equal sides the second
/// square gives the corners.
///
/// Only corners are looked at, never edges. Because the corners always come
/// from a square that is no larger than the other one, this finds every
/// overlap of two squares with non-negative sides (`collides_iff_overlap`).
pub open spec fn collides_spec(a: Position, a_size: int, b: Position, b_size: int) -> bool {
    if a_size < b_size {
        corner_inside(a, a_size, b, b_size)
    } else {
        corner_inside(b, b_size, a, a_size)
    }
}

/// The two closed boxes share at least one point.
pub open spec fn boxes_overlap(a: Position, a_size: int, b: Position, b_size: int) -> bool {
    &&& a.x <= b.x + b_size
    &&& b.x <= a.x + a_size
    &&& a.y <= b.y + b_size
    &&& b.y <= a.y + a_size
}

fn point_within(px: i128, py: i128, corner: Position, size: i64) -> (inside: bool)
    requires
        i64::MIN + i64::MIN <= px <= i64::MAX + i64::MAX,
        i64::MIN + i64::MIN <= py <= i64::MAX + i64::MAX,
    ensures
        inside == point_in_square(px as int, py as int, corner, size as int),
{
    let left: i128 = corner.x as i128;
    let top: i128 = corner.y as i128;
    let side: i128 = size as i128;
    left <= px && px <= left + side && top <= py && py <= top + side
}

fn any_corner_within(inner: Position, inner_size: i64, outer: Position, outer_size: i64) -> (hit:
    bool)
    ensures
        hit == corner_inside(inner, inner_size as int, outer, outer_size as int),
{
    let left: i128 = inner.x as i128;
    let top: i128 = inner.y as i128;
    let right: i128 = left + inner_size as i128;
    let bottom: i128 = top + inner_size as i128;
    point_within(left, top, outer, outer_size) || point_within(right, top, outer, outer_size)
        || point_within(left, bottom, outer, outer_size) || point_within(
        right,
        bottom,
        outer,
        outer_size,
    )
}

/// Tests two axis-aligned squares for a collision by corner containment.
pub fn collides(a: Position, a_size: i64, b: Position, b_size: i64) -> (hit: bool)
    ensures
        hit == collides_spec(a, a_size as int, b, b_size as int),
{
    if a_size < b_size {
        any_corner_within(a, a_size, b, b_size)
    } else {
        any_corner_within(b, b_size, a, a_size)
    }
}

/// The detector is symmetric: swapping the two squares never changes the
/// verdict, whichever of them is the smaller one and also when their sides
/// are equal.
pub proof fn collides_symmetric(a: Position, a_size: int, b: Position, b_size: int)
    ensures
        collides_spec(a, a_size, b, b_size) == collides_spec(b, b_size, a, a_size),
{
}

/// For squares with non-negative sides the corner test and the overlap of
/// the closed boxes agree: an interval that meets a longer one has an end
/// inside it, on each axis.
pub proof fn collides_iff_overlap(a: Position, a_size: int, b: Position, b_size: int)
    requires
        0 <= a_size,
        0 <= b_size,
    ensures
        collides_spec(a, a_size, b, b_size) == boxes_overlap(a, a_size, b, b_size),
{
}

} // verus!
