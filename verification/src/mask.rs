//! The circular mask: which zone of the widget a point falls into.
//!
//! All tests compare squared distances, so no square root is ever taken.

use vstd::prelude::*;

verus! {

/// The three zones of the circular mask. Every point lies in exactly one.
#[derive(Clone, Copy, Debug, PartialEq, Eq, Structural)]
pub enum Zone {
    /// Farther from the centre than the outer radius.
    Outside,
    /// Within the outer radius, but farther from the centre than the inner one.
    Border,
    /// Within the inner radius.
    Interior,
}

/// The square of the distance between `(x, y)` and `center`.
pub open spec fn squared_distance(x: int, y: int, center: (int, int)) -> int {
    (x - center.0) * (x - center.0) + (y - center.1) * (y - center.1)
}

/// Whether `(x, y)` lies in the closed disc of the given centre and radius.
pub open spec fn within(x: int, y: int, center: (int, int), radius: int) -> bool {
    squared_distance(x, y, center) <= radius * radius
}

/// The zone of `(x, y)` for two concentric circles around `center`.
pub open spec fn zone_of(
    x: int,
    y: int,
    center: (int, int),
    outer_radius: int,
    inner_radius: int,
) -> Zone {
    if !within(x, y, center, outer_radius) {
        Zone::Outside
    } else if !within(x, y, center, inner_radius) {
        Zone::Border
    } else {
        Zone::Interior
    }
}

/// The point reached from `(x, y)` by a quarter turn about `center`.
pub open spec fn quarter_turn(x: int, y: int, center: (int, int)) -> (int, int) {
    (center.0 - (y - center.1), center.1 + (x - center.0))
}

/// A coordinate difference, squared, fits in 64 bits with room to add two of them.
proof fn lemma_square_bounded(a: int, b: int)
    requires
        0 <= a <= u32::MAX,
        0 <= b <= u32::MAX,
    ensures
        0 <= (a - b) * (a - b) <= 0xffff_ffff * 0xffff_ffff,
{
    assert(0 <= (a - b) * (a - b) <= 0xffff_ffff * 0xffff_ffff) by (nonlinear_arith)
        requires
            -0xffff_ffff <= a - b <= 0xffff_ffff,
    ;
}

/// The squared distance of two points with 32-bit coordinates, computed in
/// signed arithmetic so that a coordinate left of or above the centre does
/// not wrap.
fn squared_distance_of(x: u32, y: u32, center_x: u32, center_y: u32) -> (d: i128)
    ensures
        d == squared_distance(x as int, y as int, (center_x as int, center_y as int)),
        0 <= d <= 2 * (0xffff_ffff * 0xffff_ffff),
{
    let dx: i128 = x as i128 - center_x as i128;
    let dy: i128 = y as i128 - center_y as i128;
    proof {
        lemma_square_bounded(x as int, center_x as int);
        lemma_square_bounded(y as int, center_y as int);
    }
    dx * dx + dy * dy
}

/// Tells whether `(x, y)` lies inside or on the circle of radius `rad` around
/// `(circle_x, circle_y)`.
pub fn inside(circle_x: u32, circle_y: u32, rad: u32, x: u32, y: u32) -> (result: bool)
    ensures
        result == within(x as int, y as int, (circle_x as int, circle_y as int), rad as int),
{
    let distance: i128 = squared_distance_of(x, y, circle_x, circle_y);
    proof {
        lemma_square_bounded(rad as int, 0);
    }
    let rad: i128 = rad as i128;
    distance <= rad * rad
}

/// Classifies `(x, y)` against two concentric circles around `center`.
///
/// The point is `Outside` if its squared distance from the centre exceeds the
/// square of `outer_radius`, `Border` if it exceeds the square of
/// `inner_radius` but not that of `outer_radius`, and `Interior` otherwise.
pub fn classify(x: u32, y: u32, center: (u32, u32), outer_radius: u32, inner_radius: u32) -> (zone:
    Zone)
    ensures
        zone == zone_of(
            x as int,
            y as int,
            (center.0 as int, center.1 as int),
            outer_radius as int,
            inner_radius as int,
        ),
{
    if !inside(center.0, center.1, outer_radius, x, y) {
        Zone::Outside
    } else if !inside(center.0, center.1, inner_radius, x, y) {
        Zone::Border
    } else {
        Zone::Interior
    }
}

/// A quarter turn about the centre keeps every point at its distance from the
/// centre.
pub proof fn lemma_quarter_turn_keeps_distance(x: int, y: int, center: (int, int))
    ensures
        squared_distance(quarter_turn(x, y, center).0, quarter_turn(x, y, center).1, center)
            == squared_distance(x, y, center),
{
    let dx = x - center.0;
    let dy = y - center.1;
    assert((-dy) * (-dy) == dy * dy) by (nonlinear_arith);
    assert(center.0 - (y - center.1) - center.0 == -dy);
    assert(center.1 + (x - center.0) - center.1 == dx);
}

/// The mask has the symmetry of the circle: a point and its image under a
/// quarter turn about the centre of the two circles lie in the same zone.
pub proof fn lemma_zone_quarter_turn(
    x: int,
    y: int,
    center: (int, int),
    outer_radius: int,
    inner_radius: int,
)
    ensures
        zone_of(
            quarter_turn(x, y, center).0,
            quarter_turn(x, y, center).1,
            center,
            outer_radius,
            inner_radius,
        ) == zone_of(x, y, center, outer_radius, inner_radius),
{
    lemma_quarter_turn_keeps_distance(x, y, center);
}

/// A point farther from the centre than `radius` along one axis alone is
/// outside the disc of that radius.
pub proof fn lemma_beyond_bounding_box(x: int, y: int, center: (int, int), radius: int)
    requires
        radius >= 0,
        y - center.1 > radius || center.1 - y > radius || x - center.0 > radius || center.0 - x
            > radius,
    ensures
        !within(x, y, center, radius),
{
    let dx = x - center.0;
    let dy = y - center.1;
    assert(dx * dx >= 0) by (nonlinear_arith);
    assert(dy * dy >= 0) by (nonlinear_arith);
    if dy > radius || -dy > radius {
        assert(dy * dy > radius * radius) by (nonlinear_arith)
            requires
                radius >= 0,
                dy > radius || -dy > radius,
        ;
    } else {
        assert(dx * dx > radius * radius) by (nonlinear_arith)
            requires
                radius >= 0,
                dx > radius || -dx > radius,
        ;
    }
}

} // verus!
