//! Points, regions and exact squared distances.

use vstd::prelude::*;

verus! {

/// A position in space. Each coordinate counts thousandths of a world unit.
pub struct Point {
    pub x: int,
    pub y: int,
    pub z: int,
}

/// The squared Euclidean distance between two points.
pub open spec fn distance_squared(a: Point, b: Point) -> int {
    (a.x - b.x) * (a.x - b.x) + (a.y - b.y) * (a.y - b.y) + (a.z - b.z) * (a.z - b.z)
}

/// The set of points at which a checkpoint is reached.
pub enum Region {
    /// All points whose squared distance from `center` is at most
    /// `radius_squared`.
    Ball { center: Point, radius_squared: int },
    /// The points of the ball that lie at or above the height of its center.
    UpperBall { center: Point, radius_squared: int },
    /// All points over an axis-aligned rectangle, at any height. Both ends of
    /// both ranges belong to it.
    Column { x_min: int, x_max: int, y_min: int, y_max: int },
    /// All points at or above a height.
    Above { height: int },
}

impl Region {
    /// Whether the point lies in the region.
    pub open spec fn contains(self, p: Point) -> bool {
        match self {
            Region::Ball { center, radius_squared } => distance_squared(center, p)
                <= radius_squared,
            Region::UpperBall { center, radius_squared } => distance_squared(center, p)
                <= radius_squared && center.z <= p.z,
            Region::Column { x_min, x_max, y_min, y_max } => x_min <= p.x <= x_max && y_min
                <= p.y <= y_max,
            Region::Above { height } => p.z >= height,
        }
    }
}

/// The ball of the given radius round `(x, y, z)`.
pub open spec fn ball(x: int, y: int, z: int, radius: int) -> Region {
    Region::Ball { center: Point { x, y, z }, radius_squared: radius * radius }
}

/// The upper half of the ball of the given radius round `(x, y, z)`.
pub open spec fn upper_ball(x: int, y: int, z: int, radius: int) -> Region {
    Region::UpperBall { center: Point { x, y, z }, radius_squared: radius * radius }
}

/// The column over the rectangle from `(x_min, y_min)` to `(x_max, y_max)`.
pub open spec fn column(x_min: int, x_max: int, y_min: int, y_max: int) -> Region {
    Region::Column { x_min, x_max, y_min, y_max }
}

/// Everything at or above `height`.
pub open spec fn above(height: int) -> Region {
    Region::Above { height }
}

/// The square of the difference of two coordinates, which always fits.
pub fn square_of_difference(a: i64, b: i64) -> (r: u128)
    ensures
        r == (a - b) * (a - b),
{
    let d: u64 = if a >= b {
        (a as i128 - b as i128) as u64
    } else {
        (b as i128 - a as i128) as u64
    };
    assert(d * d == (a - b) * (a - b)) by (nonlinear_arith)
        requires
            d == a - b || d == b - a,
    ;
    assert(d * d <= 0xffff_ffff_ffff_ffff * 0xffff_ffff_ffff_ffff) by (nonlinear_arith)
        requires
            0 <= d <= 0xffff_ffff_ffff_ffff,
    ;
    (d as u128) * (d as u128)
}

/// Whether the squared distance between `(ax, ay, az)` and `(bx, by, bz)` is
/// at most `limit`. No input overflows: a term that alone exceeds the limit
/// settles the answer before anything is added up.
pub fn within_distance_squared(
    ax: i64,
    ay: i64,
    az: i64,
    bx: i64,
    by: i64,
    bz: i64,
    limit: u64,
) -> (b: bool)
    ensures
        b == (distance_squared(
            Point { x: ax as int, y: ay as int, z: az as int },
            Point { x: bx as int, y: by as int, z: bz as int },
        ) <= limit),
{
    let dx: u128 = square_of_difference(ax, bx);
    let dy: u128 = square_of_difference(ay, by);
    let dz: u128 = square_of_difference(az, bz);
    if dx > limit as u128 || dy > limit as u128 || dz > limit as u128 {
        return false;
    }
    dx + dy + dz <= limit as u128
}

} // verus!
