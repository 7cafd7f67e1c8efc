//! Distances on the ground plane, in whole world units.

use crate::game::components::position::Point3;
use vstd::prelude::*;

verus! {

/// The largest distance that a message can carry.
pub const MAX_MESSAGE_DISTANCE: u16 = 65535;

/// The square of the distance between two points on the ground plane. The
/// height plays no part in it.
pub open spec fn planar_distance_squared(from: Point3, to: Point3) -> nat {
    ((to.x - from.x) * (to.x - from.x) + (to.y - from.y) * (to.y - from.y)) as nat
}

/// Whether `root` is the square root of `n`, rounded down.
pub open spec fn is_floor_sqrt(n: nat, root: nat) -> bool {
    root * root <= n < (root + 1) * (root + 1)
}

/// The square root of `n`, rounded down.
pub open spec fn floor_sqrt(n: nat) -> nat {
    choose|root: nat| is_floor_sqrt(n, root)
}

/// Every number has a square root rounded down.
pub proof fn lemma_floor_sqrt_exists(n: nat)
    ensures
        is_floor_sqrt(n, floor_sqrt(n)),
    decreases n,
{
    if n == 0 {
        assert(is_floor_sqrt(0, 0)) by (nonlinear_arith);
    } else {
        lemma_floor_sqrt_exists((n - 1) as nat);
        let r = floor_sqrt((n - 1) as nat);
        if (r + 1) * (r + 1) <= n {
            assert((r + 2) * (r + 2) > (r + 1) * (r + 1)) by (nonlinear_arith);
            assert(is_floor_sqrt(n, r + 1));
        } else {
            assert(is_floor_sqrt(n, r));
        }
    }
}

/// A number has one square root rounded down.
pub proof fn lemma_floor_sqrt_unique(n: nat, root: nat)
    requires
        is_floor_sqrt(n, root),
    ensures
        floor_sqrt(n) == root,
{
    let other = floor_sqrt(n);
    assert(is_floor_sqrt(n, other));
    if other < root {
        assert((other + 1) * (other + 1) <= root * root) by (nonlinear_arith)
            requires
                other + 1 <= root,
        ;
    }
    if root < other {
        assert((root + 1) * (root + 1) <= other * other) by (nonlinear_arith)
            requires
                root + 1 <= other,
        ;
    }
}

/// The distance that a message carries for a squared distance: its square
/// root rounded down, or the largest distance a message can carry where
/// the root is larger.
pub open spec fn message_distance(distance_squared: nat) -> u16 {
    if floor_sqrt(distance_squared) >= MAX_MESSAGE_DISTANCE {
        MAX_MESSAGE_DISTANCE
    } else {
        floor_sqrt(distance_squared) as u16
    }
}

/// The height that a message carries for a height: the height itself, or
/// the nearest end of the range a message can carry.
pub open spec fn message_height(z: i32) -> u16 {
    if z < 0 {
        0
    } else if z > u16::MAX {
        u16::MAX
    } else {
        z as u16
    }
}

/// Computes the square of the distance on the ground plane with the
/// vector type of the linear algebra crate: the points are written as
/// `nalgebra::Point3<i128>`, their `xy()` parts are subtracted, and the
/// difference is multiplied with itself by `dot`. For a vector of two
/// components `dot` returns the sum of the two products, and none of the
/// steps can overflow 128 bits for coordinates of 32 bits.
#[verifier::external_body]
fn nalgebra_planar_distance_squared(from: &Point3, to: &Point3) -> (squared: u128)
    ensures
        squared == planar_distance_squared(*from, *to),
{
    let a = nalgebra::Point3::new(from.x as i128, from.y as i128, from.z as i128);
    let b = nalgebra::Point3::new(to.x as i128, to.y as i128, to.z as i128);
    let delta = b.xy() - a.xy();
    delta.dot(&delta) as u128
}

/// The square of the distance between two points on the ground plane.
pub fn distance_squared(from: &Point3, to: &Point3) -> (squared: u128)
    ensures
        squared == planar_distance_squared(*from, *to),
{
    nalgebra_planar_distance_squared(from, to)
}

pub fn to_message_distance(distance_squared: u128) -> (distance: u16)
    ensures
        distance == message_distance(distance_squared as nat),
{
    let n = distance_squared;
    let limit: u128 = 65535 * 65535;
    if n >= limit {
        proof {
            lemma_floor_sqrt_exists(n as nat);
            let r = floor_sqrt(n as nat);
            if r < 65535 {
                assert((r + 1) * (r + 1) <= 65535 * 65535) by (nonlinear_arith)
                    requires
                        r + 1 <= 65535,
                ;
            }
        }
        return MAX_MESSAGE_DISTANCE;
    }
    let mut low: u64 = 0;
    let mut high: u64 = 65535;
    while high - low > 1
        invariant
            low < high <= 65535,
            low * low <= n < high * high,
        decreases high - low,
    {
        let mid: u64 = low + (high - low) / 2;
        assert(mid * mid <= 65535 * 65535) by (nonlinear_arith)
            requires
                0 <= mid <= 65535,
        ;
        if (mid * mid) as u128 <= n {
            low = mid;
        } else {
            high = mid;
        }
    }
    proof {
        assert(high == low + 1);
        assert(is_floor_sqrt(n as nat, low as nat));
        lemma_floor_sqrt_unique(n as nat, low as nat);
    }
    low as u16
}

pub fn to_message_height(z: i32) -> (height: u16)
    ensures
        height == message_height(z),
{
    if z < 0 {
        0
    } else if z > 65535 {
        65535
    } else {
        z as u16
    }
}

} // verus!
