//! Fixed-point geometry: positions in millimetres, directions as vectors of
//! small integers, and the pull cone test done exactly on integers.
use vstd::prelude::*;

verus! {

/// The denominator of a cone threshold: a threshold `c` stands for the dot
/// product `c / CONE_SCALE` of two unit vectors.
pub const CONE_SCALE: i128 = 10000;

/// A point in world space, in millimetres.
#[derive(Clone, Copy, Debug, PartialEq, Eq, Structural)]
pub struct Vector {
    pub x: i32,
    pub y: i32,
    pub z: i32,
}

/// A direction in world space. Only its orientation matters; it should not
/// be zero.
#[derive(Clone, Copy, Debug, PartialEq, Eq, Structural)]
pub struct Direction {
    pub x: i16,
    pub y: i16,
    pub z: i16,
}

/// The dot product of two vectors given by their components.
pub open spec fn dot3(ax: int, ay: int, az: int, bx: int, by: int, bz: int) -> int {
    ax * bx + ay * by + az * bz
}

/// The offset from `from` to `to`.
pub open spec fn offset(from: Vector, to: Vector) -> (int, int, int) {
    (to.x - from.x, to.y - from.y, to.z - from.z)
}

/// The squared length of the offset from `from` to `to`.
pub open spec fn dist_sq(from: Vector, to: Vector) -> int {
    let d = offset(from, to);
    dot3(d.0, d.1, d.2, d.0, d.1, d.2)
}

/// Whether the line of sight from `from` to `to` lies strictly inside the
/// cone of threshold `cone` around `forward`: the cosine of the angle between
/// them, `dot / (|los| * |forward|)`, exceeds `cone / CONE_SCALE`. Both sides
/// are squared so that the test stays in integers. A line of sight of length
/// zero has no direction and is never inside.
pub open spec fn in_cone(from: Vector, to: Vector, forward: Direction, cone: i16) -> bool {
    let d = offset(from, to);
    let dot = dot3(d.0, d.1, d.2, forward.x as int, forward.y as int, forward.z as int);
    let lhs = CONE_SCALE * dot;
    let norms = dist_sq(from, to) * dot3(
        forward.x as int,
        forward.y as int,
        forward.z as int,
        forward.x as int,
        forward.y as int,
        forward.z as int,
    );
    let rhs = (cone as int) * (cone as int) * norms;
    dist_sq(from, to) > 0 && if cone >= 0 {
        lhs > 0 && lhs * lhs > rhs
    } else {
        lhs >= 0 || lhs * lhs < rhs
    }
}

proof fn lemma_square_bound(a: int, b: int)
    requires
        -0x1_0000_0000 <= a <= 0x1_0000_0000,
        -0x8000 <= b <= 0x8000,
    ensures
        0 <= a * a <= 0x1_0000_0000_0000_0000,
        0 <= b * b <= 0x4000_0000,
        -0x8000_0000_0000 <= a * b <= 0x8000_0000_0000,
{
    assert(0 <= a * a <= 0x1_0000_0000_0000_0000) by (nonlinear_arith)
        requires -0x1_0000_0000 <= a <= 0x1_0000_0000;
    assert(0 <= b * b <= 0x4000_0000) by (nonlinear_arith)
        requires -0x8000 <= b <= 0x8000;
    assert(-0x8000_0000_0000 <= a * b <= 0x8000_0000_0000) by (nonlinear_arith)
        requires -0x1_0000_0000 <= a <= 0x1_0000_0000, -0x8000 <= b <= 0x8000;
}

/// The squared distance between two points.
pub fn distance_squared(from: Vector, to: Vector) -> (r: u128)
    ensures
        r == dist_sq(from, to),
        r <= 0x3_0000_0000_0000_0000,
{
    let dx: i128 = to.x as i128 - from.x as i128;
    let dy: i128 = to.y as i128 - from.y as i128;
    let dz: i128 = to.z as i128 - from.z as i128;
    proof {
        lemma_square_bound(dx as int, 0);
        lemma_square_bound(dy as int, 0);
        lemma_square_bound(dz as int, 0);
    }
    (dx * dx + dy * dy + dz * dz) as u128
}

/// Whether `to` lies inside the cone of threshold `cone` around `forward`,
/// seen from `from`.
pub fn is_in_cone(from: Vector, to: Vector, forward: Direction, cone: i16) -> (r: bool)
    ensures
        r == in_cone(from, to, forward, cone),
{
    let dx: i128 = to.x as i128 - from.x as i128;
    let dy: i128 = to.y as i128 - from.y as i128;
    let dz: i128 = to.z as i128 - from.z as i128;
    let fx: i128 = forward.x as i128;
    let fy: i128 = forward.y as i128;
    let fz: i128 = forward.z as i128;
    let c: i128 = cone as i128;
    proof {
        lemma_square_bound(dx as int, fx as int);
        lemma_square_bound(dy as int, fy as int);
        lemma_square_bound(dz as int, fz as int);
        lemma_square_bound(0, c as int);
    }
    let len_sq: i128 = dx * dx + dy * dy + dz * dz;
    if len_sq == 0 {
        return false;
    }
    let dot: i128 = dx * fx + dy * fy + dz * fz;
    let fwd_sq: i128 = fx * fx + fy * fy + fz * fz;
    let lhs: i128 = CONE_SCALE * dot;
    assert(0 <= len_sq * fwd_sq <= 0x3_0000_0000_0000_0000 * 0xC000_0000) by (nonlinear_arith)
        requires 0 <= len_sq <= 0x3_0000_0000_0000_0000, 0 <= fwd_sq <= 0xC000_0000;
    let norms: u128 = (len_sq as u128) * (fwd_sq as u128);
    let c_sq: u128 = (c * c) as u128;
    assert(c_sq * norms <= 0x4000_0000 * (0x3_0000_0000_0000_0000 * 0xC000_0000)) by (nonlinear_arith)
        requires 0 <= c_sq <= 0x4000_0000, 0 <= norms <= 0x3_0000_0000_0000_0000 * 0xC000_0000;
    let rhs: u128 = c_sq * norms;
    let abs_lhs: u128 = if lhs >= 0 { lhs as u128 } else { (-lhs) as u128 };
    assert(abs_lhs <= 10000 * 0x1_8000_0000_0000);
    assert(abs_lhs * abs_lhs <= (10000 * 0x1_8000_0000_0000) * (10000 * 0x1_8000_0000_0000))
        by (nonlinear_arith)
        requires 0 <= abs_lhs <= 10000 * 0x1_8000_0000_0000;
    let lhs_sq: u128 = abs_lhs * abs_lhs;
    assert(lhs_sq == lhs * lhs) by (nonlinear_arith)
        requires abs_lhs == lhs || abs_lhs == -lhs, lhs_sq == abs_lhs * abs_lhs;
    if cone >= 0 {
        lhs > 0 && lhs_sq > rhs
    } else {
        lhs >= 0 || lhs_sq < rhs
    }
}

} // verus!
