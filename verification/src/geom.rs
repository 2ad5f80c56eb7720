//! Fixed-point vectors and the exact 3x3 determinant.

use vstd::prelude::*;

verus! {

/// Fixed-point scale: the integer `SCALE` stands for the real number 1.
/// A point on the unit sphere therefore has every coordinate in
/// `[-SCALE, SCALE]`.
pub const SCALE: i64 = 1_000_000;

/// Largest magnitude `det3x3` can reach on in-bounds inputs:
/// three terms, each a coordinate times a difference of two products,
/// so at most `6 * SCALE^3`.  It fits comfortably in `i64`.
pub const DET_BOUND: i64 = 6_000_000_000_000_000_000;

/// A point in 3-space with fixed-point coordinates.
#[derive(Clone, Copy, PartialEq, Eq, Structural, Debug)]
pub struct Vec3 {
    pub x: i64,
    pub y: i64,
    pub z: i64,
}

/// A point in the plane with fixed-point coordinates.
#[derive(Clone, Copy, PartialEq, Eq, Structural, Debug)]
pub struct Vec2 {
    pub x: i64,
    pub y: i64,
}

impl Vec3 {
    /// Every coordinate lies in `[-SCALE, SCALE]`: small enough that the
    /// 3x3 determinant of three such vectors is exact in `i64`.
    pub open spec fn in_bounds(self) -> bool {
        &&& -SCALE <= self.x <= SCALE
        &&& -SCALE <= self.y <= SCALE
        &&& -SCALE <= self.z <= SCALE
    }
}

impl Vec2 {
    /// Every coordinate lies in `[-SCALE, SCALE]`.
    pub open spec fn in_bounds(self) -> bool {
        &&& -SCALE <= self.x <= SCALE
        &&& -SCALE <= self.y <= SCALE
    }
}

/// The determinant of the 3x3 matrix whose columns are `a`, `b`, `c`,
/// expanded along the top row.  Equals six times the signed volume of the
/// tetrahedron with vertices at the origin, `a`, `b`, `c`.
pub open spec fn det3x3_spec(a: Vec3, b: Vec3, c: Vec3) -> int {
    a.x * (b.y * c.z - b.z * c.y) - b.x * (a.y * c.z - a.z * c.y)
        + c.x * (a.y * b.z - a.z * b.y)
}

/// The squared Euclidean length of `p`, exactly.
pub open spec fn norm_sq_spec(p: Vec3) -> int {
    p.x * p.x + p.y * p.y + p.z * p.z
}

/// If `x` and `y` are bounded in magnitude, so is their product.
pub(crate) proof fn lemma_mul_bound(x: int, y: int, bx: int, by: int) by (nonlinear_arith)
    requires
        -bx <= x <= bx,
        -by <= y <= by,
    ensures
        -(bx * by) <= x * y <= bx * by,
{
}

/// The 3x3 determinant of three bounded fixed-point vectors, exact.
pub fn det3x3(a: Vec3, b: Vec3, c: Vec3) -> (r: i64)
    requires
        a.in_bounds(),
        b.in_bounds(),
        c.in_bounds(),
    ensures
        r == det3x3_spec(a, b, c),
        -DET_BOUND <= r <= DET_BOUND,
{
    proof {
        lemma_mul_bound(b.y as int, c.z as int, SCALE as int, SCALE as int);
        lemma_mul_bound(b.z as int, c.y as int, SCALE as int, SCALE as int);
        lemma_mul_bound(a.y as int, c.z as int, SCALE as int, SCALE as int);
        lemma_mul_bound(a.z as int, c.y as int, SCALE as int, SCALE as int);
        lemma_mul_bound(a.y as int, b.z as int, SCALE as int, SCALE as int);
        lemma_mul_bound(a.z as int, b.y as int, SCALE as int, SCALE as int);
    }
    let m0: i64 = b.y * c.z - b.z * c.y;
    let m1: i64 = a.y * c.z - a.z * c.y;
    let m2: i64 = a.y * b.z - a.z * b.y;
    proof {
        lemma_mul_bound(a.x as int, m0 as int, SCALE as int, 2_000_000_000_000int);
        lemma_mul_bound(b.x as int, m1 as int, SCALE as int, 2_000_000_000_000int);
        lemma_mul_bound(c.x as int, m2 as int, SCALE as int, 2_000_000_000_000int);
    }
    a.x * m0 - b.x * m1 + c.x * m2
}

/// The ring identities behind the alternating property, stated over the
/// nine raw coordinates so the nonlinear solver can normalise both sides.
proof fn lemma_det3x3_alternating_raw(
    ax: int, ay: int, az: int,
    bx: int, by: int, bz: int,
    cx: int, cy: int, cz: int,
) by (nonlinear_arith)
    ensures
        bx * (ay * cz - az * cy) - ax * (by * cz - bz * cy) + cx * (by * az - bz * ay)
            == -(ax * (by * cz - bz * cy) - bx * (ay * cz - az * cy) + cx * (ay * bz - az * by)),
        ax * (cy * bz - cz * by) - cx * (ay * bz - az * by) + bx * (ay * cz - az * cy)
            == -(ax * (by * cz - bz * cy) - bx * (ay * cz - az * cy) + cx * (ay * bz - az * by)),
        cx * (by * az - bz * ay) - bx * (cy * az - cz * ay) + ax * (cy * bz - cz * by)
            == -(ax * (by * cz - bz * cy) - bx * (ay * cz - az * cy) + cx * (ay * bz - az * by)),
{
}

/// The determinant is alternating: swapping any two of the three input
/// vectors negates it.
pub proof fn lemma_det3x3_alternating(a: Vec3, b: Vec3, c: Vec3)
    ensures
        det3x3_spec(b, a, c) == -det3x3_spec(a, b, c),
        det3x3_spec(a, c, b) == -det3x3_spec(a, b, c),
        det3x3_spec(c, b, a) == -det3x3_spec(a, b, c),
{
    lemma_det3x3_alternating_raw(
        a.x as int, a.y as int, a.z as int,
        b.x as int, b.y as int, b.z as int,
        c.x as int, c.y as int, c.z as int,
    );
}

/// The squared length of a bounded fixed-point vector, exact.
/// A point quantised from the unit sphere has this close to `SCALE * SCALE`.
pub fn norm_sq(p: Vec3) -> (r: i64)
    requires
        p.in_bounds(),
    ensures
        r == norm_sq_spec(p),
        0 <= r <= 3_000_000_000_000,
{
    proof {
        lemma_mul_bound(p.x as int, p.x as int, SCALE as int, SCALE as int);
        lemma_mul_bound(p.y as int, p.y as int, SCALE as int, SCALE as int);
        lemma_mul_bound(p.z as int, p.z as int, SCALE as int, SCALE as int);
        assert(0 <= p.x * p.x) by (nonlinear_arith);
        assert(0 <= p.y * p.y) by (nonlinear_arith);
        assert(0 <= p.z * p.z) by (nonlinear_arith);
    }
    p.x * p.x + p.y * p.y + p.z * p.z
}

} // verus!
