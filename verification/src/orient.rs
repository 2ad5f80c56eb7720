//! Does a simplex contain the origin?  Signed-volume orientation tests.

use vstd::prelude::*;
use crate::geom::{det3x3, det3x3_spec, Vec2, Vec3, SCALE};

verus! {

/// The origin lies inside (or on the boundary of) the tetrahedron
/// `p0 p1 p2 p3` exactly when the four signed volumes of the
/// sub-tetrahedra spanned by the origin and each face, taken with
/// alternating sign so that their orientations agree, all lie on the same
/// side of zero.  Strict positivity is the test, so a zero volume (origin
/// exactly on a face's plane) groups with the non-positive side.
pub open spec fn origin_in_tetra_spec(p0: Vec3, p1: Vec3, p2: Vec3, p3: Vec3) -> bool {
    let w0 = det3x3_spec(p1, p2, p3);
    let w1 = -det3x3_spec(p0, p2, p3);
    let w2 = det3x3_spec(p0, p1, p3);
    let w3 = -det3x3_spec(p0, p1, p2);
    ((w1 > 0) == (w0 > 0)) && ((w2 > 0) == (w0 > 0)) && ((w3 > 0) == (w0 > 0))
}

/// The origin lies inside the triangle `a b c` exactly when the three
/// pairwise cross products, oriented consistently, all lie on the same
/// side of zero.  As in the tetrahedral test, zero groups with the
/// non-positive side.
pub open spec fn origin_in_triangle_spec(a: Vec2, b: Vec2, c: Vec2) -> bool {
    let w0 = a.x * b.y - a.y * b.x;
    let w1 = a.y * c.x - a.x * c.y;
    let w2 = b.x * c.y - b.y * c.x;
    ((w1 > 0) == (w0 > 0)) && ((w2 > 0) == (w0 > 0))
}

/// Tests whether the origin lies inside the tetrahedron `p0 p1 p2 p3`.
///
/// Checks consecutive pairs of the alternating-sign face volumes; that
/// agreement is transitive, so the contract states the equivalent form in
/// which every volume matches the first.
pub fn is_in_tetrahedron(p0: Vec3, p1: Vec3, p2: Vec3, p3: Vec3) -> (r: bool)
    requires
        p0.in_bounds(),
        p1.in_bounds(),
        p2.in_bounds(),
        p3.in_bounds(),
    ensures
        r == origin_in_tetra_spec(p0, p1, p2, p3),
{
    let w0: i64 = det3x3(p1, p2, p3);
    let w1: i64 = -det3x3(p0, p2, p3);
    let w2: i64 = det3x3(p0, p1, p3);
    let w3: i64 = -det3x3(p0, p1, p2);
    if (w0 > 0) != (w1 > 0) {
        return false;
    }
    if (w1 > 0) != (w2 > 0) {
        return false;
    }
    if (w2 > 0) != (w3 > 0) {
        return false;
    }
    true
}

/// Tests whether the origin lies inside the triangle `a b c`.
pub fn origin_in_triangle(a: &Vec2, b: &Vec2, c: &Vec2) -> (r: bool)
    requires
        a.in_bounds(),
        b.in_bounds(),
        c.in_bounds(),
    ensures
        r == origin_in_triangle_spec(*a, *b, *c),
{
    proof {
        crate::geom::lemma_mul_bound(a.x as int, b.y as int, SCALE as int, SCALE as int);
        crate::geom::lemma_mul_bound(a.y as int, b.x as int, SCALE as int, SCALE as int);
        crate::geom::lemma_mul_bound(a.y as int, c.x as int, SCALE as int, SCALE as int);
        crate::geom::lemma_mul_bound(a.x as int, c.y as int, SCALE as int, SCALE as int);
        crate::geom::lemma_mul_bound(b.x as int, c.y as int, SCALE as int, SCALE as int);
        crate::geom::lemma_mul_bound(b.y as int, c.x as int, SCALE as int, SCALE as int);
    }
    let w0: i64 = a.x * b.y - a.y * b.x;
    let w1: i64 = a.y * c.x - a.x * c.y;
    let w2: i64 = b.x * c.y - b.y * c.x;
    if (w0 > 0) != (w1 > 0) {
        return false;
    }
    if (w1 > 0) != (w2 > 0) {
        return false;
    }
    true
}

} // verus!
