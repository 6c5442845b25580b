//! Coordinate systems on the lattice: an origin and a direct orthonormal
//! base, built from three vectors or completed from the third axis alone.

use vstd::prelude::*;
use vstd::arithmetic::mul::{lemma_mul_is_commutative, lemma_mul_is_distributive_add};
use crate::algebra::{
    lemma_cross_exchanged, lemma_cross_is_normal, lemma_cross_square_length, lemma_dot_exchanged,
    lemma_dot_of_difference, lemma_dot_of_scaled, lemma_double_cross,
};
use crate::base::{check_base, is_direct_orthonormal, BaseChecks, BaseError};
use crate::matrix::{Mat4, Matrix, Vec4};
use crate::point::Point;
use crate::vector::{narrow, Vec3, Vector};

verus! {

/// How the first two axes are found when only the third axis `k` is given.
///
/// Projecting the "up" direction onto the plane normal to `k` leaves nothing
/// when `k` itself points up or down; those two directions get axes chosen by
/// hand.
#[derive(Clone, Copy, Debug, PartialEq, Eq, Structural)]
pub enum CompletionCase {
    /// `k` is neither up nor down: the axes come from the projection.
    General,
    /// `k` points up.
    ParallelToUp,
    /// `k` points down.
    AntiparallelToUp,
}

impl CompletionCase {
    /// The case that the third axis `k` falls under.
    pub open spec fn of(k: Vec3) -> CompletionCase {
        if k == Vec3::j() {
            CompletionCase::ParallelToUp
        } else if k == Vec3::j().neg() {
            CompletionCase::AntiparallelToUp
        } else {
            CompletionCase::General
        }
    }

    /// The axes `(i, j)` chosen by hand in a case that has them.
    pub open spec fn chosen_axes(self) -> Option<(Vec3, Vec3)> {
        match self {
            CompletionCase::General => None,
            CompletionCase::ParallelToUp => Some((Vec3::i().neg(), Vec3::k())),
            CompletionCase::AntiparallelToUp => Some((Vec3::k().neg(), Vec3::i())),
        }
    }

    /// The case that the lattice vector `k` falls under.
    pub fn classify(k: &Vector) -> (c: CompletionCase)
        ensures
            c == CompletionCase::of(k@),
    {
        if k.x == 0 && k.y == 1 && k.z == 0 {
            CompletionCase::ParallelToUp
        } else if k.x == 0 && k.y == -1 && k.z == 0 {
            CompletionCase::AntiparallelToUp
        } else {
            CompletionCase::General
        }
    }

    /// The axes `(i, j)` chosen by hand where `k` points up or down, and
    /// `None` in the general case.
    pub fn fallback_axes(&self) -> (axes: Option<(Vector, Vector)>)
        ensures
            axes is Some <==> self.chosen_axes() is Some,
            axes matches Some(a) ==> self.chosen_axes() == Some((a.0@, a.1@)),
    {
        match self {
            CompletionCase::General => None,
            CompletionCase::ParallelToUp => Some(
                (Vector { x: -1, y: 0, z: 0 }, Vector { x: 0, y: 0, z: 1 }),
            ),
            CompletionCase::AntiparallelToUp => Some(
                (Vector { x: 0, y: 0, z: -1 }, Vector { x: 1, y: 0, z: 0 }),
            ),
        }
    }
}

/// The "up" direction with its component along `k` taken out.
pub open spec fn up_projected(k: Vec3) -> Vec3 {
    Vec3::j().minus(k.scale(k.y))
}

/// The "up" direction, stretched by the squared length of `k`, with its
/// component along `k` taken out: `(k.k) J - (J.k) k`. This is
/// [`up_projected`] for a unit vector, and a vector of the same direction
/// for every other `k`, with no division.
pub open spec fn up_projected_from(k: Vec3) -> Vec3 {
    Vec3::j().scale(k.square_length()).minus(k.scale(k.y))
}

/// The second axis of the system completed from the third axis `k`.
pub open spec fn completed_j(k: Vec3) -> Vec3 {
    match CompletionCase::of(k).chosen_axes() {
        Some(axes) => axes.1,
        None => up_projected(k),
    }
}

/// The first axis of the system completed from the third axis `k`.
pub open spec fn completed_i(k: Vec3) -> Vec3 {
    match CompletionCase::of(k).chosen_axes() {
        Some(axes) => axes.0,
        None => up_projected(k).cross(k),
    }
}

/// The matrix that takes coordinates in the system with origin `o` and axes
/// `i`, `j`, `k` to coordinates in the reference system: its columns are
/// `i`, `j`, `k` and `o`.
pub open spec fn local_to_reference(o: Vec3, i: Vec3, j: Vec3, k: Vec3) -> Mat4 {
    Mat4::from_columns(
        Vec4::of_vector(i),
        Vec4::of_vector(j),
        Vec4::of_vector(k),
        Vec4::of_point(o),
    )
}

/// The matrix that takes coordinates in the reference system to coordinates
/// in the system with origin `o` and axes `i`, `j`, `k`, for a direct
/// orthonormal base: the lines of its upper left block are `i`, `j`, `k`,
/// and its last column is `(-i.o, -j.o, -k.o, 1)`.
pub open spec fn reference_to_local(o: Vec3, i: Vec3, j: Vec3, k: Vec3) -> Mat4 {
    Mat4::from_lines(
        Vec4 { x: i.x, y: i.y, z: i.z, w: -i.dot(o) },
        Vec4 { x: j.x, y: j.y, z: j.z, w: -j.dot(o) },
        Vec4 { x: k.x, y: k.y, z: k.z, w: -k.dot(o) },
        Vec4 { x: 0, y: 0, z: 0, w: 1 },
    )
}

/// A coordinate system: the origin `o` and the axes `i`, `j`, `k`.
#[derive(Clone, Copy, Debug, PartialEq, Eq, Structural)]
pub struct Cs {
    pub o: Point,
    pub i: Vector,
    pub j: Vector,
    pub k: Vector,
}

impl Cs {
    /// Whether the axes form a direct orthonormal base.
    pub open spec fn is_direct(self) -> bool {
        is_direct_orthonormal(self.i@, self.j@, self.k@)
    }

    /// The reference system: the origin and the three reference axes.
    pub open spec fn reference() -> Cs {
        Cs {
            o: Point { x: 0, y: 0, z: 0 },
            i: Vector { x: 1, y: 0, z: 0 },
            j: Vector { x: 0, y: 1, z: 0 },
            k: Vector { x: 0, y: 0, z: 1 },
        }
    }

    /// The matrix from this system to the reference system.
    pub open spec fn forward(self) -> Mat4 {
        local_to_reference(self.o@, self.i@, self.j@, self.k@)
    }

    /// The matrix from the reference system to this system.
    pub open spec fn reverse(self) -> Mat4 {
        reference_to_local(self.o@, self.i@, self.j@, self.k@)
    }

    /// The matrix that takes coordinates in this system to coordinates in
    /// the reference system.
    pub fn get_matrix_to_rcs(&self) -> (m: Matrix)
        ensures
            m@ == self.forward(),
    {
        Matrix::from_columns(
            self.i.get_quad(),
            self.j.get_quad(),
            self.k.get_quad(),
            self.o.get_quad(),
        )
    }

    /// The matrix that takes coordinates in the reference system to
    /// coordinates in this system. It undoes [`Cs::get_matrix_to_rcs`] when
    /// the base is direct orthonormal.
    pub fn get_matrix_to_lcs(&self) -> (m: Matrix)
        requires
            self.reverse().fits(),
        ensures
            m@ == self.reverse(),
    {
        let o = Vector::new(self.o.x, self.o.y, self.o.z);
        let ti = narrow(-self.i.dot(&o));
        let tj = narrow(-self.j.dot(&o));
        let tk = narrow(-self.k.dot(&o));
        Matrix::from_lines(
            [self.i.x, self.i.y, self.i.z, ti],
            [self.j.x, self.j.y, self.j.z, tj],
            [self.k.x, self.k.y, self.k.z, tk],
            [0, 0, 0, 1],
        )
    }

    /// Moves the origin by `v`. The matrix to the reference system becomes
    /// the translation by `v` times the former one, and the matrix from the
    /// reference system the former one times the translation by `-v`.
    pub fn translate(&mut self, v: &Vector)
        requires
            old(self).o@.plus(v@).fits(),
        ensures
            final(self).o@ == old(self).o@.plus(v@),
            final(self).i == old(self).i,
            final(self).j == old(self).j,
            final(self).k == old(self).k,
            final(self).forward() == Mat4::translation(v@).mul(old(self).forward()),
            final(self).reverse() == old(self).reverse().mul(Mat4::translation(v@.neg())),
    {
        proof {
            lemma_translated(self.o@, self.i@, self.j@, self.k@, v@);
        }
        self.o = self.o.plus(v);
    }

    /// The reference system.
    pub fn new() -> (cs: Cs)
        ensures
            cs == Cs::reference(),
            cs.is_direct(),
    {
        Cs {
            o: Point::origin(),
            i: Vector { x: 1, y: 0, z: 0 },
            j: Vector { x: 0, y: 1, z: 0 },
            k: Vector { x: 0, y: 0, z: 1 },
        }
    }

    /// The system with origin `o` and axes `i`, `j`, `k`, if the axes form a
    /// direct orthonormal base. Otherwise the first condition, in the order
    /// of examination, that they do not meet.
    pub fn build(o: Point, i: Vector, j: Vector, k: Vector) -> (r: Result<Cs, BaseError>)
        ensures
            r == match BaseChecks::exact(i@, j@, k@).judged() {
                Ok(()) => Ok::<Cs, BaseError>(Cs { o, i, j, k }),
                Err(e) => Err(e),
            },
            r is Ok <==> is_direct_orthonormal(i@, j@, k@),
            r matches Err(e) ==> BaseChecks::exact(i@, j@, k@).first_failure_is(e),
    {
        match check_base(&i, &j, &k) {
            Ok(()) => Ok(Cs { o, i, j, k }),
            Err(e) => Err(e),
        }
    }

    /// Replaces the system by the one with origin `o` and third axis `k`.
    ///
    /// The second axis is the "up" direction with its component along `k`
    /// taken out, and the first axis is the cross product of the second and
    /// the third. Where `k` points up or down the first two axes are the
    /// ones chosen by hand for that case.
    pub fn complete_cs(&mut self, o: &Point, k: &Vector)
        requires
            k@.is_unit(),
        ensures
            final(self).o == *o,
            final(self).k == *k,
            final(self).i@ == completed_i(k@),
            final(self).j@ == completed_j(k@),
            final(self).is_direct(),
    {
        proof {
            lemma_completion_is_direct(k@);
        }
        let (i, j) = match CompletionCase::classify(k).fallback_axes() {
            Some(axes) => axes,
            None => {
                proof {
                    lemma_unit_is_axis(k@);
                    assert(k.y == 0);
                    assert(k@.scale(0) == Vec3 { x: 0, y: 0, z: 0 }) by (nonlinear_arith);
                    assert(up_projected(k@) == Vec3::j());
                    assert(Vec3::j().cross(k@) == Vec3 { x: k.z as int, y: 0, z: -k.x })
                        by (nonlinear_arith);
                }
                let j = Vector::unit_j().minus(&k.scale(k.y));
                let i = j.cross(k);
                (i, j)
            },
        };
        self.o = *o;
        self.i = i;
        self.j = j;
        self.k = *k;
    }
}

impl Default for Cs {
    fn default() -> (cs: Cs)
        ensures
            cs == Cs::reference(),
    {
        Cs::new()
    }
}

/// Moving the origin of a system by `v` multiplies its matrix to the
/// reference system by the translation by `v` on the left, and its matrix
/// from the reference system by the translation by `-v` on the right.
pub proof fn lemma_translated(o: Vec3, i: Vec3, j: Vec3, k: Vec3, v: Vec3)
    ensures
        local_to_reference(o.plus(v), i, j, k) == Mat4::translation(v).mul(
            local_to_reference(o, i, j, k),
        ),
        reference_to_local(o.plus(v), i, j, k) == reference_to_local(o, i, j, k).mul(
            Mat4::translation(v.neg()),
        ),
{
    let f = local_to_reference(o, i, j, k);
    let t = Mat4::translation(v);
    lemma_unit_line(Vec4 { x: 1, y: 0, z: 0, w: v.x }, f);
    lemma_unit_line(Vec4 { x: 0, y: 1, z: 0, w: v.y }, f);
    lemma_unit_line(Vec4 { x: 0, y: 0, z: 1, w: v.z }, f);
    lemma_unit_line(Vec4 { x: 0, y: 0, z: 0, w: 1 }, f);
    assert(t.mul(f) == local_to_reference(o.plus(v), i, j, k));
    let r = reference_to_local(o, i, j, k);
    let u = Mat4::translation(v.neg());
    lemma_line_after_translation(r.l0, v);
    lemma_line_after_translation(r.l1, v);
    lemma_line_after_translation(r.l2, v);
    lemma_line_after_translation(r.l3, v);
    lemma_dot_of_sum(i, o, v);
    lemma_dot_of_sum(j, o, v);
    lemma_dot_of_sum(k, o, v);
    assert(r.mul(u) == reference_to_local(o.plus(v), i, j, k));
}

/// A line with entries 0 and 1 in its first three places picks lines of
/// the matrix it multiplies.
proof fn lemma_unit_line(l: Vec4, m: Mat4)
    requires
        l.x == 0 || l.x == 1,
        l.y == 0 || l.y == 1,
        l.z == 0 || l.z == 1,
        m.is_affine(),
    ensures
        Mat4::line_times(l, m) == (Vec4 {
            x: l.x * m.l0.x + l.y * m.l1.x + l.z * m.l2.x,
            y: l.x * m.l0.y + l.y * m.l1.y + l.z * m.l2.y,
            z: l.x * m.l0.z + l.y * m.l1.z + l.z * m.l2.z,
            w: l.x * m.l0.w + l.y * m.l1.w + l.z * m.l2.w + l.w,
        }),
{
    let w = l.w;
    assert(w * 0 == 0 && w * 1 == w) by (nonlinear_arith);
}

/// A line times the translation by `-v`.
proof fn lemma_line_after_translation(l: Vec4, v: Vec3)
    ensures
        Mat4::line_times(l, Mat4::translation(v.neg())) == (Vec4 {
            x: l.x,
            y: l.y,
            z: l.z,
            w: l.w - l.xyz().dot(v),
        }),
{
    let (x, y, z, w) = (l.x, l.y, l.z, l.w);
    let (a, b, c) = (v.x, v.y, v.z);
    assert(x * 1 == x && x * 0 == 0 && y * 1 == y && y * 0 == 0 && z * 1 == z && z * 0 == 0 && w
        * 0 == 0 && w * 1 == w) by (nonlinear_arith);
    assert(x * (-a) == -(x * a) && y * (-b) == -(y * b) && z * (-c) == -(z * c))
        by (nonlinear_arith);
}

/// The dot product with a sum is the sum of the dot products.
proof fn lemma_dot_of_sum(a: Vec3, o: Vec3, v: Vec3)
    ensures
        a.dot(o.plus(v)) == a.dot(o) + a.dot(v),
{
    lemma_mul_is_distributive_add(a.x, o.x, v.x);
    lemma_mul_is_distributive_add(a.y, o.y, v.y);
    lemma_mul_is_distributive_add(a.z, o.z, v.z);
}

/// The matrix from the reference system to a system with a direct
/// orthonormal base has lattice entries, unless a coordinate of the origin
/// is the least of all lattice coordinates.
pub proof fn lemma_reverse_fits(cs: Cs)
    requires
        cs.is_direct(),
        cs.o.x > i32::MIN,
        cs.o.y > i32::MIN,
        cs.o.z > i32::MIN,
    ensures
        cs.reverse().fits(),
{
    lemma_direct_axes(cs.i@, cs.j@, cs.k@);
    lemma_unit_is_axis(cs.i@);
    lemma_unit_is_axis(cs.j@);
    lemma_unit_is_axis(cs.k@);
    lemma_resolve(cs.i@, cs.o@);
    lemma_resolve(cs.j@, cs.o@);
    lemma_resolve(cs.k@, cs.o@);
}

/// `x`, its opposite or nothing, as the sign `s` says.
spec fn signed(s: int, x: int) -> int {
    if s == 0 {
        0
    } else if s == 1 {
        x
    } else {
        -x
    }
}

/// Whether every component is -1, 0 or 1.
spec fn is_signs(a: Vec3) -> bool {
    &&& -1 <= a.x <= 1
    &&& -1 <= a.y <= 1
    &&& -1 <= a.z <= 1
}

/// A product by -1, 0 or 1.
proof fn lemma_signed_times(s: int, x: int)
    requires
        -1 <= s <= 1,
    ensures
        s * x == signed(s, x),
        x * s == signed(s, x),
{
    assert(s * x == signed(s, x) && x * s == signed(s, x)) by (nonlinear_arith)
        requires
            s == -1 || s == 0 || s == 1,
            signed(s, x) == if s == 0 {
                0
            } else if s == 1 {
                x
            } else {
                -x
            },
    ;
}

/// The nine products of a component of `a`, each -1, 0 or 1, and a
/// component of `b`.
proof fn lemma_resolve(a: Vec3, b: Vec3)
    requires
        is_signs(a),
    ensures
        a.x * b.x == signed(a.x, b.x),
        a.x * b.y == signed(a.x, b.y),
        a.x * b.z == signed(a.x, b.z),
        a.y * b.x == signed(a.y, b.x),
        a.y * b.y == signed(a.y, b.y),
        a.y * b.z == signed(a.y, b.z),
        a.z * b.x == signed(a.z, b.x),
        a.z * b.y == signed(a.z, b.y),
        a.z * b.z == signed(a.z, b.z),
{
    lemma_signed_times(a.x, b.x);
    lemma_signed_times(a.x, b.y);
    lemma_signed_times(a.x, b.z);
    lemma_signed_times(a.y, b.x);
    lemma_signed_times(a.y, b.y);
    lemma_signed_times(a.y, b.z);
    lemma_signed_times(a.z, b.x);
    lemma_signed_times(a.z, b.y);
    lemma_signed_times(a.z, b.z);
}

/// The axes of a direct orthonormal base of the lattice have components
/// -1, 0 and 1, and all their products among themselves are resolved.
proof fn lemma_direct_axes(i: Vec3, j: Vec3, k: Vec3)
    requires
        is_direct_orthonormal(i, j, k),
    ensures
        is_signs(i),
        is_signs(j),
        is_signs(k),
{
    lemma_unit_is_axis(i);
    lemma_unit_is_axis(j);
    lemma_unit_is_axis(k);
}

/// Going to the reference system and back changes neither a point nor a
/// vector.
proof fn lemma_there_and_back(o: Vec3, i: Vec3, j: Vec3, k: Vec3, p: Vec3)
    requires
        is_direct_orthonormal(i, j, k),
    ensures
        reference_to_local(o, i, j, k).apply_point(local_to_reference(o, i, j, k).apply_point(p))
            == p,
        reference_to_local(o, i, j, k).apply_vector(
            local_to_reference(o, i, j, k).apply_vector(p),
        ) == p,
{
    lemma_direct_axes(i, j, k);
    let f = local_to_reference(o, i, j, k);
    let q = f.apply_point(p);
    let v = f.apply_vector(p);
    lemma_resolve(i, i);
    lemma_resolve(i, j);
    lemma_resolve(i, k);
    lemma_resolve(j, j);
    lemma_resolve(j, k);
    lemma_resolve(k, k);
    lemma_resolve(i, p);
    lemma_resolve(j, p);
    lemma_resolve(k, p);
    lemma_resolve(i, o);
    lemma_resolve(j, o);
    lemma_resolve(k, o);
    lemma_resolve(i, q);
    lemma_resolve(j, q);
    lemma_resolve(k, q);
    lemma_resolve(i, v);
    lemma_resolve(j, v);
    lemma_resolve(k, v);
}

/// Coming from the reference system and going back changes neither a point
/// nor a vector.
proof fn lemma_back_and_there(o: Vec3, i: Vec3, j: Vec3, k: Vec3, p: Vec3)
    requires
        is_direct_orthonormal(i, j, k),
    ensures
        local_to_reference(o, i, j, k).apply_point(reference_to_local(o, i, j, k).apply_point(p))
            == p,
        local_to_reference(o, i, j, k).apply_vector(
            reference_to_local(o, i, j, k).apply_vector(p),
        ) == p,
{
    lemma_direct_axes(i, j, k);
    let r = reference_to_local(o, i, j, k);
    let q = r.apply_point(p);
    let v = r.apply_vector(p);
    lemma_resolve(i, i);
    lemma_resolve(i, j);
    lemma_resolve(i, k);
    lemma_resolve(j, j);
    lemma_resolve(j, k);
    lemma_resolve(k, k);
    lemma_resolve(i, p);
    lemma_resolve(j, p);
    lemma_resolve(k, p);
    lemma_resolve(i, o);
    lemma_resolve(j, o);
    lemma_resolve(k, o);
    lemma_resolve(i, q);
    lemma_resolve(j, q);
    lemma_resolve(k, q);
    lemma_resolve(i, v);
    lemma_resolve(j, v);
    lemma_resolve(k, v);
}

/// The two matrices of a direct orthonormal base multiply to the identity,
/// in either order.
proof fn lemma_products_are_identity(o: Vec3, i: Vec3, j: Vec3, k: Vec3)
    requires
        is_direct_orthonormal(i, j, k),
    ensures
        reference_to_local(o, i, j, k).mul(local_to_reference(o, i, j, k)) == Mat4::identity(),
        local_to_reference(o, i, j, k).mul(reference_to_local(o, i, j, k)) == Mat4::identity(),
{
    lemma_direct_axes(i, j, k);
    let t = Vec3 { x: -i.dot(o), y: -j.dot(o), z: -k.dot(o) };
    lemma_resolve(i, i);
    lemma_resolve(i, j);
    lemma_resolve(i, k);
    lemma_resolve(j, i);
    lemma_resolve(j, j);
    lemma_resolve(j, k);
    lemma_resolve(k, i);
    lemma_resolve(k, j);
    lemma_resolve(k, k);
    lemma_resolve(i, o);
    lemma_resolve(j, o);
    lemma_resolve(k, o);
    lemma_resolve(i, t);
    lemma_resolve(j, t);
    lemma_resolve(k, t);
    let (tx, ty, tz) = (t.x, t.y, t.z);
    let (ox, oy, oz) = (o.x, o.y, o.z);
    assert(tx * 0 == 0 && ty * 0 == 0 && tz * 0 == 0 && tx * 1 == tx && ty * 1 == ty && tz * 1
        == tz && ox * 0 == 0 && oy * 0 == 0 && oz * 0 == 0 && ox * 1 == ox && oy * 1 == oy && oz
        * 1 == oz && 0 * ox == 0 && 0 * oy == 0 && 0 * oz == 0) by (nonlinear_arith);
    lemma_resolve(Vec3 { x: 0, y: 0, z: 0 }, i);
    lemma_resolve(Vec3 { x: 0, y: 0, z: 0 }, j);
    lemma_resolve(Vec3 { x: 0, y: 0, z: 0 }, k);
    lemma_resolve(Vec3 { x: 0, y: 0, z: 0 }, t);
    lemma_resolve(Vec3 { x: 0, y: 0, z: 0 }, Vec3 { x: i.x, y: j.x, z: k.x });
    lemma_resolve(Vec3 { x: 0, y: 0, z: 0 }, Vec3 { x: i.y, y: j.y, z: k.y });
    lemma_resolve(Vec3 { x: 0, y: 0, z: 0 }, Vec3 { x: i.z, y: j.z, z: k.z });
}

/// Round trip: for a system with a direct orthonormal base, the matrix to
/// the reference system followed by the matrix from it, or the other way
/// round, changes neither a point nor a vector, and the two matrices
/// multiply to the identity.
pub proof fn lemma_round_trip(cs: Cs, p: Vec3)
    requires
        cs.is_direct(),
    ensures
        cs.reverse().apply_point(cs.forward().apply_point(p)) == p,
        cs.forward().apply_point(cs.reverse().apply_point(p)) == p,
        cs.reverse().apply_vector(cs.forward().apply_vector(p)) == p,
        cs.forward().apply_vector(cs.reverse().apply_vector(p)) == p,
        cs.reverse().mul(cs.forward()) == Mat4::identity(),
        cs.forward().mul(cs.reverse()) == Mat4::identity(),
{
    lemma_there_and_back(cs.o@, cs.i@, cs.j@, cs.k@, p);
    lemma_back_and_there(cs.o@, cs.i@, cs.j@, cs.k@, p);
    lemma_products_are_identity(cs.o@, cs.i@, cs.j@, cs.k@);
}

/// The general case of completion, for a third axis `k` of any length and
/// any direction with integer components.
///
/// With `j` the "up" direction projected onto the plane normal to `k`, and
/// `i` the cross product of `j` and `k`, the three vectors are pairwise at
/// right angles and follow the right-hand rule: each is the cross product
/// of the next two up to a factor that is not negative. `j` and `i` vanish
/// only where `k` has no component across the "up" direction. Bringing the
/// three vectors to length one therefore gives a direct orthonormal base.
pub proof fn lemma_projection_frame(k: Vec3)
    ensures
        ({
            let n = k.square_length();
            let j = up_projected_from(k);
            let i = j.cross(k);
            &&& n >= 0
            &&& j.is_normal_to(k)
            &&& i.is_normal_to(j)
            &&& k.is_normal_to(i)
            &&& k.cross(i) == j.scale(n)
            &&& i.cross(j) == k.scale(j.square_length())
            &&& j.square_length() == n * (k.x * k.x + k.z * k.z)
            &&& i.square_length() == n * j.square_length()
            &&& k.is_unit() ==> j == up_projected(k)
        }),
{
    let n = k.square_length();
    let up = Vec3::j();
    let j = up_projected_from(k);
    let i = j.cross(k);
    let (x, y, z) = (k.x, k.y, k.z);
    assert(x * x >= 0 && y * y >= 0 && z * z >= 0) by (nonlinear_arith);
    assert(0 * x == 0 && 1 * y == y && 0 * z == 0 && n * 0 == 0 && n * 1 == n && 1 * 0 == 0 && 1
        * 1 == 1) by (nonlinear_arith);
    assert(up.dot(k) == y);
    // j.k = n (J.k) - y (k.k) = 0
    lemma_dot_of_difference(up.scale(n), k.scale(y), k);
    lemma_dot_of_scaled(up, n, k);
    lemma_dot_of_scaled(k, y, k);
    lemma_mul_is_commutative(n, y);
    assert(j.dot(k) == 0);
    lemma_dot_exchanged(j, k);
    // i is normal to j and k
    lemma_cross_is_normal(j, k);
    lemma_dot_exchanged(i, k);
    // k x (j x k) = (k.k) j - (k.j) k
    lemma_double_cross(k, j, k);
    assert(0 * x == 0 && 0 * y == 0 && 0 * z == 0) by (nonlinear_arith);
    assert(k.scale(0) == Vec3 { x: 0, y: 0, z: 0 });
    assert(k.cross(i) == j.scale(n));
    // (j x k) x j = -(j x (j x k)) = (j.j) k
    lemma_cross_exchanged(j, i);
    lemma_double_cross(j, j, k);
    let (jx, jy, jz) = (j.x, j.y, j.z);
    assert(0 * jx == 0 && 0 * jy == 0 && 0 * jz == 0) by (nonlinear_arith);
    assert(j.scale(0) == Vec3 { x: 0, y: 0, z: 0 });
    assert(i.cross(j) == k.scale(j.square_length()));
    // |j|^2 = n (J.j) - y (k.j) = n (n - y^2)
    lemma_dot_of_difference(up.scale(n), k.scale(y), j);
    lemma_dot_of_scaled(up, n, j);
    lemma_dot_of_scaled(k, y, j);
    assert(0 * jx == 0 && 1 * jy == jy && 0 * jz == 0 && y * 0 == 0) by (nonlinear_arith);
    assert(up.dot(j) == jy);
    assert(jy == n - y * y);
    assert(n - y * y == x * x + z * z);
    assert(j.square_length() == n * (x * x + z * z));
    // |i|^2 = |j|^2 |k|^2 - (j.k)^2
    lemma_cross_square_length(j, k);
    lemma_mul_is_commutative(j.square_length(), n);
    assert(0 * 0 == 0);
    if k.is_unit() {
        assert(up.scale(1) == up) by (nonlinear_arith)
            requires
                up == Vec3::j(),
        ;
    }
}

/// A unit vector of the lattice lies along one of the three reference axes.
pub proof fn lemma_unit_is_axis(k: Vec3)
    requires
        k.is_unit(),
    ensures
        k == Vec3::i() || k == Vec3::i().neg() || k == Vec3::j() || k == Vec3::j().neg() || k
            == Vec3::k() || k == Vec3::k().neg(),
{
    let (x, y, z) = (k.x, k.y, k.z);
    assert(x * x + y * y + z * z == 1);
    assert(-1 <= x <= 1 && -1 <= y <= 1 && -1 <= z <= 1) by (nonlinear_arith)
        requires
            x * x + y * y + z * z == 1,
    ;
    assert((x == 0 || x * x == 1) && (y == 0 || y * y == 1) && (z == 0 || z * z == 1))
        by (nonlinear_arith)
        requires
            -1 <= x <= 1,
            -1 <= y <= 1,
            -1 <= z <= 1,
    ;
    assert(0 * 0 == 0);
}

/// Completing a system from any unit vector of the lattice gives a direct
/// orthonormal base: unit axes, pairwise at right angles, that follow the
/// right-hand rule.
pub proof fn lemma_completion_is_direct(k: Vec3)
    requires
        k.is_unit(),
    ensures
        is_direct_orthonormal(completed_i(k), completed_j(k), k),
{
    lemma_unit_is_axis(k);
    assert(is_direct_orthonormal(completed_i(k), completed_j(k), k)) by (nonlinear_arith)
        requires
            k == Vec3::i() || k == Vec3::i().neg() || k == Vec3::j() || k == Vec3::j().neg() || k
                == Vec3::k() || k == Vec3::k().neg(),
    ;
}

} // verus!
