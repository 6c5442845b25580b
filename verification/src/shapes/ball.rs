//! The ball: every point within a radius of the origin of its system.
//!
//! A ray `o + t v` with a unit direction meets the surface where
//! `t^2 + 2 h t + c = 0`, with `h = v.o` and `c = o.o - radius^2`.

use vstd::prelude::*;
use crate::cs::{lemma_unit_is_axis, Cs};
use crate::matrix::{Mat4, Matrix};
use crate::ray::{Line, Ray};
use crate::shapes::{reduced_discriminant, Distance, Hit, Root, Shapes, Surd};
use crate::vector::{lemma_product_bound, Vec3, Vector};

verus! {

/// Half the linear coefficient of the equation of the ray `ray`, given in
/// the ball's system: `v.o`.
pub open spec fn half_b(ray: Line) -> int {
    ray.v.dot(ray.o)
}

/// The constant coefficient: `o.o - radius^2`.
pub open spec fn constant(radius: int, ray: Line) -> int {
    ray.o.square_length() - radius * radius
}

/// Whether the line that carries the ray `ray`, given in the ball's system,
/// meets the ball: the discriminant is not negative.
pub open spec fn touches(radius: int, ray: Line) -> bool {
    reduced_discriminant(1, half_b(ray), constant(radius, ray)) >= 0
}

/// Where the ray `ray`, given in the ball's system and of unit direction,
/// first hits the ball: at the smaller root if that root exists and is
/// strictly positive, and nowhere otherwise.
pub open spec fn nearest(radius: int, ray: Line) -> Hit {
    let root = Root::smaller_of(1, half_b(ray), constant(radius, ray));
    if root.is_positive() {
        Hit::At(root)
    } else {
        Hit::Miss
    }
}

/// A ball of a given radius around the origin of its system `cs`, with the
/// matrix `cam_to_lcs` that takes the camera's coordinates to its own.
#[derive(Clone, Copy, Debug)]
pub struct Ball {
    pub cs: Cs,
    pub cam_to_lcs: Matrix,
    pub radius: i32,
}

impl Ball {
    /// A ball of radius `radius` in the reference system, seen by a camera
    /// in the reference system.
    pub fn build(radius: i32) -> (b: Ball)
        requires
            radius > 0,
        ensures
            b.radius == radius,
            b.cs == Cs::reference(),
            b.cam_to_lcs@ == Mat4::identity(),
    {
        Ball { cs: Cs::new(), cam_to_lcs: Matrix::identity(), radius }
    }
}

impl Shapes for Ball {
    open spec fn placement(&self) -> Cs {
        self.cs
    }

    open spec fn camera_matrix(&self) -> Mat4 {
        self.cam_to_lcs@
    }

    /// The discriminant is not negative.
    open spec fn touched(&self, ray: Line) -> bool {
        touches(self.radius as int, ray)
    }

    /// At the smaller root, if it exists and is strictly positive.
    open spec fn hit(&self, ray: Line) -> Hit {
        nearest(self.radius as int, ray)
    }

    /// The ray is on the lattice in the ball's system.
    open spec fn tells(&self, ray: Line) -> bool {
        ray.through(self.cam_to_lcs@).fits()
    }

    /// The ray is on the lattice in the ball's system, and its direction
    /// there is a unit vector.
    open spec fn admits(&self, ray: Line) -> bool {
        &&& ray.through(self.cam_to_lcs@).fits()
        &&& ray.through(self.cam_to_lcs@).v.is_unit()
    }

    fn get_matrix_to_lcs(&self) -> (m: Matrix) {
        self.cs.get_matrix_to_lcs()
    }

    fn get_matrix_to_rcs(&self) -> (m: Matrix) {
        self.cs.get_matrix_to_rcs()
    }

    fn set_transform(&mut self, m: Matrix)
        ensures
            final(self).cam_to_lcs == m,
            final(self).cs == old(self).cs,
            final(self).radius == old(self).radius,
    {
        self.cam_to_lcs = m;
    }

    fn set_shape_cs(&mut self, cs: Cs)
        ensures
            final(self).cs == cs,
            final(self).cam_to_lcs == old(self).cam_to_lcs,
            final(self).radius == old(self).radius,
    {
        self.cs = cs;
    }

    fn intersect(&self, ray: &Ray) -> (b: bool) {
        let local = ray.through(&self.cam_to_lcs);
        let o = Vector::new(local.o.x, local.o.y, local.o.z);
        proof {
            lemma_dot_bound(local.v, o);
            lemma_dot_bound(o, o);
        }
        let h = local.v.dot(&o);
        let c = o.square_length() - square(self.radius);
        assert(1 * c == c);
        if c <= 0 {
            assert(h * h >= 0) by (nonlinear_arith);
            true
        } else if h >= 0x1_0000_0000 || h <= -0x1_0000_0000 {
            assert(h * h >= 0x1_0000_0000_0000_0000) by (nonlinear_arith)
                requires
                    h >= 0x1_0000_0000 || h <= -0x1_0000_0000,
            ;
            true
        } else {
            assert(0 <= h * h <= 0x1_0000_0000_0000_0000) by (nonlinear_arith)
                requires
                    -0x1_0000_0000 < h < 0x1_0000_0000,
            ;
            h * h >= c
        }
    }

    fn intersect_min(&self, ray: &Ray) -> (d: Option<Distance>) {
        let local = ray.through(&self.cam_to_lcs);
        let o = Vector::new(local.o.x, local.o.y, local.o.z);
        proof {
            lemma_unit_dot_bound(local.v@, o);
            lemma_dot_bound(o, o);
        }
        let h = local.v.dot(&o);
        let c = o.square_length() - square(self.radius);
        proof {
            assert(1 * c == c);
            assert(0 <= h * h <= 0x4000_0000_0000_0000) by (nonlinear_arith)
                requires
                    -0x8000_0000 <= h <= 0x8000_0000,
            ;
            assert((-h) * (-h) == h * h) by (nonlinear_arith);
        }
        let delta = h * h - c;
        if delta >= 0 && h < 0 && c > 0 {
            Some(Distance::At(Surd { lead: -h, radicand: delta, divisor: 1 }))
        } else {
            None
        }
    }
}

/// The square of a lattice coordinate.
fn square(r: i32) -> (s: i128)
    ensures
        s == r * r,
        0 <= s <= 0x4000_0000_0000_0000,
{
    proof {
        lemma_product_bound(r, r);
        assert(r * r >= 0) by (nonlinear_arith);
    }
    (r as i128) * (r as i128)
}

/// The dot product of two lattice vectors is at most `3 * 2^62` in
/// magnitude.
proof fn lemma_dot_bound(a: Vector, b: Vector)
    ensures
        -0xC000_0000_0000_0000 <= a@.dot(b@) <= 0xC000_0000_0000_0000,
{
    lemma_product_bound(a.x, b.x);
    lemma_product_bound(a.y, b.y);
    lemma_product_bound(a.z, b.z);
}

/// The dot product of a unit vector of the lattice and a lattice vector is
/// one of the latter's coordinates or its opposite.
proof fn lemma_unit_dot_bound(v: Vec3, o: Vector)
    requires
        v.is_unit(),
    ensures
        -0x8000_0000 <= v.dot(o@) <= 0x8000_0000,
{
    lemma_unit_is_axis(v);
    let (x, y, z) = (o@.x, o@.y, o@.z);
    assert(0 * x == 0 && 0 * y == 0 && 0 * z == 0 && 1 * x == x && 1 * y == y && 1 * z == z
        && (-1) * x == -x && (-1) * y == -y && (-1) * z == -z) by (nonlinear_arith);
}

/// Head on: a ray that starts at distance `d` from the centre of a ball of
/// radius `r < d` and travels straight towards the centre hits the ball at
/// distance `d - r`.
pub proof fn lemma_ball_head_on(r: int, d: int, v: Vec3)
    requires
        0 < r < d,
        v.is_unit(),
    ensures
        nearest(r, Line { o: v.scale(-d), v }) matches Hit::At(root) && root.is_integer(d - r),
{
    lemma_unit_is_axis(v);
    let o = v.scale(-d);
    let ray = Line { o, v };
    assert(half_b(ray) == -d && o.square_length() == d * d) by (nonlinear_arith)
        requires
            v == Vec3::i() || v == Vec3::i().neg() || v == Vec3::j() || v == Vec3::j().neg() || v
                == Vec3::k() || v == Vec3::k().neg(),
            o == v.scale(-d),
            ray == (Line { o, v }),
    ;
    let c = d * d - r * r;
    assert(constant(r, ray) == c);
    assert(reduced_discriminant(1, -d, c) == r * r && d * d > r * r && (d - (d - r) * 1) * (d - (d
        - r) * 1) == r * r && 1 * c == c) by (nonlinear_arith)
        requires
            c == d * d - r * r,
            0 < r < d,
            reduced_discriminant(1, -d, c) == (-d) * (-d) - 1 * c,
    ;
}

/// Beyond: a ray whose line passes the centre of the ball at more than the
/// radius does not hit the ball.
pub proof fn lemma_ball_beyond(r: int, ray: Line)
    requires
        ray.v.is_unit(),
        ray.o.square_length() - half_b(ray) * half_b(ray) > r * r,
    ensures
        !touches(r, ray),
        nearest(r, ray) == Hit::Miss,
{
    let c = constant(r, ray);
    assert(1 * c == c);
}

/// Behind: a ray that travels away from the centre of the ball, or across
/// the direction to it, does not hit the ball, whatever the discriminant.
pub proof fn lemma_ball_behind(r: int, ray: Line)
    requires
        half_b(ray) >= 0,
    ensures
        nearest(r, ray) == Hit::Miss,
{
}

/// Past the ball: a ray that starts on the far side of the ball, at
/// distance `d > r` from the centre, and travels straight away from it,
/// does not hit the ball although its line meets it.
pub proof fn lemma_ball_receding(r: int, d: int, v: Vec3)
    requires
        0 < r < d,
        v.is_unit(),
    ensures
        touches(r, Line { o: v.scale(d), v }),
        nearest(r, Line { o: v.scale(d), v }) == Hit::Miss,
{
    lemma_unit_is_axis(v);
    let o = v.scale(d);
    let ray = Line { o, v };
    assert(half_b(ray) == d && o.square_length() == d * d) by (nonlinear_arith)
        requires
            v == Vec3::i() || v == Vec3::i().neg() || v == Vec3::j() || v == Vec3::j().neg() || v
                == Vec3::k() || v == Vec3::k().neg(),
            o == v.scale(d),
            ray == (Line { o, v }),
    ;
    let c = d * d - r * r;
    assert(reduced_discriminant(1, d, c) == r * r && r * r > 0) by (nonlinear_arith)
        requires
            c == d * d - r * r,
            0 < r,
            reduced_discriminant(1, d, c) == d * d - 1 * c,
    ;
}

} // verus!
