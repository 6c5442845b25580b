//! The cylinder: every point within a radius of the second axis of its
//! system, however far along that axis.
//!
//! Only the coordinates across the axis count. A ray `o + t v` meets the
//! surface where `a t^2 + 2 h t + c = 0`, with `a = v.x^2 + v.z^2`,
//! `h = v.x o.x + v.z o.z` and `c = o.x^2 + o.z^2 - radius^2`.

use vstd::prelude::*;
use crate::cs::Cs;
use crate::matrix::{Mat4, Matrix};
use crate::ray::{Line, Ray};
use crate::shapes::{Distance, Hit, Root, Shapes, Surd};
use crate::vector::{lemma_product_bound, wide, Vec3};

verus! {

/// Whether the ray travels along the axis of the cylinder: the cross
/// product of its direction and the axis vanishes.
pub open spec fn along_axis(ray: Line) -> bool {
    ray.v.cross(Vec3::j()) == (Vec3 { x: 0, y: 0, z: 0 })
}

/// The square of the distance from the origin of the ray to the axis.
pub open spec fn off_axis(ray: Line) -> int {
    ray.o.x * ray.o.x + ray.o.z * ray.o.z
}

/// The quadratic coefficient: `v.x^2 + v.z^2`.
pub open spec fn quadratic(ray: Line) -> int {
    ray.v.x * ray.v.x + ray.v.z * ray.v.z
}

/// Half the linear coefficient: `v.x o.x + v.z o.z`.
pub open spec fn half_b(ray: Line) -> int {
    ray.v.x * ray.o.x + ray.v.z * ray.o.z
}

/// Where the ray `ray`, given in the cylinder's system, first hits the
/// cylinder of squared radius `radius2`.
///
/// A ray along the axis that starts inside the cylinder, or on it, hits at
/// once. Any other ray hits at the smaller root if the discriminant is
/// strictly positive and that root is strictly positive, and nowhere
/// otherwise.
pub open spec fn nearest(radius2: int, ray: Line) -> Hit {
    if along_axis(ray) && off_axis(ray) <= radius2 {
        Hit::Least
    } else {
        let root = Root::smaller_of(quadratic(ray), half_b(ray), off_axis(ray) - radius2);
        if root.radicand > 0 && root.is_positive() {
            Hit::At(root)
        } else {
            Hit::Miss
        }
    }
}

/// A cylinder of a given radius around the second axis of its system `cs`,
/// with the matrix `cam_to_lcs` that takes the camera's coordinates to its
/// own. `radius2` holds the square of the radius.
#[derive(Clone, Copy, Debug)]
pub struct Cylinder {
    pub cs: Cs,
    pub cam_to_lcs: Matrix,
    pub radius: i32,
    pub radius2: i64,
}

impl Cylinder {
    /// Whether the radius is positive and `radius2` is its square.
    pub open spec fn well_formed(self) -> bool {
        &&& self.radius > 0
        &&& self.radius2 == self.radius * self.radius
    }

    /// A cylinder of radius `radius` in the reference system, seen by a
    /// camera in the reference system.
    pub fn build(radius: i32) -> (c: Cylinder)
        requires
            radius > 0,
        ensures
            c.well_formed(),
            c.radius == radius,
            c.cs == Cs::reference(),
            c.cam_to_lcs@ == Mat4::identity(),
    {
        proof {
            lemma_product_bound(radius, radius);
        }
        Cylinder {
            cs: Cs::new(),
            cam_to_lcs: Matrix::identity(),
            radius,
            radius2: (radius as i64) * (radius as i64),
        }
    }

}

impl Shapes for Cylinder {
    open spec fn placement(&self) -> Cs {
        self.cs
    }

    open spec fn camera_matrix(&self) -> Mat4 {
        self.cam_to_lcs@
    }

    /// Never: the cylinder answers only the question of distance.
    open spec fn touched(&self, ray: Line) -> bool {
        false
    }

    /// At once for a ray along the axis that starts within the radius, and
    /// else at the smaller root, if the discriminant and the root are
    /// strictly positive.
    open spec fn hit(&self, ray: Line) -> Hit {
        nearest(self.radius2 as int, ray)
    }

    /// Nothing.
    open spec fn tells(&self, ray: Line) -> bool {
        true
    }

    /// The cylinder is well formed, and the ray is on the lattice in the
    /// cylinder's system.
    open spec fn admits(&self, ray: Line) -> bool {
        &&& self.well_formed()
        &&& ray.through(self.cam_to_lcs@).fits()
    }

    fn get_matrix_to_lcs(&self) -> (m: Matrix) {
        self.cs.get_matrix_to_lcs()
    }

    fn get_matrix_to_rcs(&self) -> (m: Matrix) {
        self.cs.get_matrix_to_rcs()
    }

    fn set_transform(&mut self, m: Matrix)
        ensures
            final(self).cam_to_lcs == m,
            final(self).cs == old(self).cs,
            final(self).radius == old(self).radius,
            final(self).radius2 == old(self).radius2,
    {
        self.cam_to_lcs = m;
    }

    fn set_shape_cs(&mut self, cs: Cs)
        ensures
            final(self).cs == cs,
            final(self).cam_to_lcs == old(self).cam_to_lcs,
            final(self).radius == old(self).radius,
            final(self).radius2 == old(self).radius2,
    {
        self.cs = cs;
    }

    fn intersect(&self, ray: &Ray) -> (b: bool) {
        false
    }

    fn intersect_min(&self, ray: &Ray) -> (d: Option<Distance>)
        ensures
            d matches Some(Distance::At(s)) ==> s.divisor > 0,
    {
        let local = ray.through(&self.cam_to_lcs);
        let (ox, oz) = (wide(local.o.x), wide(local.o.z));
        let (vx, vz) = (wide(local.v.x), wide(local.v.z));
        proof {
            lemma_product_bound(local.o.x, local.o.x);
            lemma_product_bound(local.o.z, local.o.z);
            lemma_product_bound(local.v.x, local.v.x);
            lemma_product_bound(local.v.z, local.v.z);
            lemma_product_bound(local.v.x, local.o.x);
            lemma_product_bound(local.v.z, local.o.z);
            lemma_product_bound(self.radius, self.radius);
            lemma_squares(ox as int, oz as int);
            lemma_squares(vx as int, vz as int);
            lemma_along_axis(local@);
        }
        let val = ox * ox + oz * oz;
        let r2 = self.radius2 as i128;
        if vx == 0 && vz == 0 && val <= r2 {
            Some(Distance::Least)
        } else {
            let a = vx * vx + vz * vz;
            let h = vx * ox + vz * oz;
            let c = val - r2;
            proof {
                lemma_reduced_bound(a as int, h as int, c as int);
                lemma_divisor(local@, self.radius2 as int);
            }
            let delta = h * h - a * c;
            if delta > 0 && h < 0 && c > 0 {
                assert((-h) * (-h) == h * h) by (nonlinear_arith);
                assert(a * c > 0) by (nonlinear_arith)
                    requires
                        a > 0,
                        c > 0,
                ;
                Some(Distance::At(Surd { lead: -h, radicand: delta, divisor: a }))
            } else {
                proof {
                    assert((-h) * (-h) == h * h) by (nonlinear_arith);
                    if delta > 0 && h < 0 {
                        assert(a * c <= 0) by (nonlinear_arith)
                            requires
                                a >= 0,
                                c <= 0,
                        ;
                    }
                }
                None
            }
        }
    }
}

/// Squares are not negative, and two of them vanish together only where
/// both numbers do.
proof fn lemma_squares(x: int, z: int)
    ensures
        x * x >= 0,
        z * z >= 0,
        x * x + z * z == 0 <==> x == 0 && z == 0,
{
    assert(x * x >= 0 && z * z >= 0 && (x != 0 ==> x * x > 0) && (z != 0 ==> z * z > 0))
        by (nonlinear_arith);
}

/// A ray travels along the axis exactly where its direction has no
/// component across the axis.
proof fn lemma_along_axis(ray: Line)
    ensures
        along_axis(ray) <==> ray.v.x == 0 && ray.v.z == 0,
{
    let (x, y, z) = (ray.v.x, ray.v.y, ray.v.z);
    assert(y * 0 - z * 1 == -z && z * 0 - x * 0 == 0 && x * 1 - y * 0 == x) by (nonlinear_arith);
}

/// The terms of the reduced discriminant fit the type of wide values.
proof fn lemma_reduced_bound(a: int, h: int, c: int)
    requires
        0 <= a <= 0x8000_0000_0000_0000,
        -0x8000_0000_0000_0000 <= h <= 0x8000_0000_0000_0000,
        -0x4000_0000_0000_0000 <= c <= 0x8000_0000_0000_0000,
    ensures
        0 <= h * h <= 0x4000_0000_0000_0000_0000_0000_0000_0000,
        -0x2000_0000_0000_0000_0000_0000_0000_0000 <= a * c
            <= 0x4000_0000_0000_0000_0000_0000_0000_0000,
{
    assert(0 <= h * h <= 0x4000_0000_0000_0000_0000_0000_0000_0000) by (nonlinear_arith)
        requires
            -0x8000_0000_0000_0000 <= h <= 0x8000_0000_0000_0000,
    ;
    assert(-0x2000_0000_0000_0000_0000_0000_0000_0000 <= a * c
        <= 0x4000_0000_0000_0000_0000_0000_0000_0000) by (nonlinear_arith)
        requires
            0 <= a <= 0x8000_0000_0000_0000,
            -0x4000_0000_0000_0000 <= c <= 0x8000_0000_0000_0000,
    ;
}

/// Where the discriminant is strictly positive the ray has a component
/// across the axis, so the root has a positive divisor.
pub proof fn lemma_divisor(ray: Line, radius2: int)
    ensures
        Root::smaller_of(quadratic(ray), half_b(ray), off_axis(ray) - radius2).radicand > 0
            ==> quadratic(ray) > 0,
{
    let (x, z) = (ray.v.x, ray.v.z);
    let (p, q) = (ray.o.x, ray.o.z);
    let c = off_axis(ray) - radius2;
    lemma_squares(x, z);
    if quadratic(ray) == 0 {
        assert(0 * p == 0 && 0 * q == 0 && 0 * c == 0 && 0 * 0 == 0) by (nonlinear_arith);
    }
}

/// Along the axis: a ray that travels along the axis of the cylinder hits
/// at once if it starts within the radius of the axis, and not at all if it
/// starts farther out.
pub proof fn lemma_cylinder_along_axis(radius2: int, ray: Line)
    requires
        along_axis(ray),
    ensures
        off_axis(ray) <= radius2 ==> nearest(radius2, ray) == Hit::Least,
        off_axis(ray) > radius2 ==> nearest(radius2, ray) == Hit::Miss,
{
    lemma_along_axis(ray);
    lemma_divisor(ray, radius2);
}

} // verus!
