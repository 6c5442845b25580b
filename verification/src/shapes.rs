//! Shapes that a ray can hit, and the distance at which it does.
//!
//! A shape is placed by a coordinate system of its own, in which its
//! equation is simplest, and keeps the matrix that takes the camera's
//! coordinates to its own. A ray given in the camera's coordinates is first
//! carried into the shape's, where the hit is the smaller root of a
//! quadratic equation `a t^2 + 2 h t + c = 0`. The root is handed out in
//! closed form, `(-h - sqrt(h^2 - a c)) / a`, and every decision about it is
//! taken exactly.

use vstd::prelude::*;
use crate::cs::Cs;
use crate::matrix::{
    lemma_identity_changes_nothing, lemma_product_applies_in_turn, Mat4, Matrix,
};
use crate::ray::{Line, Ray};

pub mod ball;
pub mod cylinder;

verus! {

/// The number `(lead - sqrt(radicand)) / divisor` of mathematical integers:
/// the model of [`Surd`].
pub ghost struct Root {
    pub lead: int,
    pub radicand: int,
    pub divisor: int,
}

impl Root {
    /// The smaller root of `a t^2 + 2 h t + c = 0`.
    pub open spec fn smaller_of(a: int, h: int, c: int) -> Root {
        Root { lead: -h, radicand: reduced_discriminant(a, h, c), divisor: a }
    }

    /// Whether the number exists and is strictly positive, for a positive
    /// divisor: the radicand is not negative and its square root is below
    /// the lead.
    pub open spec fn is_positive(self) -> bool {
        &&& self.radicand >= 0
        &&& self.lead > 0
        &&& self.lead * self.lead > self.radicand
    }

    /// Whether the number is the integer `t`.
    pub open spec fn is_integer(self, t: int) -> bool {
        &&& self.lead - t * self.divisor >= 0
        &&& (self.lead - t * self.divisor) * (self.lead - t * self.divisor) == self.radicand
    }
}

/// A quarter of the discriminant of `a t^2 + 2 h t + c`, that is of
/// `b^2 - 4 a c` with `b = 2 h`.
pub open spec fn reduced_discriminant(a: int, h: int, c: int) -> int {
    h * h - a * c
}

/// The number `(lead - sqrt(radicand)) / divisor`, kept in closed form.
#[derive(Clone, Copy, Debug, PartialEq, Eq, Structural)]
pub struct Surd {
    pub lead: i128,
    pub radicand: i128,
    pub divisor: i128,
}

impl View for Surd {
    type V = Root;

    open spec fn view(&self) -> Root {
        Root {
            lead: self.lead as int,
            radicand: self.radicand as int,
            divisor: self.divisor as int,
        }
    }
}

/// How far along a ray a shape is hit.
#[derive(Clone, Copy, Debug, PartialEq, Eq, Structural)]
pub enum Distance {
    /// The ray starts inside the shape and the hit is immediate: the
    /// smallest distance that is still positive.
    Least,
    /// The hit is at the given number of ray directions.
    At(Surd),
}

/// The model of an answer to "where is the shape hit": nowhere, at once, or
/// at a root.
pub ghost enum Hit {
    /// The ray does not hit the shape in front of its origin.
    Miss,
    /// The ray starts inside the shape.
    Least,
    /// The ray hits the shape at the given root.
    At(Root),
}

/// The model of an exec answer.
pub open spec fn hit_of(d: Option<Distance>) -> Hit {
    match d {
        None => Hit::Miss,
        Some(Distance::Least) => Hit::Least,
        Some(Distance::At(s)) => Hit::At(s@),
    }
}

/// What a shape answers to a camera and to its rays.
///
/// A shape is placed in a system of its own and keeps the matrix that
/// takes the camera's coordinates to that system. Rays are given in the
/// camera's system; what a shape answers about a ray depends on the ray as
/// it is in the shape's system, to which the kept matrix carries it.
pub trait Shapes {
    /// The system that the shape is placed in.
    spec fn placement(&self) -> Cs;

    /// The matrix that the shape keeps, from the camera's system to its
    /// own.
    spec fn camera_matrix(&self) -> Mat4;

    /// Whether the line that carries `ray`, a ray given in the shape's
    /// system, meets the shape, as far as the shape tells.
    spec fn touched(&self, ray: Line) -> bool;

    /// Where `ray`, a ray given in the shape's system, first hits the shape.
    spec fn hit(&self, ray: Line) -> Hit;

    /// What the shape asks of `ray`, a ray given in the camera's system, to
    /// tell whether it is touched.
    spec fn tells(&self, ray: Line) -> bool;

    /// What the shape asks of itself and of `ray`, a ray given in the
    /// camera's system, to tell where it is hit.
    spec fn admits(&self, ray: Line) -> bool;

    /// The matrix from the reference system to the shape's.
    fn get_matrix_to_lcs(&self) -> (m: Matrix)
        requires
            self.placement().reverse().fits(),
        ensures
            m@ == self.placement().reverse(),
    ;

    /// The matrix from the shape's system to the reference system.
    fn get_matrix_to_rcs(&self) -> (m: Matrix)
        ensures
            m@ == self.placement().forward(),
    ;

    /// Replaces the matrix from the camera's system to the shape's.
    fn set_transform(&mut self, m: Matrix)
        ensures
            final(self).camera_matrix() == m@,
            final(self).placement() == old(self).placement(),
            forall|r: Line| #[trigger] final(self).touched(r) == old(self).touched(r),
            forall|r: Line| #[trigger] final(self).hit(r) == old(self).hit(r),
    ;

    /// Places the shape in the system `cs`. The matrix from the camera's
    /// system is left as it was and has to be computed again.
    fn set_shape_cs(&mut self, cs: Cs)
        ensures
            final(self).placement() == cs,
            final(self).camera_matrix() == old(self).camera_matrix(),
            forall|r: Line| #[trigger] final(self).touched(r) == old(self).touched(r),
            forall|r: Line| #[trigger] final(self).hit(r) == old(self).hit(r),
            forall|r: Line| #[trigger] final(self).tells(r) == old(self).tells(r),
            forall|r: Line| #[trigger] final(self).admits(r) == old(self).admits(r),
    ;

    /// Computes the matrix from the camera's system to the shape's, given
    /// the matrix `cam_to_rcs` from the camera's system to the reference
    /// system: the matrix from the reference system to the shape's, times
    /// `cam_to_rcs`.
    fn compute_camcs_to_shapecs(&mut self, cam_to_rcs: &Matrix)
        requires
            old(self).placement().reverse().fits(),
            old(self).placement().reverse().mul(cam_to_rcs@).fits(),
        ensures
            final(self).camera_matrix() == old(self).placement().reverse().mul(cam_to_rcs@),
            final(self).placement() == old(self).placement(),
            forall|r: Line| #[trigger] final(self).touched(r) == old(self).touched(r),
            forall|r: Line| #[trigger] final(self).hit(r) == old(self).hit(r),
    {
        let m = self.get_matrix_to_lcs().mul(cam_to_rcs);
        self.set_transform(m);
    }

    /// Whether the line that carries `ray`, a ray given in the camera's
    /// system, meets the shape, as far as the shape tells.
    fn intersect(&self, ray: &Ray) -> (b: bool)
        requires
            self.tells(ray@),
        ensures
            b == self.touched(ray@.through(self.camera_matrix())),
    ;

    /// The distance at which `ray`, a ray given in the camera's system,
    /// first hits the shape, or `None` if it does not hit it in front of its
    /// origin.
    fn intersect_min(&self, ray: &Ray) -> (d: Option<Distance>)
        requires
            self.admits(ray@),
        ensures
            hit_of(d) == self.hit(ray@.through(self.camera_matrix())),
    ;
}

/// The matrix that a shape keeps for a camera: from the camera's system to
/// the reference system, and from there to the shape's.
pub open spec fn camera_to_shape(shape: Cs, camera: Cs) -> Mat4 {
    shape.reverse().mul(camera.forward())
}

/// The matrix that a shape keeps for a camera carries a ray as the camera's
/// matrix to the reference system followed by the shape's matrix from it.
pub proof fn lemma_camera_to_shape(shape: Cs, camera: Cs, ray: Line)
    ensures
        ray.through(camera_to_shape(shape, camera)) == ray.through(camera.forward()).through(
            shape.reverse(),
        ),
{
    lemma_product_applies_in_turn(shape.reverse(), camera.forward(), ray.o);
    lemma_product_applies_in_turn(shape.reverse(), camera.forward(), ray.v);
}

/// A shape in the same system as the camera sees the camera's rays as they
/// are, when that system has a direct orthonormal base.
pub proof fn lemma_same_system(cs: Cs, ray: Line)
    requires
        cs.is_direct(),
    ensures
        ray.through(camera_to_shape(cs, cs)) == ray,
{
    crate::cs::lemma_round_trip(cs, ray.o);
    lemma_identity_changes_nothing(ray.o);
    lemma_identity_changes_nothing(ray.v);
}

/// The classic discriminant `b^2 - 4 a c` of `a t^2 + b t + c` is four times
/// the reduced one, so both have the same sign.
pub proof fn lemma_reduced_discriminant(a: int, h: int, c: int)
    ensures
        (2 * h) * (2 * h) - 4 * a * c == 4 * reduced_discriminant(a, h, c),
{
    assert((2 * h) * (2 * h) - 4 * a * c == 4 * (h * h - a * c)) by (nonlinear_arith);
}

/// A positive root solves the equation it is the smaller root of: with
/// `s = lead - t * divisor` standing for the square root, `t` being an
/// integer value of the root, `a t^2 + 2 h t + c` vanishes.
pub proof fn lemma_integer_root_solves(a: int, h: int, c: int, t: int)
    requires
        a != 0,
        Root::smaller_of(a, h, c).is_integer(t),
    ensures
        a * t * t + 2 * h * t + c == 0,
{
    let s = -h - t * a;
    assert(s * s == h * h - a * c);
    assert(a * (a * t * t + 2 * h * t + c) == 0) by (nonlinear_arith)
        requires
            (-h - t * a) * (-h - t * a) == h * h - a * c,
    ;
    assert(a * t * t + 2 * h * t + c == 0) by (nonlinear_arith)
        requires
            a != 0,
            a * (a * t * t + 2 * h * t + c) == 0,
    ;
}

} // verus!
