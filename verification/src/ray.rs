//! Rays on the lattice: where a ray starts and the direction it travels in.

use vstd::prelude::*;
use crate::matrix::{Mat4, Matrix};
use crate::point::Point;
use crate::vector::{Vec3, Vector};

verus! {

/// The model of a ray: its origin and its direction.
pub ghost struct Line {
    pub o: Vec3,
    pub v: Vec3,
}

/// A ray that starts at `o` and travels along `v`. Both are expressed in
/// whatever system the holder of the ray works in.
#[derive(Clone, Copy, Debug, PartialEq, Eq, Structural)]
pub struct Ray {
    pub o: Point,
    pub v: Vector,
}

impl View for Ray {
    type V = Line;

    open spec fn view(&self) -> Line {
        Line { o: self.o@, v: self.v@ }
    }
}

impl Line {
    /// The ray seen through the change of coordinates `m`: the origin is
    /// carried as a point and the direction as a vector.
    pub open spec fn through(self, m: Mat4) -> Line {
        Line { o: m.apply_point(self.o), v: m.apply_vector(self.v) }
    }

    /// Origin and direction are on the lattice.
    pub open spec fn fits(self) -> bool {
        self.o.fits() && self.v.fits()
    }
}

impl Ray {
    /// The ray that starts at `o` and travels along `v`.
    pub fn new(o: Point, v: Vector) -> (r: Ray)
        ensures
            r == (Ray { o, v }),
    {
        Ray { o, v }
    }

    /// The same ray in the coordinates that `m` leads to. The ray itself is
    /// left as it is.
    pub fn through(&self, m: &Matrix) -> (r: Ray)
        requires
            self@.through(m@).fits(),
        ensures
            r@ == self@.through(m@),
    {
        Ray { o: m.mul_point(&self.o), v: m.mul_vector(&self.v) }
    }
}

} // verus!
