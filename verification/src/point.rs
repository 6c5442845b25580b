//! Lattice points: positions with integer coordinates.

use vstd::prelude::*;
use crate::vector::{Vec3, Vector};

verus! {

/// A position on the integer lattice. Its homogeneous coordinate is 1.
#[derive(Clone, Copy, Debug, PartialEq, Eq, Structural)]
pub struct Point {
    pub x: i32,
    pub y: i32,
    pub z: i32,
}

impl View for Point {
    type V = Vec3;

    open spec fn view(&self) -> Vec3 {
        Vec3 { x: self.x as int, y: self.y as int, z: self.z as int }
    }
}

impl Point {
    /// The origin of the reference frame.
    pub fn origin() -> (p: Point)
        ensures
            p == (Point { x: 0, y: 0, z: 0 }),
    {
        Point { x: 0, y: 0, z: 0 }
    }

    /// The point at the tip of the first axis.
    pub fn unit_i() -> (p: Point)
        ensures
            p@ == Vec3::i(),
    {
        Point { x: 1, y: 0, z: 0 }
    }

    /// The point at the tip of the second axis.
    pub fn unit_j() -> (p: Point)
        ensures
            p@ == Vec3::j(),
    {
        Point { x: 0, y: 1, z: 0 }
    }

    /// The point at the tip of the third axis.
    pub fn unit_k() -> (p: Point)
        ensures
            p@ == Vec3::k(),
    {
        Point { x: 0, y: 0, z: 1 }
    }

    /// The point with coordinates `x`, `y`, `z`.
    pub fn new(x: i32, y: i32, z: i32) -> (p: Point)
        ensures
            p == (Point { x, y, z }),
    {
        Point { x, y, z }
    }

    /// Homogeneous coordinate of a position: always 1.
    pub fn w(&self) -> (w: i32)
        ensures
            w == 1,
    {
        1
    }

    /// The four homogeneous coordinates, `x`, `y`, `z`, `w`.
    pub fn get_quad(&self) -> (q: [i32; 4])
        ensures
            q@ == seq![self.x, self.y, self.z, 1i32],
    {
        [self.x, self.y, self.z, 1]
    }

    /// The point reached from `self` by the displacement `v`.
    pub fn plus(&self, v: &Vector) -> (p: Point)
        requires
            self@.plus(v@).fits(),
        ensures
            p@ == self@.plus(v@),
    {
        Point { x: self.x + v.x, y: self.y + v.y, z: self.z + v.z }
    }

    /// Moves the point by the displacement `v`.
    pub fn plus_assign(&mut self, v: &Vector)
        requires
            old(self)@.plus(v@).fits(),
        ensures
            final(self)@ == old(self)@.plus(v@),
    {
        self.x = self.x + v.x;
        self.y = self.y + v.y;
        self.z = self.z + v.z;
    }

    /// The displacement that leads from `from` to `self`.
    pub fn minus(&self, from: &Point) -> (v: Vector)
        requires
            self@.minus(from@).fits(),
        ensures
            v@ == self@.minus(from@),
    {
        Vector { x: self.x - from.x, y: self.y - from.y, z: self.z - from.z }
    }
}

} // verus!
