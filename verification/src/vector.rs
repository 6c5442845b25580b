//! Lattice vectors: displacements with integer components.
//!
//! Contracts are stated over [`Vec3`], the same triple with unbounded
//! mathematical integers, so that the algebra can be reasoned about without
//! machine limits.

use vstd::prelude::*;

verus! {

/// A triple of mathematical integers: the model of points and vectors.
pub ghost struct Vec3 {
    pub x: int,
    pub y: int,
    pub z: int,
}

impl Vec3 {
    /// First axis of the reference frame.
    #[verifier::inline]
    pub open spec fn i() -> Vec3 {
        Vec3 { x: 1, y: 0, z: 0 }
    }

    /// Second axis of the reference frame: the "up" direction.
    #[verifier::inline]
    pub open spec fn j() -> Vec3 {
        Vec3 { x: 0, y: 1, z: 0 }
    }

    /// Third axis of the reference frame.
    #[verifier::inline]
    pub open spec fn k() -> Vec3 {
        Vec3 { x: 0, y: 0, z: 1 }
    }

    /// Componentwise sum.
    pub open spec fn plus(self, rhs: Vec3) -> Vec3 {
        Vec3 { x: self.x + rhs.x, y: self.y + rhs.y, z: self.z + rhs.z }
    }

    /// Componentwise difference.
    pub open spec fn minus(self, rhs: Vec3) -> Vec3 {
        Vec3 { x: self.x - rhs.x, y: self.y - rhs.y, z: self.z - rhs.z }
    }

    /// The opposite vector.
    pub open spec fn neg(self) -> Vec3 {
        Vec3 { x: -self.x, y: -self.y, z: -self.z }
    }

    /// Every component multiplied by `f`.
    pub open spec fn scale(self, f: int) -> Vec3 {
        Vec3 { x: f * self.x, y: f * self.y, z: f * self.z }
    }

    /// Dot product.
    pub open spec fn dot(self, rhs: Vec3) -> int {
        self.x * rhs.x + self.y * rhs.y + self.z * rhs.z
    }

    /// Cross product.
    pub open spec fn cross(self, rhs: Vec3) -> Vec3 {
        Vec3 {
            x: self.y * rhs.z - self.z * rhs.y,
            y: self.z * rhs.x - self.x * rhs.z,
            z: self.x * rhs.y - self.y * rhs.x,
        }
    }

    /// Squared Euclidean length.
    pub open spec fn square_length(self) -> int {
        self.dot(self)
    }

    /// Length one.
    pub open spec fn is_unit(self) -> bool {
        self.square_length() == 1
    }

    /// Right angle between `self` and `rhs`.
    pub open spec fn is_normal_to(self, rhs: Vec3) -> bool {
        self.dot(rhs) == 0
    }

    /// Every component fits the machine type of lattice coordinates.
    pub open spec fn fits(self) -> bool {
        &&& i32::MIN <= self.x <= i32::MAX
        &&& i32::MIN <= self.y <= i32::MAX
        &&& i32::MIN <= self.z <= i32::MAX
    }
}

/// A displacement on the integer lattice. Its homogeneous coordinate is 0.
#[derive(Clone, Copy, Debug, PartialEq, Eq, Structural)]
pub struct Vector {
    pub x: i32,
    pub y: i32,
    pub z: i32,
}

impl View for Vector {
    type V = Vec3;

    open spec fn view(&self) -> Vec3 {
        Vec3 { x: self.x as int, y: self.y as int, z: self.z as int }
    }
}

impl Vector {
    /// The null vector.
    pub fn zero() -> (v: Vector)
        ensures
            v == (Vector { x: 0, y: 0, z: 0 }),
    {
        Vector { x: 0, y: 0, z: 0 }
    }

    /// First axis of the reference frame.
    pub fn unit_i() -> (v: Vector)
        ensures
            v@ == Vec3::i(),
    {
        Vector { x: 1, y: 0, z: 0 }
    }

    /// Second axis of the reference frame: the "up" direction.
    pub fn unit_j() -> (v: Vector)
        ensures
            v@ == Vec3::j(),
    {
        Vector { x: 0, y: 1, z: 0 }
    }

    /// Third axis of the reference frame.
    pub fn unit_k() -> (v: Vector)
        ensures
            v@ == Vec3::k(),
    {
        Vector { x: 0, y: 0, z: 1 }
    }

    /// The vector with components `x`, `y`, `z`.
    pub fn new(x: i32, y: i32, z: i32) -> (v: Vector)
        ensures
            v == (Vector { x, y, z }),
    {
        Vector { x, y, z }
    }

    /// Homogeneous coordinate of a displacement: always 0.
    pub fn w(&self) -> (w: i32)
        ensures
            w == 0,
    {
        0
    }

    /// The four homogeneous coordinates, `x`, `y`, `z`, `w`.
    pub fn get_quad(&self) -> (q: [i32; 4])
        ensures
            q@ == seq![self.x, self.y, self.z, 0i32],
    {
        [self.x, self.y, self.z, 0]
    }

    /// Sum of two vectors.
    pub fn plus(&self, rhs: &Vector) -> (v: Vector)
        requires
            self@.plus(rhs@).fits(),
        ensures
            v@ == self@.plus(rhs@),
    {
        Vector { x: self.x + rhs.x, y: self.y + rhs.y, z: self.z + rhs.z }
    }

    /// Difference of two vectors.
    pub fn minus(&self, rhs: &Vector) -> (v: Vector)
        requires
            self@.minus(rhs@).fits(),
        ensures
            v@ == self@.minus(rhs@),
    {
        Vector { x: self.x - rhs.x, y: self.y - rhs.y, z: self.z - rhs.z }
    }

    /// The opposite vector.
    pub fn neg(&self) -> (v: Vector)
        requires
            self@.neg().fits(),
        ensures
            v@ == self@.neg(),
    {
        Vector { x: -self.x, y: -self.y, z: -self.z }
    }

    /// The vector stretched by the integer factor `f`.
    pub fn scale(&self, f: i32) -> (v: Vector)
        requires
            self@.scale(f as int).fits(),
        ensures
            v@ == self@.scale(f as int),
    {
        Vector { x: f * self.x, y: f * self.y, z: f * self.z }
    }

    /// Adds `rhs` to the vector in place.
    pub fn plus_assign(&mut self, rhs: &Vector)
        requires
            old(self)@.plus(rhs@).fits(),
        ensures
            final(self)@ == old(self)@.plus(rhs@),
    {
        self.x = self.x + rhs.x;
        self.y = self.y + rhs.y;
        self.z = self.z + rhs.z;
    }

    /// Subtracts `rhs` from the vector in place.
    pub fn minus_assign(&mut self, rhs: &Vector)
        requires
            old(self)@.minus(rhs@).fits(),
        ensures
            final(self)@ == old(self)@.minus(rhs@),
    {
        self.x = self.x - rhs.x;
        self.y = self.y - rhs.y;
        self.z = self.z - rhs.z;
    }

    /// Stretches the vector by the integer factor `f` in place.
    pub fn scale_assign(&mut self, f: i32)
        requires
            old(self)@.scale(f as int).fits(),
        ensures
            final(self)@ == old(self)@.scale(f as int),
    {
        self.x = f * self.x;
        self.y = f * self.y;
        self.z = f * self.z;
    }

    /// Dot product. The result is wide enough for any two lattice vectors.
    pub fn dot(&self, rhs: &Vector) -> (d: i128)
        ensures
            d == self@.dot(rhs@),
    {
        proof {
            lemma_product_bound(self.x, rhs.x);
            lemma_product_bound(self.y, rhs.y);
            lemma_product_bound(self.z, rhs.z);
        }
        wide(self.x) * wide(rhs.x) + wide(self.y) * wide(rhs.y) + wide(self.z) * wide(rhs.z)
    }

    /// Cross product.
    pub fn cross(&self, rhs: &Vector) -> (v: Vector)
        requires
            self@.cross(rhs@).fits(),
        ensures
            v@ == self@.cross(rhs@),
    {
        let (x, y, z) = self.wide_cross(rhs);
        Vector { x: narrow(x), y: narrow(y), z: narrow(z) }
    }

    /// The components of the cross product, each wide enough for any two
    /// lattice vectors.
    fn wide_cross(&self, rhs: &Vector) -> (c: (i128, i128, i128))
        ensures
            c.0 == self@.cross(rhs@).x,
            c.1 == self@.cross(rhs@).y,
            c.2 == self@.cross(rhs@).z,
    {
        proof {
            lemma_product_bound(self.y, rhs.z);
            lemma_product_bound(self.z, rhs.y);
            lemma_product_bound(self.z, rhs.x);
            lemma_product_bound(self.x, rhs.z);
            lemma_product_bound(self.x, rhs.y);
            lemma_product_bound(self.y, rhs.x);
        }
        (
            wide(self.y) * wide(rhs.z) - wide(self.z) * wide(rhs.y),
            wide(self.z) * wide(rhs.x) - wide(self.x) * wide(rhs.z),
            wide(self.x) * wide(rhs.y) - wide(self.y) * wide(rhs.x),
        )
    }

    /// Squared Euclidean length.
    pub fn square_length(&self) -> (d: i128)
        ensures
            d == self@.square_length(),
    {
        self.dot(self)
    }

    /// Whether the vector has length one.
    pub fn is_normalized(&self) -> (b: bool)
        ensures
            b == self@.is_unit(),
    {
        self.square_length() == 1
    }

    /// Whether the vector is at a right angle to `rhs`.
    pub fn is_normal_to(&self, rhs: &Vector) -> (b: bool)
        ensures
            b == self@.is_normal_to(rhs@),
    {
        self.dot(rhs) == 0
    }

    /// Whether the vector is the cross product of `a` and `b`.
    pub fn is_cross_of(&self, a: &Vector, b: &Vector) -> (r: bool)
        ensures
            r == (self@ == a@.cross(b@)),
    {
        let (x, y, z) = a.wide_cross(b);
        wide(self.x) == x && wide(self.y) == y && wide(self.z) == z
    }
}

/// A lattice coordinate in the type that products are computed in.
pub(crate) fn wide(c: i32) -> (r: i128)
    ensures
        r == c,
{
    c as i128
}

/// A wide value that fits a lattice coordinate, as one.
pub(crate) fn narrow(c: i128) -> (r: i32)
    requires
        i32::MIN <= c <= i32::MAX,
    ensures
        r == c,
{
    c as i32
}

/// The product of two lattice coordinates is at most 2^62 in magnitude.
pub(crate) proof fn lemma_product_bound(a: i32, b: i32)
    ensures
        -0x4000_0000_0000_0000 <= a * b <= 0x4000_0000_0000_0000,
{
    assert(-0x4000_0000_0000_0000 <= a * b <= 0x4000_0000_0000_0000) by (nonlinear_arith)
        requires
            -0x8000_0000 <= a <= 0x7fff_ffff,
            -0x8000_0000 <= b <= 0x7fff_ffff,
    ;
}

} // verus!
