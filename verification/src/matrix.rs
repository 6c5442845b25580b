//! 4x4 matrices with lattice entries, for affine changes of coordinates.
//!
//! A matrix acts on a vector through its upper left 3x3 block, and on a
//! point through its upper three lines, the point's fourth coordinate being
//! one.

use vstd::prelude::*;
use vstd::arithmetic::mul::{
    lemma_mul_is_associative, lemma_mul_is_distributive_add,
    lemma_mul_is_distributive_add_other_way,
};
use crate::point::Point;
use crate::vector::{lemma_product_bound, narrow, wide, Vec3, Vector};

verus! {

/// Four mathematical integers: the model of a line or a column.
pub ghost struct Vec4 {
    pub x: int,
    pub y: int,
    pub z: int,
    pub w: int,
}

impl Vec4 {
    /// The four coordinates of a displacement.
    pub open spec fn of_vector(v: Vec3) -> Vec4 {
        Vec4 { x: v.x, y: v.y, z: v.z, w: 0 }
    }

    /// The four coordinates of a position.
    pub open spec fn of_point(p: Vec3) -> Vec4 {
        Vec4 { x: p.x, y: p.y, z: p.z, w: 1 }
    }

    /// The first three coordinates.
    pub open spec fn xyz(self) -> Vec3 {
        Vec3 { x: self.x, y: self.y, z: self.z }
    }

    /// Sum of the products of the coordinates.
    pub open spec fn dot(self, rhs: Vec4) -> int {
        self.x * rhs.x + self.y * rhs.y + self.z * rhs.z + self.w * rhs.w
    }

    /// Every coordinate fits the machine type of lattice coordinates.
    pub open spec fn fits(self) -> bool {
        &&& i32::MIN <= self.x <= i32::MAX
        &&& i32::MIN <= self.y <= i32::MAX
        &&& i32::MIN <= self.z <= i32::MAX
        &&& i32::MIN <= self.w <= i32::MAX
    }
}

/// A 4x4 matrix of mathematical integers, line by line: the model of
/// [`Matrix`].
pub ghost struct Mat4 {
    pub l0: Vec4,
    pub l1: Vec4,
    pub l2: Vec4,
    pub l3: Vec4,
}

impl Mat4 {
    /// The matrix with the given lines.
    pub open spec fn from_lines(q1: Vec4, q2: Vec4, q3: Vec4, q4: Vec4) -> Mat4 {
        Mat4 { l0: q1, l1: q2, l2: q3, l3: q4 }
    }

    /// The matrix with the given columns.
    pub open spec fn from_columns(q1: Vec4, q2: Vec4, q3: Vec4, q4: Vec4) -> Mat4 {
        Mat4 {
            l0: Vec4 { x: q1.x, y: q2.x, z: q3.x, w: q4.x },
            l1: Vec4 { x: q1.y, y: q2.y, z: q3.y, w: q4.y },
            l2: Vec4 { x: q1.z, y: q2.z, z: q3.z, w: q4.z },
            l3: Vec4 { x: q1.w, y: q2.w, z: q3.w, w: q4.w },
        }
    }

    /// First column.
    pub open spec fn c0(self) -> Vec4 {
        Vec4 { x: self.l0.x, y: self.l1.x, z: self.l2.x, w: self.l3.x }
    }

    /// Second column.
    pub open spec fn c1(self) -> Vec4 {
        Vec4 { x: self.l0.y, y: self.l1.y, z: self.l2.y, w: self.l3.y }
    }

    /// Third column.
    pub open spec fn c2(self) -> Vec4 {
        Vec4 { x: self.l0.z, y: self.l1.z, z: self.l2.z, w: self.l3.z }
    }

    /// Fourth column.
    pub open spec fn c3(self) -> Vec4 {
        Vec4 { x: self.l0.w, y: self.l1.w, z: self.l2.w, w: self.l3.w }
    }

    /// The matrix that changes nothing.
    pub open spec fn identity() -> Mat4 {
        Mat4 {
            l0: Vec4 { x: 1, y: 0, z: 0, w: 0 },
            l1: Vec4 { x: 0, y: 1, z: 0, w: 0 },
            l2: Vec4 { x: 0, y: 0, z: 1, w: 0 },
            l3: Vec4 { x: 0, y: 0, z: 0, w: 1 },
        }
    }

    /// The matrix that moves every point by `v`.
    pub open spec fn translation(v: Vec3) -> Mat4 {
        Mat4 {
            l0: Vec4 { x: 1, y: 0, z: 0, w: v.x },
            l1: Vec4 { x: 0, y: 1, z: 0, w: v.y },
            l2: Vec4 { x: 0, y: 0, z: 1, w: v.z },
            l3: Vec4 { x: 0, y: 0, z: 0, w: 1 },
        }
    }

    /// The matrix that stretches by the factor `f` from the origin.
    pub open spec fn scaling(f: int) -> Mat4 {
        Mat4 {
            l0: Vec4 { x: f, y: 0, z: 0, w: 0 },
            l1: Vec4 { x: 0, y: f, z: 0, w: 0 },
            l2: Vec4 { x: 0, y: 0, z: f, w: 0 },
            l3: Vec4 { x: 0, y: 0, z: 0, w: 1 },
        }
    }

    /// Lines and columns exchanged.
    pub open spec fn transpose(self) -> Mat4 {
        Mat4 { l0: self.c0(), l1: self.c1(), l2: self.c2(), l3: self.c3() }
    }

    /// Whether the last line is `(0, 0, 0, 1)`, as it is for a change of
    /// coordinates.
    pub open spec fn is_affine(self) -> bool {
        self.l3 == (Vec4 { x: 0, y: 0, z: 0, w: 1 })
    }

    /// The image of the displacement `v`.
    pub open spec fn apply_vector(self, v: Vec3) -> Vec3 {
        Vec3 {
            x: self.l0.xyz().dot(v),
            y: self.l1.xyz().dot(v),
            z: self.l2.xyz().dot(v),
        }
    }

    /// The image of the position `p`.
    pub open spec fn apply_point(self, p: Vec3) -> Vec3 {
        Vec3 {
            x: self.l0.xyz().dot(p) + self.l0.w,
            y: self.l1.xyz().dot(p) + self.l1.w,
            z: self.l2.xyz().dot(p) + self.l2.w,
        }
    }

    /// The line `l` times each column of `rhs`.
    pub open spec fn line_times(l: Vec4, rhs: Mat4) -> Vec4 {
        Vec4 { x: l.dot(rhs.c0()), y: l.dot(rhs.c1()), z: l.dot(rhs.c2()), w: l.dot(rhs.c3()) }
    }

    /// The matrix product `self * rhs`: `rhs` acts first.
    pub open spec fn mul(self, rhs: Mat4) -> Mat4 {
        Mat4 {
            l0: Mat4::line_times(self.l0, rhs),
            l1: Mat4::line_times(self.l1, rhs),
            l2: Mat4::line_times(self.l2, rhs),
            l3: Mat4::line_times(self.l3, rhs),
        }
    }

    /// Every entry fits the machine type of lattice coordinates.
    pub open spec fn fits(self) -> bool {
        self.l0.fits() && self.l1.fits() && self.l2.fits() && self.l3.fits()
    }
}

/// The four entries of a line or column as its model.
pub open spec fn quad_view(q: [i32; 4]) -> Vec4 {
    Vec4 { x: q[0] as int, y: q[1] as int, z: q[2] as int, w: q[3] as int }
}

/// A 4x4 matrix with lattice entries.
#[derive(Clone, Copy, Debug, PartialEq, Eq)]
pub struct Matrix {
    m: [[i32; 4]; 4],
}

impl View for Matrix {
    type V = Mat4;

    closed spec fn view(&self) -> Mat4 {
        Mat4 {
            l0: quad_view(self.m[0]),
            l1: quad_view(self.m[1]),
            l2: quad_view(self.m[2]),
            l3: quad_view(self.m[3]),
        }
    }
}

impl Matrix {
    /// The matrix with the lines `q1` to `q4`.
    pub fn from_lines(q1: [i32; 4], q2: [i32; 4], q3: [i32; 4], q4: [i32; 4]) -> (m: Matrix)
        ensures
            m@ == Mat4::from_lines(quad_view(q1), quad_view(q2), quad_view(q3), quad_view(q4)),
    {
        Matrix { m: [q1, q2, q3, q4] }
    }

    /// The matrix with the columns `q1` to `q4`.
    pub fn from_columns(q1: [i32; 4], q2: [i32; 4], q3: [i32; 4], q4: [i32; 4]) -> (m: Matrix)
        ensures
            m@ == Mat4::from_columns(quad_view(q1), quad_view(q2), quad_view(q3), quad_view(q4)),
    {
        Matrix {
            m: [
                [q1[0], q2[0], q3[0], q4[0]],
                [q1[1], q2[1], q3[1], q4[1]],
                [q1[2], q2[2], q3[2], q4[2]],
                [q1[3], q2[3], q3[3], q4[3]],
            ],
        }
    }

    /// The matrix that changes nothing.
    pub fn identity() -> (m: Matrix)
        ensures
            m@ == Mat4::identity(),
    {
        Matrix { m: [[1, 0, 0, 0], [0, 1, 0, 0], [0, 0, 1, 0], [0, 0, 0, 1]] }
    }

    /// The fourth column as a point: where the matrix sends the origin.
    pub fn get_o(&self) -> (p: Point)
        ensures
            p@ == self@.c3().xyz(),
    {
        Point::new(self.m[0][3], self.m[1][3], self.m[2][3])
    }

    /// The first column as a vector: where the matrix sends the first axis.
    pub fn get_i(&self) -> (v: Vector)
        ensures
            v@ == self@.c0().xyz(),
    {
        Vector::new(self.m[0][0], self.m[1][0], self.m[2][0])
    }

    /// The second column as a vector: where the matrix sends the second
    /// axis.
    pub fn get_j(&self) -> (v: Vector)
        ensures
            v@ == self@.c1().xyz(),
    {
        Vector::new(self.m[0][1], self.m[1][1], self.m[2][1])
    }

    /// The third column as a vector: where the matrix sends the third axis.
    pub fn get_k(&self) -> (v: Vector)
        ensures
            v@ == self@.c2().xyz(),
    {
        Vector::new(self.m[0][2], self.m[1][2], self.m[2][2])
    }

    /// The four lines of the matrix.
    pub fn lines(&self) -> (l: [[i32; 4]; 4])
        ensures
            self@ == Mat4::from_lines(
                quad_view(l[0]),
                quad_view(l[1]),
                quad_view(l[2]),
                quad_view(l[3]),
            ),
    {
        self.m
    }

    /// The matrix with lines and columns exchanged.
    pub fn transpose(&self) -> (m: Matrix)
        ensures
            m@ == self@.transpose(),
    {
        Matrix {
            m: [
                [self.m[0][0], self.m[1][0], self.m[2][0], self.m[3][0]],
                [self.m[0][1], self.m[1][1], self.m[2][1], self.m[3][1]],
                [self.m[0][2], self.m[1][2], self.m[2][2], self.m[3][2]],
                [self.m[0][3], self.m[1][3], self.m[2][3], self.m[3][3]],
            ],
        }
    }

    /// The matrix that moves every point by `v`.
    pub fn translation(v: &Vector) -> (m: Matrix)
        ensures
            m@ == Mat4::translation(v@),
    {
        Matrix { m: [[1, 0, 0, v.x], [0, 1, 0, v.y], [0, 0, 1, v.z], [0, 0, 0, 1]] }
    }

    /// The matrix that stretches by the factor `f` from the origin.
    pub fn scaling(f: i32) -> (m: Matrix)
        ensures
            m@ == Mat4::scaling(f as int),
    {
        Matrix { m: [[f, 0, 0, 0], [0, f, 0, 0], [0, 0, f, 0], [0, 0, 0, 1]] }
    }

    /// The image of the displacement `v`.
    pub fn mul_vector(&self, v: &Vector) -> (r: Vector)
        requires
            self@.apply_vector(v@).fits(),
        ensures
            r@ == self@.apply_vector(v@),
    {
        let x = line_apply(&self.m[0], v.x, v.y, v.z);
        let y = line_apply(&self.m[1], v.x, v.y, v.z);
        let z = line_apply(&self.m[2], v.x, v.y, v.z);
        Vector::new(narrow(x), narrow(y), narrow(z))
    }

    /// The image of the position `p`.
    pub fn mul_point(&self, p: &Point) -> (r: Point)
        requires
            self@.apply_point(p@).fits(),
        ensures
            r@ == self@.apply_point(p@),
    {
        let x = line_apply(&self.m[0], p.x, p.y, p.z) + wide(self.m[0][3]);
        let y = line_apply(&self.m[1], p.x, p.y, p.z) + wide(self.m[1][3]);
        let z = line_apply(&self.m[2], p.x, p.y, p.z) + wide(self.m[2][3]);
        Point::new(narrow(x), narrow(y), narrow(z))
    }

    /// The matrix product `self * rhs`: `rhs` acts first.
    pub fn mul(&self, rhs: &Matrix) -> (m: Matrix)
        requires
            self@.mul(rhs@).fits(),
        ensures
            m@ == self@.mul(rhs@),
    {
        let t = rhs.transpose();
        Matrix {
            m: [
                line_times(&self.m[0], &t.m),
                line_times(&self.m[1], &t.m),
                line_times(&self.m[2], &t.m),
                line_times(&self.m[3], &t.m),
            ],
        }
    }
}

/// The line `l` times each of the four `columns`.
fn line_times(l: &[i32; 4], columns: &[[i32; 4]; 4]) -> (r: [i32; 4])
    requires
        i32::MIN <= quad_view(*l).dot(quad_view(columns[0])) <= i32::MAX,
        i32::MIN <= quad_view(*l).dot(quad_view(columns[1])) <= i32::MAX,
        i32::MIN <= quad_view(*l).dot(quad_view(columns[2])) <= i32::MAX,
        i32::MIN <= quad_view(*l).dot(quad_view(columns[3])) <= i32::MAX,
    ensures
        quad_view(r) == (Vec4 {
            x: quad_view(*l).dot(quad_view(columns[0])),
            y: quad_view(*l).dot(quad_view(columns[1])),
            z: quad_view(*l).dot(quad_view(columns[2])),
            w: quad_view(*l).dot(quad_view(columns[3])),
        }),
{
    [
        narrow(line_dot(l, &columns[0])),
        narrow(line_dot(l, &columns[1])),
        narrow(line_dot(l, &columns[2])),
        narrow(line_dot(l, &columns[3])),
    ]
}

/// The first three entries of the line `l` times the coordinates `x`, `y`,
/// `z`, in a type wide enough for any line and coordinates.
fn line_apply(l: &[i32; 4], x: i32, y: i32, z: i32) -> (d: i128)
    ensures
        d == quad_view(*l).xyz().dot(Vec3 { x: x as int, y: y as int, z: z as int }),
        -0x1_0000_0000_0000_0000 <= d <= 0x1_0000_0000_0000_0000,
{
    proof {
        lemma_product_bound(l[0], x);
        lemma_product_bound(l[1], y);
        lemma_product_bound(l[2], z);
    }
    wide(l[0]) * wide(x) + wide(l[1]) * wide(y) + wide(l[2]) * wide(z)
}

/// Sum of the products of the entries of `a` and `b`, in a type wide enough
/// for any two lines.
fn line_dot(a: &[i32; 4], b: &[i32; 4]) -> (d: i128)
    ensures
        d == quad_view(*a).dot(quad_view(*b)),
{
    proof {
        lemma_product_bound(a[0], b[0]);
        lemma_product_bound(a[1], b[1]);
        lemma_product_bound(a[2], b[2]);
        lemma_product_bound(a[3], b[3]);
    }
    wide(a[0]) * wide(b[0]) + wide(a[1]) * wide(b[1]) + wide(a[2]) * wide(b[2]) + wide(a[3])
        * wide(b[3])
}

/// The identity changes neither a point nor a vector.
pub proof fn lemma_identity_changes_nothing(p: Vec3)
    ensures
        Mat4::identity().apply_point(p) == p,
        Mat4::identity().apply_vector(p) == p,
{
    let (x, y, z) = (p.x, p.y, p.z);
    assert(1 * x == x && 0 * x == 0 && 1 * y == y && 0 * y == 0 && 1 * z == z && 0 * z == 0)
        by (nonlinear_arith);
}

/// Applying a product applies its factors in turn, the right one first,
/// when the right factor is a change of coordinates.
pub proof fn lemma_product_applies_in_turn(a: Mat4, b: Mat4, p: Vec3)
    requires
        b.is_affine(),
    ensures
        a.mul(b).apply_point(p) == a.apply_point(b.apply_point(p)),
        a.mul(b).apply_vector(p) == a.apply_vector(b.apply_vector(p)),
{
    lemma_line_applies_in_turn(a.l0, b, p);
    lemma_line_applies_in_turn(a.l1, b, p);
    lemma_line_applies_in_turn(a.l2, b, p);
}

/// One line of [`lemma_product_applies_in_turn`].
proof fn lemma_line_applies_in_turn(l: Vec4, b: Mat4, p: Vec3)
    requires
        b.is_affine(),
    ensures
        Mat4::line_times(l, b).xyz().dot(p) + Mat4::line_times(l, b).w == l.xyz().dot(
            b.apply_point(p),
        ) + l.w,
        Mat4::line_times(l, b).xyz().dot(p) == l.xyz().dot(b.apply_vector(p)),
{
    let q = Mat4::line_times(l, b);
    let (b0, b1, b2) = (b.l0, b.l1, b.l2);
    assert(q.x == l.x * b0.x + l.y * b1.x + l.z * b2.x && q.y == l.x * b0.y + l.y * b1.y + l.z
        * b2.y && q.z == l.x * b0.z + l.y * b1.z + l.z * b2.z && q.w == l.x * b0.w + l.y * b1.w
        + l.z * b2.w + l.w) by (nonlinear_arith)
        requires
            q.x == l.x * b0.x + l.y * b1.x + l.z * b2.x + l.w * 0,
            q.y == l.x * b0.y + l.y * b1.y + l.z * b2.y + l.w * 0,
            q.z == l.x * b0.z + l.y * b1.z + l.z * b2.z + l.w * 0,
            q.w == l.x * b0.w + l.y * b1.w + l.z * b2.w + l.w * 1,
    ;
    lemma_sum_times(l.x * b0.x, l.y * b1.x, l.z * b2.x, p.x);
    lemma_sum_times(l.x * b0.y, l.y * b1.y, l.z * b2.y, p.y);
    lemma_sum_times(l.x * b0.z, l.y * b1.z, l.z * b2.z, p.z);
    lemma_times_sum(l.x, b0.x, b0.y, b0.z, p);
    lemma_times_sum(l.y, b1.x, b1.y, b1.z, p);
    lemma_times_sum(l.z, b2.x, b2.y, b2.z, p);
    lemma_times_sum_plus(l.x, b0.x * p.x + b0.y * p.y + b0.z * p.z, b0.w);
    lemma_times_sum_plus(l.y, b1.x * p.x + b1.y * p.y + b1.z * p.z, b1.w);
    lemma_times_sum_plus(l.z, b2.x * p.x + b2.y * p.y + b2.z * p.z, b2.w);
}

/// `(a + b + c) * p` term by term.
proof fn lemma_sum_times(a: int, b: int, c: int, p: int)
    ensures
        (a + b + c) * p == a * p + b * p + c * p,
{
    lemma_mul_is_distributive_add_other_way(p, a + b, c);
    lemma_mul_is_distributive_add_other_way(p, a, b);
}

/// `f * (a * p.x + b * p.y + c * p.z)` term by term.
proof fn lemma_times_sum(f: int, a: int, b: int, c: int, p: Vec3)
    ensures
        f * (a * p.x + b * p.y + c * p.z) == (f * a) * p.x + (f * b) * p.y + (f * c) * p.z,
{
    lemma_mul_is_distributive_add(f, a * p.x + b * p.y, c * p.z);
    lemma_mul_is_distributive_add(f, a * p.x, b * p.y);
    lemma_mul_is_associative(f, a, p.x);
    lemma_mul_is_associative(f, b, p.y);
    lemma_mul_is_associative(f, c, p.z);
}

/// `f * (s + w)` term by term.
proof fn lemma_times_sum_plus(f: int, s: int, w: int)
    ensures
        f * (s + w) == f * s + f * w,
{
    lemma_mul_is_distributive_add(f, s, w);
}

} // verus!
