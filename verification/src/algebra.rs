//! Identities of the dot and cross products, for vectors of mathematical
//! integers.

use vstd::prelude::*;
use vstd::arithmetic::mul::{
    lemma_mul_is_associative, lemma_mul_is_commutative, lemma_mul_is_distributive_add,
    lemma_mul_is_distributive_add_other_way, lemma_mul_is_distributive_sub,
};
use crate::vector::Vec3;

verus! {

/// `a * b * c` with its last two factors exchanged.
proof fn lemma_swap_last(a: int, b: int, c: int)
    ensures
        a * b * c == a * c * b,
{
    lemma_mul_is_associative(a, b, c);
    lemma_mul_is_commutative(b, c);
    lemma_mul_is_associative(a, c, b);
}

/// `(a * b) * (c * d)` with its inner factors exchanged.
proof fn lemma_swap_inner(a: int, b: int, c: int, d: int)
    ensures
        (a * b) * (c * d) == (a * c) * (b * d),
{
    lemma_mul_is_associative(a * b, c, d);
    lemma_swap_last(a, b, c);
    lemma_mul_is_associative(a * c, b, d);
}

/// `f * (p * q - r * s)` term by term.
proof fn lemma_times_difference(f: int, p: int, q: int, r: int, s: int)
    ensures
        f * (p * q - r * s) == f * p * q - f * r * s,
{
    lemma_mul_is_distributive_sub(f, p * q, r * s);
    lemma_mul_is_associative(f, p, q);
    lemma_mul_is_associative(f, r, s);
}

/// `(a + b + c) * f` term by term.
proof fn lemma_sum_times(a: int, b: int, c: int, f: int)
    ensures
        (a + b + c) * f == a * f + b * f + c * f,
{
    lemma_mul_is_distributive_add_other_way(f, a + b, c);
    lemma_mul_is_distributive_add_other_way(f, a, b);
}

/// `f * (a + b + c)` term by term.
proof fn lemma_times_sum(f: int, a: int, b: int, c: int)
    ensures
        f * (a + b + c) == f * a + f * b + f * c,
{
    lemma_mul_is_distributive_add(f, a + b, c);
    lemma_mul_is_distributive_add(f, a, b);
}

/// `(a + b + c) * (d + e + f)` term by term.
proof fn lemma_sum_times_sum(a: int, b: int, c: int, d: int, e: int, f: int)
    ensures
        (a + b + c) * (d + e + f) == a * d + a * e + a * f + b * d + b * e + b * f + c * d + c * e
            + c * f,
{
    lemma_sum_times(a, b, c, d + e + f);
    lemma_times_sum(a, d, e, f);
    lemma_times_sum(b, d, e, f);
    lemma_times_sum(c, d, e, f);
}

/// `(p - q)^2` term by term.
proof fn lemma_square_of_difference(p: int, q: int)
    ensures
        (p - q) * (p - q) == p * p - 2 * (p * q) + q * q,
{
    lemma_mul_is_distributive_sub(p - q, p, q);
    lemma_mul_is_commutative(p - q, p);
    lemma_mul_is_commutative(p - q, q);
    lemma_mul_is_distributive_sub(p, p, q);
    lemma_mul_is_distributive_sub(q, p, q);
    lemma_mul_is_commutative(q, p);
}

/// The dot product does not depend on the order of its factors.
pub proof fn lemma_dot_exchanged(a: Vec3, b: Vec3)
    ensures
        a.dot(b) == b.dot(a),
{
    lemma_mul_is_commutative(a.x, b.x);
    lemma_mul_is_commutative(a.y, b.y);
    lemma_mul_is_commutative(a.z, b.z);
}

/// The dot product with a difference is the difference of the dot products.
pub proof fn lemma_dot_of_difference(a: Vec3, b: Vec3, c: Vec3)
    ensures
        a.minus(b).dot(c) == a.dot(c) - b.dot(c),
{
    lemma_mul_is_distributive_sub(c.x, a.x, b.x);
    lemma_mul_is_distributive_sub(c.y, a.y, b.y);
    lemma_mul_is_distributive_sub(c.z, a.z, b.z);
    lemma_mul_is_commutative(c.x, a.x - b.x);
    lemma_mul_is_commutative(c.y, a.y - b.y);
    lemma_mul_is_commutative(c.z, a.z - b.z);
    lemma_dot_exchanged(a, c);
    lemma_dot_exchanged(b, c);
}

/// The dot product with a stretched vector is the dot product stretched.
pub proof fn lemma_dot_of_scaled(a: Vec3, f: int, c: Vec3)
    ensures
        a.scale(f).dot(c) == f * a.dot(c),
{
    lemma_mul_is_associative(f, a.x, c.x);
    lemma_mul_is_associative(f, a.y, c.y);
    lemma_mul_is_associative(f, a.z, c.z);
    lemma_times_sum(f, a.x * c.x, a.y * c.y, a.z * c.z);
}

/// The cross product is at a right angle to both of its factors.
pub proof fn lemma_cross_is_normal(a: Vec3, b: Vec3)
    ensures
        a.cross(b).is_normal_to(a),
        a.cross(b).is_normal_to(b),
{
    let (ax, ay, az) = (a.x, a.y, a.z);
    let (bx, by, bz) = (b.x, b.y, b.z);
    assert((ay * bz - az * by) * ax + (az * bx - ax * bz) * ay + (ax * by - ay * bx) * az == 0)
        by (nonlinear_arith);
    assert((ay * bz - az * by) * bx + (az * bx - ax * bz) * by + (ax * by - ay * bx) * bz == 0)
        by (nonlinear_arith);
}

/// Exchanging the factors of a cross product gives the opposite vector.
pub proof fn lemma_cross_exchanged(a: Vec3, b: Vec3)
    ensures
        b.cross(a) == a.cross(b).neg(),
{
    lemma_mul_is_commutative(a.y, b.z);
    lemma_mul_is_commutative(a.z, b.y);
    lemma_mul_is_commutative(a.z, b.x);
    lemma_mul_is_commutative(a.x, b.z);
    lemma_mul_is_commutative(a.x, b.y);
    lemma_mul_is_commutative(a.y, b.x);
}

/// One component of the double cross product, the other two being the
/// same with the coordinates taken in turn.
proof fn lemma_double_cross_component(
    a1: int,
    a2: int,
    a3: int,
    b1: int,
    b2: int,
    b3: int,
    c1: int,
    c2: int,
    c3: int,
    ac: int,
    ab: int,
)
    requires
        ac == a1 * c1 + a2 * c2 + a3 * c3,
        ab == a1 * b1 + a2 * b2 + a3 * b3,
    ensures
        a2 * (b1 * c2 - b2 * c1) - a3 * (b3 * c1 - b1 * c3) == ac * b1 - ab * c1,
{
    lemma_times_difference(a2, b1, c2, b2, c1);
    lemma_times_difference(a3, b3, c1, b1, c3);
    lemma_sum_times(a1 * c1, a2 * c2, a3 * c3, b1);
    lemma_sum_times(a1 * b1, a2 * b2, a3 * b3, c1);
    lemma_swap_last(a1, c1, b1);
    lemma_swap_last(a2, c2, b1);
    lemma_swap_last(a3, c3, b1);
}

/// The double cross product: `a x (b x c) = (a.c) b - (a.b) c`.
pub proof fn lemma_double_cross(a: Vec3, b: Vec3, c: Vec3)
    ensures
        a.cross(b.cross(c)) == b.scale(a.dot(c)).minus(c.scale(a.dot(b))),
{
    let ac = a.dot(c);
    let ab = a.dot(b);
    lemma_double_cross_component(a.x, a.y, a.z, b.x, b.y, b.z, c.x, c.y, c.z, ac, ab);
    lemma_double_cross_component(a.y, a.z, a.x, b.y, b.z, b.x, c.y, c.z, c.x, ac, ab);
    lemma_double_cross_component(a.z, a.x, a.y, b.z, b.x, b.y, c.z, c.x, c.y, ac, ab);
}

/// The square of one component of a cross product.
proof fn lemma_cross_component_square(p: int, q: int, r: int, s: int)
    ensures
        (p * s - q * r) * (p * s - q * r) == (p * p) * (s * s) - 2 * ((p * r) * (q * s)) + (q * q)
            * (r * r),
{
    lemma_square_of_difference(p * s, q * r);
    lemma_swap_inner(p, s, p, s);
    lemma_swap_inner(q, r, q, r);
    lemma_swap_inner(p, s, q, r);
    lemma_mul_is_commutative(s, r);
    lemma_swap_inner(p, q, r, s);
}

/// The squared length of a cross product:
/// `|a x b|^2 = |a|^2 |b|^2 - (a.b)^2`.
pub proof fn lemma_cross_square_length(a: Vec3, b: Vec3)
    ensures
        a.cross(b).square_length() == a.square_length() * b.square_length() - a.dot(b) * a.dot(b),
{
    let (ax, ay, az) = (a.x, a.y, a.z);
    let (bx, by, bz) = (b.x, b.y, b.z);
    lemma_cross_component_square(ay, az, by, bz);
    lemma_cross_component_square(az, ax, bz, bx);
    lemma_cross_component_square(ax, ay, bx, by);
    lemma_sum_times_sum(ax * ax, ay * ay, az * az, bx * bx, by * by, bz * bz);
    lemma_sum_times_sum(ax * bx, ay * by, az * bz, ax * bx, ay * by, az * bz);
    lemma_swap_inner(ax, bx, ax, bx);
    lemma_swap_inner(ay, by, ay, by);
    lemma_swap_inner(az, bz, az, bz);
    lemma_mul_is_commutative(ax * bx, ay * by);
    lemma_mul_is_commutative(ax * bx, az * bz);
    lemma_mul_is_commutative(ay * by, az * bz);
    lemma_mul_is_commutative(ax * ax, bz * bz);
    lemma_mul_is_commutative(ax * ax, by * by);
    lemma_mul_is_commutative(ay * ay, bz * bz);
    lemma_mul_is_commutative(ay * ay, bx * bx);
    lemma_mul_is_commutative(az * az, bx * bx);
    lemma_mul_is_commutative(az * az, by * by);
}

} // verus!
