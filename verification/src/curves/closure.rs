//! Addition and doubling stay on the curve: the sum and the double of points
//! that satisfy `a x^2 + y^2 = z^2 + d t^2` and `x y = z t` satisfy both.

use crate::curves::group::{
    add_value, affine_value, coeff_a, coeff_d, double_value, identity_value, ProjectiveValue,
};
use crate::curves::ladder::{ladder, ladder_value};
use crate::curves::on_curve;
use crate::field::{lemma_modulus_positive, modulus};
use crate::modular::{
    congruent, lemma_congruent_add, lemma_congruent_mul, lemma_congruent_residue,
    lemma_congruent_sub,
};
use vstd::prelude::*;

verus! {

/// The point lies on the curve in extended coordinates:
/// `a x^2 + y^2 = z^2 + d t^2` and `x y = z t` in the field.
pub open spec fn lies_on_curve(p: ProjectiveValue) -> bool {
    let (x, y, t, z) = (p.x as int, p.y as int, p.t as int, p.z as int);
    &&& congruent(coeff_a() * (x * x) + y * y, z * z + coeff_d() * (t * t))
    &&& congruent(x * y, z * t)
}

/// A product of two sums, multiplied out.
proof fn lemma_product_of_sums(a: int, b: int, c: int, d: int)
    by (nonlinear_arith)
    ensures
        (a + b) * (c + d) == a * c + a * d + b * c + b * d,
{
}

/// A product of two differences, multiplied out.
proof fn lemma_product_of_differences(a: int, b: int, c: int, d: int)
    by (nonlinear_arith)
    ensures
        (a - b) * (c - d) == a * c - a * d - b * c + b * d,
{
}

/// A product of two products, with the factors paired otherwise.
proof fn lemma_regroup(a: int, b: int, c: int, d: int)
    by (nonlinear_arith)
    ensures
        (a * b) * (c * d) == (a * c) * (b * d),
        (a * b) * (c * d) == (a * c) * (d * b),
        (a * b) * (c * d) == (c * a) * (b * d),
        (a * b) * (c * d) == (c * a) * (d * b),
        (a * b) * (c * d) == (a * d) * (b * c),
        (a * b) * (c * d) == (a * d) * (c * b),
        (a * b) * (c * d) == (d * a) * (b * c),
        (a * b) * (c * d) == (d * a) * (c * b),
        (a * b) * (c * d) == (b * c) * (a * d),
        (a * b) * (c * d) == (c * b) * (d * a),
        (a * b) * (c * d) == (c * b) * (a * d),
        (a * b) * (c * d) == (b * d) * (a * c),
{
}

/// A factor moved out of a product, distributed over a sum or a difference,
/// and the two orders of a product.
proof fn lemma_scale(k: int, u: int, v: int)
    by (nonlinear_arith)
    ensures
        (k * u) * v == k * (u * v),
        u * (k * v) == k * (u * v),
        k * (u + v) == k * u + k * v,
        k * (u - v) == k * u - k * v,
        u * v == v * u,
        u * (-v) == -(u * v),
{
}

/// Two factors moved out of a product.
proof fn lemma_scale_both(k: int, u: int, l: int, v: int)
    by (nonlinear_arith)
    ensures
        (k * u) * (l * v) == (k * l) * (u * v),
{
}

/// The curve equation of `(e f, g h, e h, f g)` in the squares of the four
/// factors: its sides differ by
/// `f^2 (a e^2 + h^2 - g^2) + h^2 (g^2 - f^2 - d e^2)`.
proof fn lemma_equation_split(a: int, d: int, e2: int, f2: int, g2: int, h2: int)
    ensures
        (a * (e2 * f2) + g2 * h2) - (f2 * g2 + d * (e2 * h2)) == f2 * ((a * e2 + h2) - g2) + h2
            * (g2 - f2 - d * e2),
{
    lemma_scale(f2, a * e2 + h2, g2);
    lemma_scale(f2, a * e2, h2);
    lemma_scale(a, f2, e2);
    lemma_scale(1, f2, e2);
    assert(f2 * ((a * e2 + h2) - g2) == a * (e2 * f2) + f2 * h2 - f2 * g2);
    lemma_scale(h2, g2 - f2, d * e2);
    lemma_scale(h2, g2, f2);
    lemma_scale(d, h2, e2);
    lemma_scale(1, h2, e2);
    lemma_scale(1, h2, g2);
    lemma_scale(1, h2, f2);
    assert(h2 * (g2 - f2 - d * e2) == g2 * h2 - f2 * h2 - d * (e2 * h2));
}

/// A difference of two squares with a common factor.
proof fn lemma_difference_of_squares(d: int, u: int, v: int)
    by (nonlinear_arith)
    ensures
        d * (u * u) - d * (v * v) == (d * (u - v)) * (u + v),
{
}

/// The two sides of the curve equation of `(e f, g h, e h, f g)` and what
/// they differ by.
proof fn lemma_equation_of_products(a: int, d: int, e: int, f: int, g: int, h: int)
    ensures
        (a * ((e * f) * (e * f)) + (g * h) * (g * h)) - ((f * g) * (f * g) + d * ((e * h) * (e
            * h))) == (f * f) * ((a * (e * e) + h * h) - g * g) + (h * h) * (g * g - f * f - d * (e
            * e)),
        (e * f) * (g * h) == (f * g) * (e * h),
{
    lemma_regroup(e, f, e, f);
    lemma_regroup(g, h, g, h);
    lemma_regroup(f, g, f, g);
    lemma_regroup(e, h, e, h);
    lemma_equation_split(a, d, e * e, f * f, g * g, h * h);
    lemma_regroup(e, f, g, h);
}

/// `a e^2 + h^2 = n1 n2` for `e = x1 y2 + y1 x2`, `h = y1 y2 - a x1 x2` and
/// `n = a x^2 + y^2`.
proof fn lemma_norm_is_multiplicative(a: int, x1: int, y1: int, x2: int, y2: int)
    ensures
        a * ((x1 * y2 + y1 * x2) * (x1 * y2 + y1 * x2)) + (y1 * y2 - a * (x1 * x2)) * (y1 * y2 - a
            * (x1 * x2)) == (a * (x1 * x1) + y1 * y1) * (a * (x2 * x2) + y2 * y2),
{
    let (u, v, w, k) = (x1 * y2, y1 * x2, y1 * y2, x1 * x2);
    let (xs1, ys1, xs2, ys2) = (x1 * x1, y1 * y1, x2 * x2, y2 * y2);
    // the right side
    lemma_product_of_sums(a * xs1, ys1, a * xs2, ys2);
    lemma_scale_both(a, xs1, a, xs2);
    lemma_regroup(x1, x1, x2, x2);
    lemma_scale(a, xs1, ys2);
    lemma_regroup(x1, x1, y2, y2);
    lemma_scale(a, ys1, xs2);
    lemma_regroup(y1, y1, x2, x2);
    lemma_regroup(y1, y1, y2, y2);
    let right = (a * xs1 + ys1) * (a * xs2 + ys2);
    assert(right == (a * a) * (k * k) + a * (u * u) + a * (v * v) + w * w);
    // the left side
    lemma_product_of_sums(u, v, u, v);
    lemma_scale(1, u, v);
    lemma_regroup(x1, y2, y1, x2);
    lemma_scale(1, k, w);
    assert(u * v == w * k);
    assert((u + v) * (u + v) == u * u + 2 * (w * k) + v * v);
    lemma_scale(a, u * u + 2 * (w * k), v * v);
    lemma_scale(a, u * u, 2 * (w * k));
    lemma_scale(a, 2, w * k);
    lemma_scale(2, a, w * k);
    assert(a * ((u + v) * (u + v)) == a * (u * u) + 2 * (a * (w * k)) + a * (v * v));
    lemma_product_of_differences(w, a * k, w, a * k);
    lemma_scale(a, w, k);
    lemma_scale(a, k, w);
    lemma_scale_both(a, k, a, k);
    assert((w - a * k) * (w - a * k) == w * w - 2 * (a * (w * k)) + (a * a) * (k * k));
}

/// `m1 m2 - g^2 = d p^2` for `m = z^2 + d t^2`, `g = z1 z2 + d t1 t2` and
/// `p = z1 t2 - t1 z2`.
proof fn lemma_denominator_defect(d: int, z1: int, t1: int, z2: int, t2: int)
    ensures
        (z1 * z1 + d * (t1 * t1)) * (z2 * z2 + d * (t2 * t2)) - (z1 * z2 + d * t1 * t2) * (z1 * z2
            + d * t1 * t2) == d * ((z1 * t2 - t1 * z2) * (z1 * t2 - t1 * z2)),
{
    let (zz, tt, u, v) = (z1 * z2, t1 * t2, z1 * t2, t1 * z2);
    let (zs1, ts1, zs2, ts2) = (z1 * z1, t1 * t1, z2 * z2, t2 * t2);
    lemma_product_of_sums(zs1, d * ts1, zs2, d * ts2);
    lemma_regroup(z1, z1, z2, z2);
    lemma_scale(d, zs1, ts2);
    lemma_regroup(z1, z1, t2, t2);
    lemma_scale(d, ts1, zs2);
    lemma_regroup(t1, t1, z2, z2);
    lemma_scale_both(d, ts1, d, ts2);
    lemma_regroup(t1, t1, t2, t2);
    let left = (zs1 + d * ts1) * (zs2 + d * ts2);
    assert(left == zz * zz + d * (u * u) + d * (v * v) + (d * d) * (tt * tt));
    lemma_scale(d, t1, t2);
    let g = zz + d * t1 * t2;
    assert(g == zz + d * tt);
    lemma_product_of_sums(zz, d * tt, zz, d * tt);
    lemma_scale(d, zz, tt);
    lemma_scale_both(d, tt, d, tt);
    assert(g * g == zz * zz + 2 * (d * (zz * tt)) + (d * d) * (tt * tt));
    lemma_product_of_differences(u, v, u, v);
    lemma_regroup(z1, t2, t1, z2);
    lemma_scale(1, u, v);
    assert(u * v == zz * tt);
    assert((u - v) * (u - v) == u * u - 2 * (zz * tt) + v * v);
    lemma_scale(d, u * u - 2 * (zz * tt), v * v);
    lemma_scale(d, u * u, 2 * (zz * tt));
    lemma_scale(2, d, zz * tt);
    lemma_scale(d, 2, zz * tt);
}

/// `h q = s1 n2 - s2 n1` for `h = y1 y2 - a x1 x2`, `q = x1 y2 - y1 x2`,
/// `s = x y` and `n = a x^2 + y^2`.
proof fn lemma_numerator_cross(a: int, x1: int, y1: int, x2: int, y2: int)
    ensures
        (y1 * y2 - a * (x1 * x2)) * (x1 * y2 - y1 * x2) == (x1 * y1) * (a * (x2 * x2) + y2 * y2)
            - (x2 * y2) * (a * (x1 * x1) + y1 * y1),
{
    let (u, v, w, k) = (x1 * y2, y1 * x2, y1 * y2, x1 * x2);
    let (xs1, ys1, xs2, ys2) = (x1 * x1, y1 * y1, x2 * x2, y2 * y2);
    let (s1, s2) = (x1 * y1, x2 * y2);
    lemma_product_of_differences(w, a * k, u, v);
    lemma_scale(a, k, u);
    lemma_scale(a, k, v);
    assert((w - a * k) * (u - v) == w * u - w * v - a * (k * u) + a * (k * v));
    lemma_scale(s1, a * xs2, ys2);
    lemma_scale(a, s1, xs2);
    lemma_regroup(x1, y1, x2, x2);
    lemma_regroup(x1, y1, y2, y2);
    lemma_scale(1, u, w);
    assert(s1 * (a * xs2 + ys2) == a * (k * v) + w * u);
    lemma_scale(s2, a * xs1, ys1);
    lemma_scale(a, s2, xs1);
    lemma_regroup(x2, y2, x1, x1);
    lemma_regroup(x2, y2, y1, y1);
    lemma_scale(1, v, w);
    assert(s2 * xs1 == k * u);
    assert(s2 * ys1 == w * v);
    assert(s2 * (a * xs1 + ys1) == a * (k * u) + w * v);
}

/// `f p = r2 m1 - r1 m2` for `f = z1 z2 - d t1 t2`, `p = z1 t2 - t1 z2`,
/// `r = z t` and `m = z^2 + d t^2`.
proof fn lemma_denominator_cross(d: int, z1: int, t1: int, z2: int, t2: int)
    ensures
        (z1 * z2 - d * t1 * t2) * (z1 * t2 - t1 * z2) == (z2 * t2) * (z1 * z1 + d * (t1 * t1))
            - (z1 * t1) * (z2 * z2 + d * (t2 * t2)),
{
    let (zz, tt, u, v) = (z1 * z2, t1 * t2, z1 * t2, t1 * z2);
    let (zs1, ts1, zs2, ts2) = (z1 * z1, t1 * t1, z2 * z2, t2 * t2);
    let (r1, r2) = (z1 * t1, z2 * t2);
    lemma_scale(d, t1, t2);
    assert(zz - d * t1 * t2 == zz - d * tt);
    lemma_product_of_differences(zz, d * tt, u, v);
    lemma_scale(d, tt, u);
    lemma_scale(d, tt, v);
    assert((zz - d * tt) * (u - v) == zz * u - zz * v - d * (tt * u) + d * (tt * v));
    lemma_scale(r2, zs1, d * ts1);
    lemma_scale(d, r2, ts1);
    lemma_regroup(z2, t2, z1, z1);
    lemma_regroup(z2, t2, t1, t1);
    assert(r2 * zs1 == zz * u);
    assert(r2 * ts1 == tt * v);
    assert(r2 * (zs1 + d * ts1) == zz * u + d * (tt * v));
    lemma_scale(r1, zs2, d * ts2);
    lemma_scale(d, r1, ts2);
    lemma_regroup(z1, t1, z2, z2);
    lemma_regroup(z1, t1, t2, t2);
    assert(r1 * zs2 == zz * v);
    assert(r1 * ts2 == tt * u);
    assert(r1 * (zs2 + d * ts2) == zz * v + d * (tt * u));
}

/// `e^2 = q^2 + 4 s1 s2` and `g^2 - f^2 = 4 d r1 r2`.
proof fn lemma_squares_apart(d: int, x1: int, y1: int, t1: int, z1: int, x2: int, y2: int, t2: int, z2: int)
    ensures
        (x1 * y2 + y1 * x2) * (x1 * y2 + y1 * x2) == (x1 * y2 - y1 * x2) * (x1 * y2 - y1 * x2) + 4
            * ((x1 * y1) * (x2 * y2)),
        (z1 * z2 + d * t1 * t2) * (z1 * z2 + d * t1 * t2) - (z1 * z2 - d * t1 * t2) * (z1 * z2 - d
            * t1 * t2) == 4 * (d * ((z1 * t1) * (z2 * t2))),
{
    let (u, v) = (x1 * y2, y1 * x2);
    lemma_product_of_sums(u, v, u, v);
    lemma_product_of_differences(u, v, u, v);
    lemma_scale(1, u, v);
    lemma_regroup(x1, y1, x2, y2);
    assert((x1 * y1) * (x2 * y2) == u * v);
    let (zz, tt) = (z1 * z2, t1 * t2);
    lemma_scale(d, t1, t2);
    assert(d * t1 * t2 == d * tt);
    lemma_product_of_sums(zz, d * tt, zz, d * tt);
    lemma_product_of_differences(zz, d * tt, zz, d * tt);
    lemma_scale(1, zz, d * tt);
    lemma_scale(d, zz, tt);
    lemma_regroup(z1, t1, z2, t2);
    assert((z1 * t1) * (z2 * t2) == zz * tt);
}

/// The sum of two points of the curve, before reduction, satisfies the curve
/// equation modulo the field order.
proof fn lemma_sum_closure(x1: int, y1: int, t1: int, z1: int, x2: int, y2: int, t2: int, z2: int)
    requires
        congruent(coeff_a() * (x1 * x1) + y1 * y1, z1 * z1 + coeff_d() * (t1 * t1)),
        congruent(x1 * y1, z1 * t1),
        congruent(coeff_a() * (x2 * x2) + y2 * y2, z2 * z2 + coeff_d() * (t2 * t2)),
        congruent(x2 * y2, z2 * t2),
    ensures
        ({
            let e = x1 * y2 + y1 * x2;
            let f = z1 * z2 - coeff_d() * t1 * t2;
            let g = z1 * z2 + coeff_d() * t1 * t2;
            let h = y1 * y2 - coeff_a() * (x1 * x2);
            congruent(
                coeff_a() * ((e * f) * (e * f)) + (g * h) * (g * h),
                (f * g) * (f * g) + coeff_d() * ((e * h) * (e * h)),
            )
        }),
{
    let a = coeff_a() as int;
    let d = coeff_d() as int;
    let n1 = a * (x1 * x1) + y1 * y1;
    let n2 = a * (x2 * x2) + y2 * y2;
    let m1 = z1 * z1 + d * (t1 * t1);
    let m2 = z2 * z2 + d * (t2 * t2);
    let (s1, s2, r1, r2) = (x1 * y1, x2 * y2, z1 * t1, z2 * t2);
    let e = x1 * y2 + y1 * x2;
    let h = y1 * y2 - a * (x1 * x2);
    let f = z1 * z2 - d * t1 * t2;
    let g = z1 * z2 + d * t1 * t2;
    let p = z1 * t2 - t1 * z2;
    let q = x1 * y2 - y1 * x2;
    let left = a * ((e * f) * (e * f)) + (g * h) * (g * h);
    let right = (f * g) * (f * g) + d * ((e * h) * (e * h));
    lemma_norm_is_multiplicative(a, x1, y1, x2, y2);
    lemma_denominator_defect(d, z1, t1, z2, t2);
    lemma_numerator_cross(a, x1, y1, x2, y2);
    lemma_denominator_cross(d, z1, t1, z2, t2);
    lemma_squares_apart(d, x1, y1, t1, z1, x2, y2, t2, z2);
    lemma_equation_of_products(a, d, e, f, g, h);
    let first = n1 * n2 - g * g;
    let second = g * g - f * f - d * (e * e);
    assert(left - right == (f * f) * first + (h * h) * second);
    // first = d p^2, modulo the order
    lemma_congruent_mul(n1, m1, n2, m2);
    lemma_congruent_sub(n1 * n2, m1 * m2, g * g, g * g);
    assert(congruent(first, d * (p * p)));
    // second = -d q^2, modulo the order
    lemma_scale(d, q * q, 4 * (s1 * s2));
    lemma_scale(d, 4, s1 * s2);
    assert(second == 4 * (d * (r1 * r2)) - d * (q * q) - 4 * (d * (s1 * s2)));
    lemma_congruent_mul(s1, r1, s2, r2);
    lemma_congruent_mul(d, d, r1 * r2, s1 * s2);
    lemma_congruent_mul(4, 4, d * (r1 * r2), d * (s1 * s2));
    lemma_congruent_sub(4 * (d * (r1 * r2)), 4 * (d * (s1 * s2)), d * (q * q), d * (q * q));
    lemma_congruent_sub(
        4 * (d * (r1 * r2)) - d * (q * q),
        4 * (d * (s1 * s2)) - d * (q * q),
        4 * (d * (s1 * s2)),
        4 * (d * (s1 * s2)),
    );
    assert(congruent(second, -(d * (q * q))));
    // the two sides differ by d (f p - h q)(f p + h q)
    lemma_congruent_mul(f * f, f * f, first, d * (p * p));
    lemma_congruent_mul(h * h, h * h, second, -(d * (q * q)));
    lemma_congruent_add(
        (f * f) * first,
        (f * f) * (d * (p * p)),
        (h * h) * second,
        (h * h) * (-(d * (q * q))),
    );
    let fp = f * p;
    let hq = h * q;
    lemma_scale(d, f * f, p * p);
    lemma_regroup(f, f, p, p);
    lemma_scale(1, h * h, d * (q * q));
    lemma_scale(d, h * h, q * q);
    lemma_regroup(h, h, q, q);
    lemma_difference_of_squares(d, fp, hq);
    assert((f * f) * (d * (p * p)) + (h * h) * (-(d * (q * q))) == (d * (fp - hq)) * (fp + hq));
    // f p + h q vanishes modulo the order
    lemma_congruent_mul(s1, r1, n2, m2);
    lemma_congruent_mul(s2, r2, n1, m1);
    lemma_congruent_sub(s1 * n2, r1 * m2, s2 * n1, r2 * m1);
    lemma_congruent_add(r2 * m1 - r1 * m2, r2 * m1 - r1 * m2, s1 * n2 - s2 * n1, r1 * m2 - r2 * m1);
    assert(congruent(fp + hq, 0));
    lemma_congruent_mul(d * (fp - hq), d * (fp - hq), fp + hq, 0);
    assert((d * (fp - hq)) * 0 == 0);
    assert(congruent(left - right, 0));
    lemma_congruent_add(left - right, 0, right, right);
}

/// The double of a point of the curve, before reduction, satisfies the curve
/// equation modulo the field order.
proof fn lemma_double_closure(x: int, y: int, t: int, z: int)
    requires
        congruent(coeff_a() * (x * x) + y * y, z * z + coeff_d() * (t * t)),
        congruent(x * y, z * t),
    ensures
        ({
            let e = 2 * (x * y);
            let g = coeff_a() * (x * x) + y * y;
            let f = g - 2 * (z * z);
            let h = coeff_a() * (x * x) - y * y;
            congruent(
                coeff_a() * ((e * f) * (e * f)) + (g * h) * (g * h),
                (f * g) * (f * g) + coeff_d() * ((e * h) * (e * h)),
            )
        }),
{
    let a = coeff_a() as int;
    let d = coeff_d() as int;
    let (xs, ys, w, ts, s, r) = (x * x, y * y, z * z, t * t, x * y, z * t);
    let e = 2 * s;
    let g = a * xs + ys;
    let f = g - 2 * w;
    let h = a * xs - ys;
    let m = w + d * ts;
    let left = a * ((e * f) * (e * f)) + (g * h) * (g * h);
    let right = (f * g) * (f * g) + d * ((e * h) * (e * h));
    // a e^2 + h^2 = g^2
    lemma_scale_both(2, s, 2, s);
    lemma_regroup(x, y, x, y);
    assert(e * e == 4 * (xs * ys));
    lemma_scale(a, 4, xs * ys);
    lemma_scale(4, a, xs * ys);
    lemma_product_of_differences(a * xs, ys, a * xs, ys);
    lemma_product_of_sums(a * xs, ys, a * xs, ys);
    lemma_scale(a, xs, ys);
    lemma_scale(1, a * xs, ys);
    assert(a * (e * e) + h * h == g * g);
    lemma_equation_of_products(a, d, e, f, g, h);
    let second = g * g - f * f - d * (e * e);
    assert(left - right == (h * h) * second) by {
        assert((f * f) * 0 == 0) by (nonlinear_arith);
    }
    // g^2 - f^2 - d e^2 = 4 w (g - m), modulo the order
    lemma_product_of_differences(g, 2 * w, g, 2 * w);
    lemma_scale(2, g, w);
    lemma_scale(1, g, 2 * w);
    lemma_scale_both(2, w, 2, w);
    assert(g * g - f * f == 4 * (g * w) - 4 * (w * w));
    lemma_scale(d, 4, s * s);
    lemma_scale(4, d, s * s);
    assert(d * (e * e) == 4 * (d * (s * s))) by {
        lemma_regroup(x, y, x, y);
    }
    lemma_congruent_mul(s, r, s, r);
    lemma_regroup(z, t, z, t);
    assert(r * r == w * ts);
    lemma_congruent_mul(d, d, s * s, w * ts);
    lemma_congruent_mul(4, 4, d * (s * s), d * (w * ts));
    lemma_congruent_sub(
        4 * (g * w) - 4 * (w * w),
        4 * (g * w) - 4 * (w * w),
        4 * (d * (s * s)),
        4 * (d * (w * ts)),
    );
    let folded = (4 * w) * (g - m);
    lemma_scale(4 * w, g, m);
    lemma_scale(4 * w, w, d * ts);
    lemma_scale(4, w, g);
    lemma_scale(1, w, g);
    lemma_scale(4, w, w);
    lemma_scale(4, w, d * ts);
    lemma_scale(d, w, ts);
    assert(folded == 4 * (g * w) - 4 * (w * w) - 4 * (d * (w * ts)));
    assert(congruent(second, folded));
    lemma_congruent_sub(g, m, m, m);
    lemma_congruent_mul(4 * w, 4 * w, g - m, 0);
    assert((4 * w) * 0 == 0) by (nonlinear_arith);
    assert(congruent(second, 0));
    lemma_congruent_mul(h * h, h * h, second, 0);
    assert((h * h) * 0 == 0) by (nonlinear_arith);
    assert(congruent(left - right, 0));
    lemma_congruent_add(left - right, 0, right, right);
}

/// The reduced point `(e f, g h, e h, f g)` lies on the curve if the
/// products satisfy the curve equation before reduction.
proof fn lemma_reduced_products_on_curve(e: int, f: int, g: int, h: int, r: ProjectiveValue)
    requires
        congruent(
            coeff_a() * ((e * f) * (e * f)) + (g * h) * (g * h),
            (f * g) * (f * g) + coeff_d() * ((e * h) * (e * h)),
        ),
        r.x == (e * f) % (modulus() as int),
        r.y == (g * h) % (modulus() as int),
        r.t == (e * h) % (modulus() as int),
        r.z == (f * g) % (modulus() as int),
    ensures
        lies_on_curve(r),
{
    let a = coeff_a() as int;
    let d = coeff_d() as int;
    let (x, y, t, z) = (r.x as int, r.y as int, r.t as int, r.z as int);
    lemma_congruent_residue(e * f);
    lemma_congruent_residue(g * h);
    lemma_congruent_residue(e * h);
    lemma_congruent_residue(f * g);
    lemma_congruent_mul(x, e * f, x, e * f);
    lemma_congruent_mul(y, g * h, y, g * h);
    lemma_congruent_mul(t, e * h, t, e * h);
    lemma_congruent_mul(z, f * g, z, f * g);
    lemma_congruent_mul(a, a, x * x, (e * f) * (e * f));
    lemma_congruent_mul(d, d, t * t, (e * h) * (e * h));
    lemma_congruent_add(a * (x * x), a * ((e * f) * (e * f)), y * y, (g * h) * (g * h));
    lemma_congruent_add(z * z, (f * g) * (f * g), d * (t * t), d * ((e * h) * (e * h)));
    lemma_congruent_mul(x, e * f, y, g * h);
    lemma_congruent_mul(z, f * g, t, e * h);
    lemma_regroup(e, f, g, h);
    lemma_regroup(f, g, e, h);
    assert((e * f) * (g * h) == (f * g) * (e * h));
}

/// The sum of two points of the curve is a point of the curve.
pub proof fn lemma_sum_on_curve(p: ProjectiveValue, q: ProjectiveValue)
    requires
        lies_on_curve(p),
        lies_on_curve(q),
    ensures
        lies_on_curve(add_value(p, q)),
{
    let (x1, y1, t1, z1) = (p.x as int, p.y as int, p.t as int, p.z as int);
    let (x2, y2, t2, z2) = (q.x as int, q.y as int, q.t as int, q.z as int);
    lemma_sum_closure(x1, y1, t1, z1, x2, y2, t2, z2);
    let e = x1 * y2 + y1 * x2;
    let f = z1 * z2 - coeff_d() * t1 * t2;
    let g = z1 * z2 + coeff_d() * t1 * t2;
    let h = y1 * y2 - coeff_a() * (x1 * x2);
    lemma_congruent_residue(e * f);
    lemma_congruent_residue(g * h);
    lemma_congruent_residue(e * h);
    lemma_congruent_residue(f * g);
    lemma_reduced_products_on_curve(e, f, g, h, add_value(p, q));
}

/// The double of a point of the curve is a point of the curve.
pub proof fn lemma_double_on_curve(p: ProjectiveValue)
    requires
        lies_on_curve(p),
    ensures
        lies_on_curve(double_value(p)),
{
    let (x, y, t, z) = (p.x as int, p.y as int, p.t as int, p.z as int);
    lemma_double_closure(x, y, t, z);
    let e = 2 * (x * y);
    let g = coeff_a() * (x * x) + y * y;
    let f = g - 2 * (z * z);
    let h = coeff_a() * (x * x) - y * y;
    lemma_congruent_residue(e * f);
    lemma_congruent_residue(g * h);
    lemma_congruent_residue(e * h);
    lemma_congruent_residue(f * g);
    lemma_reduced_products_on_curve(e, f, g, h, double_value(p));
}

/// The neutral element is a point of the curve.
pub proof fn lemma_identity_on_curve()
    ensures
        lies_on_curve(identity_value()),
{
    let (a, d) = (coeff_a() as int, coeff_d() as int);
    assert(a * (0int * 0int) + 1int * 1int == 1int * 1int + d * (0int * 0int)) by (nonlinear_arith);
    assert(0int * 1int == 1int * 0int) by (nonlinear_arith);
}

/// An affine point `(x, y)` with `a x^2 + y^2 = 1 + d x^2 y^2` is a point of
/// the curve in extended coordinates.
pub proof fn lemma_affine_on_curve(x: nat, y: nat)
    requires
        on_curve(x, y),
    ensures
        lies_on_curve(affine_value(x, y)),
{
    let d = coeff_d() as int;
    let (ex, ey) = (x as int, y as int);
    assert(congruent(
        coeff_a() * (ex * ex) + ey * ey,
        1 + coeff_d() * ((ex * ex) * (ey * ey)),
    ));
    let t = ((ex * ey) % (modulus() as int));
    lemma_congruent_residue(ex * ey);
    assert(affine_value(x, y).t == t);
    lemma_congruent_mul(t, ex * ey, t, ex * ey);
    lemma_regroup(ex, ey, ex, ey);
    lemma_congruent_mul(d, d, t * t, (ex * ex) * (ey * ey));
    lemma_congruent_add(1, 1, d * (t * t), d * ((ex * ex) * (ey * ey)));
    assert(1int * 1int == 1);
    assert(1 * t == t);
}

/// The ladder stays on the curve: both points that it holds after any
/// number of bits are points of the curve, if the base is.
pub proof fn lemma_ladder_on_curve(scalar: Seq<u64>, base: ProjectiveValue, n: nat)
    requires
        lies_on_curve(base),
    ensures
        lies_on_curve(ladder(scalar, base, n).0),
        lies_on_curve(ladder(scalar, base, n).1),
    decreases n,
{
    if n == 0 {
        lemma_identity_on_curve();
    } else {
        lemma_ladder_on_curve(scalar, base, (n - 1) as nat);
        let (a, b) = ladder(scalar, base, (n - 1) as nat);
        lemma_sum_on_curve(a, b);
        lemma_sum_on_curve(b, a);
        lemma_double_on_curve(a);
        lemma_double_on_curve(b);
    }
}

/// The scalar multiple of a point of the curve is a point of the curve.
pub proof fn lemma_multiple_on_curve(scalar: Seq<u64>, base: ProjectiveValue)
    requires
        lies_on_curve(base),
    ensures
        lies_on_curve(ladder_value(scalar, base)),
{
    lemma_ladder_on_curve(scalar, base, 64 * scalar.len());
}

} // verus!
