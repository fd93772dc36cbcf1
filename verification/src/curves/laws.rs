//! What holds of the ladder whatever the points: its results have consistent
//! coordinates, the scalar zero gives the neutral element and the scalar one
//! the base.

use crate::curves::group::{
    add_value, coeff_a, coeff_d, double_value, is_identity, reduce, same_point, ProjectiveValue,
};
use crate::curves::ladder::{ladder, ladder_step, ladder_value, scalar_bit, scalar_value};
use crate::field::{fmul, lemma_modulus_positive, modulus};
use crate::modular::{congruent, lemma_congruent_mul, lemma_congruent_sub};
use vstd::arithmetic::div_mod::{
    lemma_mod_multiples_vanish, lemma_mul_mod_noop, lemma_mul_mod_noop_left,
    lemma_mul_mod_noop_right, lemma_small_mod,
};
use vstd::prelude::*;

verus! {

/// The value has an inverse in the field.
pub open spec fn is_unit(v: nat) -> bool {
    exists|w: nat| fmul(v, w) == 1
}

/// The coordinates are reduced.
pub open spec fn reduced(p: ProjectiveValue) -> bool {
    p.x < modulus() && p.y < modulus() && p.t < modulus() && p.z < modulus()
}

/// The coordinates are consistent: `t z = x y`, so that `t` stands for
/// `x y / z`.
pub open spec fn is_extended(p: ProjectiveValue) -> bool {
    fmul(p.t, p.z) == fmul(p.x, p.y)
}

/// The coordinates `(e f, g h, e h, f g)` are consistent, whatever the four
/// factors.
proof fn lemma_products_are_extended(e: int, f: int, g: int, h: int)
    ensures
        is_extended(
            ProjectiveValue {
                x: reduce(e * f),
                y: reduce(g * h),
                t: reduce(e * h),
                z: reduce(f * g),
            },
        ),
{
    let p = modulus() as int;
    lemma_modulus_positive();
    lemma_mul_mod_noop(e * h, f * g, p);
    lemma_mul_mod_noop(e * f, g * h, p);
    assert((e * h) * (f * g) == (e * f) * (g * h)) by (nonlinear_arith);
    vstd::arithmetic::div_mod::lemma_mod_bound(e * f, p);
    vstd::arithmetic::div_mod::lemma_mod_bound(g * h, p);
    vstd::arithmetic::div_mod::lemma_mod_bound(e * h, p);
    vstd::arithmetic::div_mod::lemma_mod_bound(f * g, p);
}

/// Every sum has consistent coordinates, whatever the summands.
pub proof fn lemma_sum_is_extended(p: ProjectiveValue, q: ProjectiveValue)
    ensures
        is_extended(add_value(p, q)),
{
    let (x1, y1, t1, z1) = (p.x as int, p.y as int, p.t as int, p.z as int);
    let (x2, y2, t2, z2) = (q.x as int, q.y as int, q.t as int, q.z as int);
    lemma_products_are_extended(
        x1 * y2 + y1 * x2,
        z1 * z2 - coeff_d() * t1 * t2,
        z1 * z2 + coeff_d() * t1 * t2,
        y1 * y2 - coeff_a() * (x1 * x2),
    );
}

/// Every double has consistent coordinates, whatever the point.
pub proof fn lemma_double_is_extended(p: ProjectiveValue)
    ensures
        is_extended(double_value(p)),
{
    let (x, y, z) = (p.x as int, p.y as int, p.z as int);
    let g = coeff_a() * (x * x) + y * y;
    lemma_products_are_extended(
        2 * (x * y),
        g - 2 * (z * z),
        g,
        coeff_a() * (x * x) - y * y,
    );
}

/// What the ladder returns has consistent coordinates, if the base has.
pub proof fn lemma_ladder_is_extended(scalar: Seq<u64>, base: ProjectiveValue, n: nat)
    requires
        is_extended(base),
    ensures
        is_extended(ladder(scalar, base, n).0),
        is_extended(ladder(scalar, base, n).1),
    decreases n,
{
    if n == 0 {
        lemma_modulus_positive();
        assert(fmul(0, 1) == fmul(0, 1));
    } else {
        let (a, b) = ladder(scalar, base, (n - 1) as nat);
        lemma_sum_is_extended(a, b);
        lemma_sum_is_extended(b, a);
        lemma_double_is_extended(a);
        lemma_double_is_extended(b);
    }
}

/// The representative `(0, c, 0, c)` of the neutral element.
pub open spec fn neutral(c: nat) -> ProjectiveValue {
    ProjectiveValue { x: 0, y: c, t: 0, z: c }
}

/// The point with every coordinate of `p` multiplied by `p.z`: the same
/// affine point.
pub open spec fn scaled_by_z(p: ProjectiveValue) -> ProjectiveValue {
    ProjectiveValue {
        x: fmul(p.x, p.z),
        y: fmul(p.z, p.y),
        t: fmul(p.x, p.y),
        z: fmul(p.z, p.z),
    }
}

/// `q` is `p` with `x`, `y` and `z` multiplied by `l`.
pub open spec fn scaled(q: ProjectiveValue, p: ProjectiveValue, l: nat) -> bool {
    q.x == fmul(l, p.x) && q.y == fmul(l, p.y) && q.z == fmul(l, p.z)
}

/// A factor whose square is one cancels from a product of two multiples.
proof fn lemma_cancel_square(u: int, v: int, c: int)
    requires
        0 <= c,
        fmul(c as nat, c as nat) == 1,
        0 <= u,
        0 <= v,
    ensures
        reduce((u * c) * (v * c)) == fmul(u as nat, v as nat),
{
    let p = modulus() as int;
    lemma_modulus_positive();
    assert((u * c) * (v * c) == (u * v) * (c * c)) by (nonlinear_arith);
    lemma_mul_mod_noop_right(u * v, c * c, p);
    assert((u * v) * 1 == u * v);
}

/// Adding a representative of the neutral element on the right multiplies
/// the coordinates by `z`.
pub proof fn lemma_add_neutral_right(b: ProjectiveValue, c: nat)
    requires
        fmul(c, c) == 1,
    ensures
        add_value(b, neutral(c)) == scaled_by_z(b),
{
    let (x, y, t, z) = (b.x as int, b.y as int, b.t as int, b.z as int);
    let k = c as int;
    let ca = coeff_a() as int;
    let cd = coeff_d() as int;
    let e = x * k + y * 0;
    let f = z * k - cd * t * 0;
    let g = z * k + cd * t * 0;
    let h = y * k - ca * (x * 0);
    assert(e == x * k && f == z * k && g == z * k && h == y * k) by (nonlinear_arith)
        requires
            e == x * k + y * 0,
            f == z * k - cd * t * 0,
            g == z * k + cd * t * 0,
            h == y * k - ca * (x * 0),
    ;
    lemma_cancel_square(x, z, k);
    lemma_cancel_square(z, y, k);
    lemma_cancel_square(x, y, k);
    lemma_cancel_square(z, z, k);
}

/// Adding a representative of the neutral element on the left multiplies the
/// coordinates by `z`.
pub proof fn lemma_add_neutral_left(c: nat, b: ProjectiveValue)
    requires
        fmul(c, c) == 1,
    ensures
        add_value(neutral(c), b) == scaled_by_z(b),
{
    let (x, y, t, z) = (b.x as int, b.y as int, b.t as int, b.z as int);
    let k = c as int;
    let ca = coeff_a() as int;
    let cd = coeff_d() as int;
    let e = 0 * y + k * x;
    let f = k * z - cd * 0 * t;
    let g = k * z + cd * 0 * t;
    let h = k * y - ca * (0 * x);
    assert(e == x * k && f == z * k && g == z * k && h == y * k) by (nonlinear_arith)
        requires
            e == 0 * y + k * x,
            f == k * z - cd * 0 * t,
            g == k * z + cd * 0 * t,
            h == k * y - ca * (0 * x),
    ;
    lemma_cancel_square(x, z, k);
    lemma_cancel_square(z, y, k);
    lemma_cancel_square(x, y, k);
    lemma_cancel_square(z, z, k);
}

/// Doubling either representative `(0, 1, 0, 1)` or `(0, p - 1, 0, p - 1)` of
/// the neutral element gives the second.
pub proof fn lemma_double_neutral(c: nat)
    requires
        c == 1 || c == modulus() - 1,
    ensures
        double_value(neutral(c)) == neutral((modulus() - 1) as nat),
        fmul(c, c) == 1,
{
    let p = modulus() as int;
    let k = c as int;
    let ca = coeff_a() as int;
    let sq = k * k;
    lemma_modulus_positive();
    lemma_small_mod(1, modulus());
    // the square of either value is one
    if c == 1 {
        assert(sq == 1) by (nonlinear_arith)
            requires
                sq == k * k,
                k == 1,
        ;
    } else {
        assert(sq == p * (p - 2) + 1) by (nonlinear_arith)
            requires
                sq == k * k,
                k == p - 1,
        ;
        lemma_mod_multiples_vanish(p - 2, 1, p);
    }
    assert(congruent(sq, 1));
    // (0, c, 0, c) doubles to (0, -c^4, 0, -c^4)
    let e = 2 * (0 * k);
    let g = ca * (0 * 0) + k * k;
    let f = g - 2 * (k * k);
    let h = ca * (0 * 0) - k * k;
    assert(e == 0 && g == sq && f == -sq && h == -sq);
    assert(e * f == 0 && e * h == 0) by (nonlinear_arith)
        requires
            e == 0,
    ;
    lemma_congruent_sub(0, 0, sq, 1);
    lemma_congruent_mul(sq, 1, -sq, -1);
    lemma_congruent_mul(-sq, -1, sq, 1);
    assert(1 * (-1int) == -1 && (-1int) * 1 == -1);
    assert((-1int) % p == p - 1) by {
        reveal(modulus);
    }
    assert(0int % p == 0);
}

/// A product of two products, regrouped: `(a b)(c d) = (a c)(b d)` in the
/// field.
proof fn lemma_regroup(a: nat, b: nat, c: nat, d: nat)
    ensures
        fmul(fmul(a, b), fmul(c, d)) == fmul(fmul(a, c), fmul(b, d)),
{
    let p = modulus() as int;
    lemma_modulus_positive();
    lemma_mul_mod_noop((a * b) as int, (c * d) as int, p);
    lemma_mul_mod_noop((a * c) as int, (b * d) as int, p);
    assert((a * b) * (c * d) == (a * c) * (b * d)) by (nonlinear_arith);
}

/// Multiplication in the field is commutative.
proof fn lemma_fmul_commutes(a: nat, b: nat)
    ensures
        fmul(a, b) == fmul(b, a),
{
    assert(a * b == b * a) by (nonlinear_arith);
}

/// Multiplication in the field is associative.
proof fn lemma_fmul_associates(a: nat, b: nat, c: nat)
    ensures
        fmul(fmul(a, b), c) == fmul(a, fmul(b, c)),
{
    let p = modulus() as int;
    lemma_modulus_positive();
    lemma_mul_mod_noop_left((a * b) as int, c as int, p);
    lemma_mul_mod_noop_right(a as int, (b * c) as int, p);
    assert((a * b) * c == a * (b * c)) by (nonlinear_arith);
}

/// One is the unit of the multiplication on reduced values.
proof fn lemma_fmul_one(a: nat)
    requires
        a < modulus(),
    ensures
        fmul(a, 1) == a,
        fmul(1, a) == a,
        fmul(1, 1) == 1,
{
    reveal(modulus);
    lemma_small_mod(a, modulus());
    assert(a * 1 == a && 1 * a == a);
}

/// Multiplying a multiple of `p` by its own `z` gives the multiple of `p` by
/// `l l z`.
proof fn lemma_scaled_step(p: ProjectiveValue, q: ProjectiveValue, l: nat)
    requires
        scaled(q, p, l),
    ensures
        scaled(scaled_by_z(q), p, fmul(fmul(l, l), p.z)),
{
    let ll = fmul(l, l);
    // x: (l x)(l z) = (l l)(x z) = ((l l) z) x
    lemma_regroup(l, p.x, l, p.z);
    lemma_fmul_commutes(p.x, p.z);
    lemma_fmul_associates(ll, p.z, p.x);
    // y: (l z)(l y) = (l l)(z y) = ((l l) z) y
    lemma_regroup(l, p.z, l, p.y);
    lemma_fmul_associates(ll, p.z, p.y);
    // z: (l z)(l z) = (l l)(z z) = ((l l) z) z
    lemma_regroup(l, p.z, l, p.z);
    lemma_fmul_associates(ll, p.z, p.z);
}

/// A product of units is a unit.
proof fn lemma_unit_product(a: nat, b: nat)
    requires
        is_unit(a),
        is_unit(b),
    ensures
        is_unit(fmul(a, b)),
{
    let wa = choose|w: nat| fmul(a, w) == 1;
    let wb = choose|w: nat| fmul(b, w) == 1;
    let p = modulus() as int;
    lemma_modulus_positive();
    let x = (a * b) as int;
    let y = (wa * wb) as int;
    let u = (a * wa) as int;
    let v = (b * wb) as int;
    assert(x * y == u * v) by (nonlinear_arith)
        requires
            x == a * b,
            y == wa * wb,
            u == a * wa,
            v == b * wb,
    ;
    lemma_mul_mod_noop_left(x, y, p);
    lemma_mul_mod_noop(u, v, p);
    lemma_small_mod(1, modulus());
    assert(u % p == 1 && v % p == 1);
    let (um, vm) = (u % p, v % p);
    assert(um * vm == 1) by (nonlinear_arith)
        requires
            um == 1,
            vm == 1,
    ;
    assert(((x % p) * y) % p == 1);
    assert(fmul(fmul(a, b), wa * wb) == 1);
}

/// A multiple of `p` stands for the same affine point as `p`.
proof fn lemma_scaled_same_point(p: ProjectiveValue, q: ProjectiveValue, l: nat)
    requires
        scaled(q, p, l),
    ensures
        same_point(q, p),
{
    // (l x) z = l (x z) = l (z x) = (l z) x = x (l z)
    lemma_fmul_associates(l, p.x, p.z);
    lemma_fmul_commutes(p.x, p.z);
    lemma_fmul_associates(l, p.z, p.x);
    lemma_fmul_commutes(fmul(l, p.z), p.x);
    lemma_fmul_associates(l, p.y, p.z);
    lemma_fmul_commutes(p.y, p.z);
    lemma_fmul_associates(l, p.z, p.y);
    lemma_fmul_commutes(fmul(l, p.z), p.y);
}

/// Bit `k` of a word: none is set in zero, the lowest alone in one.
proof fn lemma_bits_of_zero_and_one(shift: u64)
    requires
        shift < 64,
    ensures
        (0u64 >> shift) & 1 == 0,
        ((1u64 >> shift) & 1 == 1) <==> shift == 0,
{
    assert((0u64 >> shift) & 1 == 0) by (bit_vector)
        requires
            shift < 64,
    ;
    assert(((1u64 >> shift) & 1 == 1) <==> shift == 0) by (bit_vector)
        requires
            shift < 64,
    ;
}

/// A scalar that spells zero has zero words only.
pub proof fn lemma_scalar_zero(scalar: Seq<u64>)
    requires
        scalar_value(scalar) == 0,
    ensures
        forall|i: int| 0 <= i < scalar.len() ==> scalar[i] == 0,
    decreases scalar.len(),
{
    if scalar.len() > 0 {
        let head = scalar.drop_last();
        assert(scalar_value(head) == 0 && scalar.last() == 0) by (nonlinear_arith)
            requires
                scalar_value(head) * 0x1_0000_0000_0000_0000 + scalar.last() as nat == 0,
        ;
        lemma_scalar_zero(head);
        assert forall|i: int| 0 <= i < scalar.len() implies scalar[i] == 0 by {
            if i < scalar.len() - 1 {
                assert(scalar[i] == head[i]);
            }
        }
    }
}

/// A scalar that spells one ends in the word one after zero words only.
pub proof fn lemma_scalar_one(scalar: Seq<u64>)
    requires
        scalar_value(scalar) == 1,
    ensures
        scalar.len() > 0,
        scalar.last() == 1,
        forall|i: int| 0 <= i < scalar.len() - 1 ==> scalar[i] == 0,
{
    let head = scalar.drop_last();
    assert(scalar_value(head) == 0 && scalar.last() == 1) by (nonlinear_arith)
        requires
            scalar_value(head) * 0x1_0000_0000_0000_0000 + scalar.last() as nat == 1,
            scalar.last() < 0x1_0000_0000_0000_0000,
    ;
    lemma_scalar_zero(head);
    assert forall|i: int| 0 <= i < scalar.len() - 1 implies scalar[i] == 0 by {
        assert(scalar[i] == head[i]);
    }
}

/// While the scalar's bits are zero the ladder's lower point stays a
/// representative of the neutral element and its higher point a multiple of
/// the base, by the factor returned.
pub proof fn lemma_zero_prefix(scalar: Seq<u64>, base: ProjectiveValue, n: nat) -> (l: nat)
    requires
        reduced(base),
        forall|k: int| 0 <= k < n ==> !scalar_bit(scalar, k),
    ensures
        ladder(scalar, base, n).0 == neutral(1) || ladder(scalar, base, n).0 == neutral(
            (modulus() - 1) as nat,
        ),
        scaled(ladder(scalar, base, n).1, base, l),
        is_unit(base.z) ==> is_unit(l),
        base.z == 1 && base.t == fmul(base.x, base.y) ==> ladder(scalar, base, n).1 == base,
    decreases n,
{
    if n == 0 {
        lemma_fmul_one(base.x);
        lemma_fmul_one(base.y);
        lemma_fmul_one(base.z);
        assert(fmul(1, 1) == 1);
        1
    } else {
        let m = (n - 1) as nat;
        let l0 = lemma_zero_prefix(scalar, base, m);
        let (a, b) = ladder(scalar, base, m);
        assert(!scalar_bit(scalar, m as int));
        assert(ladder(scalar, base, n) == ladder_step((a, b), false));
        let c: nat = if a == neutral(1) { 1 } else { (modulus() - 1) as nat };
        lemma_double_neutral(c);
        lemma_add_neutral_right(b, c);
        lemma_scaled_step(base, b, l0);
        let l = fmul(fmul(l0, l0), base.z);
        if is_unit(base.z) {
            lemma_unit_product(l0, l0);
            lemma_unit_product(fmul(l0, l0), base.z);
        }
        if base.z == 1 && base.t == fmul(base.x, base.y) {
            lemma_fmul_one(base.x);
            lemma_fmul_one(base.y);
        }
        l
    }
}

/// The ladder maps the scalar zero, of whatever length, to the neutral
/// element.
pub proof fn lemma_multiple_by_zero(scalar: Seq<u64>, base: ProjectiveValue)
    requires
        reduced(base),
        scalar_value(scalar) == 0,
    ensures
        is_identity(ladder_value(scalar, base)),
{
    lemma_scalar_zero(scalar);
    let n = 64 * scalar.len();
    assert forall|k: int| 0 <= k < n implies !scalar_bit(scalar, k) by {
        lemma_bits_of_zero_and_one((63 - k % 64) as u64);
    }
    let l = lemma_zero_prefix(scalar, base, n);
    reveal(modulus);
}

/// The ladder maps the scalar one, of whatever length, to the base: to a
/// point with `x`, `y` and `z` the base's times a common factor, hence the
/// same affine point by cross-multiplication, with `t z = x y`, and with an
/// invertible `z` where the base's is. For a base with `z = 1` and `t = x y`
/// it is the base itself.
pub proof fn lemma_multiple_by_one(scalar: Seq<u64>, base: ProjectiveValue)
    requires
        reduced(base),
        scalar_value(scalar) == 1,
    ensures
        same_point(ladder_value(scalar, base), base),
        is_extended(ladder_value(scalar, base)),
        is_unit(base.z) ==> is_unit(ladder_value(scalar, base).z),
        base.z == 1 && base.t == fmul(base.x, base.y) ==> ladder_value(scalar, base) == base,
{
    lemma_scalar_one(scalar);
    let n = (64 * scalar.len() - 1) as nat;
    assert forall|k: int| 0 <= k < n implies !scalar_bit(scalar, k) by {
        lemma_bits_of_zero_and_one((63 - k % 64) as u64);
    }
    assert(scalar_bit(scalar, n as int)) by {
        assert((n as int) / 64 == scalar.len() - 1 && (n as int) % 64 == 63);
        lemma_bits_of_zero_and_one(0);
    }
    let l0 = lemma_zero_prefix(scalar, base, n);
    let (a, b) = ladder(scalar, base, n);
    assert(ladder(scalar, base, n + 1) == ladder_step((a, b), true));
    let c: nat = if a == neutral(1) { 1 } else { (modulus() - 1) as nat };
    lemma_double_neutral(c);
    lemma_add_neutral_left(c, b);
    let r = scaled_by_z(b);
    assert(ladder_value(scalar, base) == r);
    lemma_scaled_step(base, b, l0);
    let l = fmul(fmul(l0, l0), base.z);
    lemma_scaled_same_point(base, r, l);
    // t z = (x y)(z z) = (x z)(y z) = (x z)(z y) = x y
    lemma_regroup(b.x, b.y, b.z, b.z);
    lemma_fmul_commutes(b.y, b.z);
    if is_unit(base.z) {
        lemma_unit_product(l0, l0);
        lemma_unit_product(fmul(l0, l0), base.z);
        lemma_unit_product(l, base.z);
    }
    if base.z == 1 && base.t == fmul(base.x, base.y) {
        lemma_fmul_one(base.x);
        lemma_fmul_one(base.y);
    }
}

} // verus!
