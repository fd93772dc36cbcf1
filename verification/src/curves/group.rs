//! Points in extended coordinates `(x, y, t, z)` and the unified addition and
//! doubling of Hisil, Wong, Carter and Dawson on them, by the chains of field
//! operations with which `ark_ec::twisted_edwards::Projective` computes them.

use crate::curves::closure::{
    lemma_affine_on_curve, lemma_double_on_curve, lemma_identity_on_curve, lemma_sum_on_curve,
    lies_on_curve,
};
use crate::curves::on_curve;
use crate::field::{
    fadd, fdouble, fmul, fq_add, fq_double, fq_mul, fq_square, fq_sub, fsquare, fsub,
    lemma_view_reduced, modulus, Fq,
};
use crate::masked::{condition_mask, conditional_select_field, conditional_swap_field};
use crate::modular::{
    lemma_residue_add, lemma_residue_double, lemma_residue_mul, lemma_residue_self,
    lemma_residue_square, lemma_residue_sub, residue_of,
};
use vstd::prelude::*;

verus! {

/// The coefficient `a` of the curve equation.
pub open spec fn coeff_a() -> nat {
    168700
}

/// The coefficient `d` of the curve equation.
pub open spec fn coeff_d() -> nat {
    168696
}

/// The residue of an integer modulo the field order.
pub open spec fn reduce(e: int) -> nat {
    (e % (modulus() as int)) as nat
}

/// A point in extended coordinates, as integers in `0..p`. It stands for the
/// affine point `(x / z, y / z)`, and `t` for `x y / z`.
pub struct ProjectiveValue {
    pub x: nat,
    pub y: nat,
    pub t: nat,
    pub z: nat,
}

/// The neutral element `(0, 1)` with `z = 1`.
pub open spec fn identity_value() -> ProjectiveValue {
    ProjectiveValue { x: 0, y: 1, t: 0, z: 1 }
}

/// The affine point `(x, y)` in extended coordinates with `z = 1`.
pub open spec fn affine_value(x: nat, y: nat) -> ProjectiveValue {
    ProjectiveValue { x, y, t: fmul(x, y), z: 1 }
}

/// The point is the neutral element: `x = 0`, `t = 0` and `y = z`, not zero.
pub open spec fn is_identity(p: ProjectiveValue) -> bool {
    p.x == 0 && p.t == 0 && p.y == p.z && p.y != 0
}

/// The two points stand for the same affine point, by cross-multiplication:
/// `x1 z2 = x2 z1` and `y1 z2 = y2 z1`.
pub open spec fn same_point(p: ProjectiveValue, q: ProjectiveValue) -> bool {
    fmul(p.x, q.z) == fmul(q.x, p.z) && fmul(p.y, q.z) == fmul(q.y, p.z)
}

/// The unified addition in extended coordinates:
/// `x3 = (x1 y2 + y1 x2)(z1 z2 - d t1 t2)`,
/// `y3 = (z1 z2 + d t1 t2)(y1 y2 - a x1 x2)`,
/// `t3 = (x1 y2 + y1 x2)(y1 y2 - a x1 x2)`,
/// `z3 = (z1 z2 - d t1 t2)(z1 z2 + d t1 t2)`.
pub open spec fn add_value(p: ProjectiveValue, q: ProjectiveValue) -> ProjectiveValue {
    let (x1, y1, t1, z1) = (p.x as int, p.y as int, p.t as int, p.z as int);
    let (x2, y2, t2, z2) = (q.x as int, q.y as int, q.t as int, q.z as int);
    let e = x1 * y2 + y1 * x2;
    let f = z1 * z2 - coeff_d() * t1 * t2;
    let g = z1 * z2 + coeff_d() * t1 * t2;
    let h = y1 * y2 - coeff_a() * (x1 * x2);
    ProjectiveValue { x: reduce(e * f), y: reduce(g * h), t: reduce(e * h), z: reduce(f * g) }
}

/// The doubling in extended coordinates: with `e = 2 x y`, `g = a x^2 + y^2`,
/// `f = g - 2 z^2` and `h = a x^2 - y^2`, the point `(e f, g h, e h, f g)`.
pub open spec fn double_value(p: ProjectiveValue) -> ProjectiveValue {
    let (x, y, z) = (p.x as int, p.y as int, p.z as int);
    let e = 2 * (x * y);
    let g = coeff_a() * (x * x) + y * y;
    let f = g - 2 * (z * z);
    let h = coeff_a() * (x * x) - y * y;
    ProjectiveValue { x: reduce(e * f), y: reduce(g * h), t: reduce(e * h), z: reduce(f * g) }
}

/// The coefficient `a` of the curve as a field element.
pub fn coeff_a_element() -> (r: Fq)
    ensures
        r.wf(),
        r@ == coeff_a(),
{
    proof {
        reveal(modulus);
    }
    Fq {
        limbs: [
            0x95accf61fff261e0,
            0x24780d659df7d378,
            0xe0ac11b07e906ae8,
            0x0f35db2216d3def3,
        ],
    }
}

/// The coefficient `d` of the curve as a field element.
pub fn coeff_d_element() -> (r: Fq)
    ensures
        r.wf(),
        r@ == coeff_d(),
{
    proof {
        reveal(modulus);
    }
    Fq {
        limbs: [
            0x2735f484aff261f5,
            0x70ba1b579a2e0f63,
            0xff41c9a91e2caa8c,
            0x07704a8e8fe6025f,
        ],
    }
}

/// A point in affine coordinates.
#[derive(Clone, Copy, Debug, PartialEq, Eq)]
pub struct EdwardsAffine {
    pub x: Fq,
    pub y: Fq,
}

impl EdwardsAffine {
    /// Both coordinates are well-formed field elements.
    pub open spec fn wf(&self) -> bool {
        self.x.wf() && self.y.wf()
    }
}

/// A point in extended coordinates.
#[derive(Clone, Copy, Debug)]
pub struct EdwardsProjective {
    pub x: Fq,
    pub y: Fq,
    pub t: Fq,
    pub z: Fq,
}

impl View for EdwardsProjective {
    type V = ProjectiveValue;

    open spec fn view(&self) -> ProjectiveValue {
        ProjectiveValue { x: self.x@, y: self.y@, t: self.t@, z: self.z@ }
    }
}

impl EdwardsProjective {
    /// All four coordinates are well-formed field elements.
    pub open spec fn wf(&self) -> bool {
        self.x.wf() && self.y.wf() && self.t.wf() && self.z.wf()
    }

    /// The neutral element.
    pub fn zero() -> (r: Self)
        ensures
            r.wf(),
            r@ == identity_value(),
            lies_on_curve(r@),
    {
        proof {
            lemma_identity_on_curve();
        }
        EdwardsProjective { x: Fq::zero(), y: Fq::one(), t: Fq::zero(), z: Fq::one() }
    }

    /// The affine point in extended coordinates, with `z = 1`.
    pub fn from_affine(p: &EdwardsAffine) -> (r: Self)
        requires
            p.wf(),
        ensures
            r.wf(),
            r@ == affine_value(p.x@, p.y@),
            on_curve(p.x@, p.y@) ==> lies_on_curve(r@),
    {
        proof {
            if on_curve(p.x@, p.y@) {
                lemma_affine_on_curve(p.x@, p.y@);
            }
        }
        EdwardsProjective { x: p.x, y: p.y, t: fq_mul(&p.x, &p.y), z: Fq::one() }
    }

    /// Whether the point is the neutral element.
    pub fn is_zero(&self) -> (b: bool)
        requires
            self.wf(),
        ensures
            b == is_identity(self@),
    {
        let zero = Fq::zero();
        self.x.same_as(&zero) && self.y.same_as(&self.z) && !self.y.same_as(&zero)
            && self.t.same_as(&zero)
    }

    /// Whether the two points stand for the same affine point, by
    /// cross-multiplication.
    pub fn same_point_as(&self, other: &Self) -> (b: bool)
        requires
            self.wf(),
            other.wf(),
        ensures
            b == same_point(self@, other@),
    {
        let x1z2 = fq_mul(&self.x, &other.z);
        let x2z1 = fq_mul(&other.x, &self.z);
        let y1z2 = fq_mul(&self.y, &other.z);
        let y2z1 = fq_mul(&other.y, &self.z);
        x1z2.same_as(&x2z1) && y1z2.same_as(&y2z1)
    }

    /// The sum of two points, by the unified addition.
    pub fn add(&self, other: &Self) -> (r: Self)
        requires
            self.wf(),
            other.wf(),
        ensures
            r.wf(),
            r@ == add_value(self@, other@),
            lies_on_curve(self@) && lies_on_curve(other@) ==> lies_on_curve(r@),
    {
        let a = fq_mul(&self.x, &other.x);
        let b = fq_mul(&self.y, &other.y);
        let dt = fq_mul(&coeff_d_element(), &self.t);
        let c = fq_mul(&dt, &other.t);
        let d = fq_mul(&self.z, &other.z);
        let aa = fq_mul(&a, &coeff_a_element());
        let h = fq_sub(&b, &aa);
        let s1 = fq_add(&self.x, &self.y);
        let s2 = fq_add(&other.x, &other.y);
        let m = fq_mul(&s1, &s2);
        let ma = fq_sub(&m, &a);
        let e = fq_sub(&ma, &b);
        let f = fq_sub(&d, &c);
        let g = fq_add(&d, &c);
        proof {
            lemma_view_reduced(self.x);
            lemma_view_reduced(self.y);
            lemma_view_reduced(self.t);
            lemma_view_reduced(self.z);
            lemma_view_reduced(other.x);
            lemma_view_reduced(other.y);
            lemma_view_reduced(other.t);
            lemma_view_reduced(other.z);
            lemma_add_chain(self@, other@);
            if lies_on_curve(self@) && lies_on_curve(other@) {
                lemma_sum_on_curve(self@, other@);
            }
        }
        EdwardsProjective { x: fq_mul(&e, &f), y: fq_mul(&g, &h), t: fq_mul(&e, &h), z: fq_mul(&f, &g) }
    }

    /// Twice the point, by the dedicated doubling.
    pub fn double(&self) -> (r: Self)
        requires
            self.wf(),
        ensures
            r.wf(),
            r@ == double_value(self@),
            lies_on_curve(self@) ==> lies_on_curve(r@),
    {
        let a = fq_square(&self.x);
        let b = fq_square(&self.y);
        let zz = fq_square(&self.z);
        let c = fq_double(&zz);
        let d = fq_mul(&a, &coeff_a_element());
        let s = fq_add(&self.x, &self.y);
        let ss = fq_square(&s);
        let sa = fq_sub(&ss, &a);
        let e = fq_sub(&sa, &b);
        let g = fq_add(&d, &b);
        let f = fq_sub(&g, &c);
        let h = fq_sub(&d, &b);
        proof {
            lemma_view_reduced(self.x);
            lemma_view_reduced(self.y);
            lemma_view_reduced(self.z);
            lemma_double_chain(self@);
            if lies_on_curve(self@) {
                lemma_double_on_curve(self@);
            }
        }
        EdwardsProjective { x: fq_mul(&e, &f), y: fq_mul(&g, &h), t: fq_mul(&e, &h), z: fq_mul(&f, &g) }
    }
}

/// Exchanges two points if `c` holds and leaves both otherwise, with the same
/// operations either way.
pub fn conditional_swap(a: &mut EdwardsProjective, b: &mut EdwardsProjective, c: bool)
    ensures
        c ==> *final(a) == *old(b) && *final(b) == *old(a),
        !c ==> *final(a) == *old(a) && *final(b) == *old(b),
{
    let mask = condition_mask(c);
    conditional_swap_field(&mut a.x, &mut b.x, mask);
    conditional_swap_field(&mut a.y, &mut b.y, mask);
    conditional_swap_field(&mut a.z, &mut b.z, mask);
    conditional_swap_field(&mut a.t, &mut b.t, mask);
}

/// Sets `a` to `b` if `c` holds and leaves it otherwise, with the same
/// operations either way.
pub fn conditional_select(a: &mut EdwardsProjective, b: &EdwardsProjective, c: bool)
    ensures
        c ==> *final(a) == *b,
        !c ==> *final(a) == *old(a),
{
    let mask = condition_mask(c);
    conditional_select_field(&mut a.x, b.x, mask);
    conditional_select_field(&mut a.y, b.y, mask);
    conditional_select_field(&mut a.z, b.z, mask);
    conditional_select_field(&mut a.t, b.t, mask);
}

/// The chain of field operations of the addition computes `add_value`.
pub proof fn lemma_add_chain(p: ProjectiveValue, q: ProjectiveValue)
    requires
        p.x < modulus(),
        p.y < modulus(),
        p.t < modulus(),
        p.z < modulus(),
        q.x < modulus(),
        q.y < modulus(),
        q.t < modulus(),
        q.z < modulus(),
    ensures
        ({
            let a = fmul(p.x, q.x);
            let b = fmul(p.y, q.y);
            let c = fmul(fmul(coeff_d(), p.t), q.t);
            let d = fmul(p.z, q.z);
            let h = fsub(b, fmul(a, coeff_a()));
            let e = fsub(fsub(fmul(fadd(p.x, p.y), fadd(q.x, q.y)), a), b);
            let f = fsub(d, c);
            let g = fadd(d, c);
            add_value(p, q) == (ProjectiveValue {
                x: fmul(e, f),
                y: fmul(g, h),
                t: fmul(e, h),
                z: fmul(f, g),
            })
        }),
{
    let (x1, y1, t1, z1) = (p.x as int, p.y as int, p.t as int, p.z as int);
    let (x2, y2, t2, z2) = (q.x as int, q.y as int, q.t as int, q.z as int);
    let ca = coeff_a() as int;
    let cd = coeff_d() as int;
    let a = fmul(p.x, q.x);
    let b = fmul(p.y, q.y);
    let dt = fmul(coeff_d(), p.t);
    let c = fmul(dt, q.t);
    let d = fmul(p.z, q.z);
    let aa = fmul(a, coeff_a());
    let h = fsub(b, aa);
    let s1 = fadd(p.x, p.y);
    let s2 = fadd(q.x, q.y);
    let m = fmul(s1, s2);
    let e = fsub(fsub(m, a), b);
    let f = fsub(d, c);
    let g = fadd(d, c);
    lemma_coefficients_reduced();
    lemma_residue_self(p.x);
    lemma_residue_self(p.y);
    lemma_residue_self(p.t);
    lemma_residue_self(p.z);
    lemma_residue_self(q.x);
    lemma_residue_self(q.y);
    lemma_residue_self(q.t);
    lemma_residue_self(q.z);
    lemma_residue_self(coeff_a());
    lemma_residue_self(coeff_d());
    lemma_residue_mul(p.x, x1, q.x, x2);
    lemma_residue_mul(p.y, y1, q.y, y2);
    lemma_residue_mul(coeff_d(), cd, p.t, t1);
    lemma_residue_mul(dt, cd * t1, q.t, t2);
    lemma_residue_mul(p.z, z1, q.z, z2);
    lemma_residue_mul(a, x1 * x2, coeff_a(), ca);
    lemma_residue_sub(b, y1 * y2, aa, (x1 * x2) * ca);
    lemma_residue_add(p.x, x1, p.y, y1);
    lemma_residue_add(q.x, x2, q.y, y2);
    lemma_residue_mul(s1, x1 + y1, s2, x2 + y2);
    lemma_residue_sub(m, (x1 + y1) * (x2 + y2), a, x1 * x2);
    lemma_residue_sub(fsub(m, a), (x1 + y1) * (x2 + y2) - x1 * x2, b, y1 * y2);
    lemma_residue_sub(d, z1 * z2, c, cd * t1 * t2);
    lemma_residue_add(d, z1 * z2, c, cd * t1 * t2);
    let ee = x1 * y2 + y1 * x2;
    let ef = z1 * z2 - cd * t1 * t2;
    let eg = z1 * z2 + cd * t1 * t2;
    let eh = y1 * y2 - ca * (x1 * x2);
    assert((x1 + y1) * (x2 + y2) - x1 * x2 - y1 * y2 == ee) by (nonlinear_arith)
        requires
            ee == x1 * y2 + y1 * x2,
    ;
    assert((x1 * x2) * ca == ca * (x1 * x2)) by (nonlinear_arith);
    assert(residue_of(e, ee));
    assert(residue_of(h, eh));
    assert(residue_of(f, ef));
    assert(residue_of(g, eg));
    lemma_residue_mul(e, ee, f, ef);
    lemma_residue_mul(g, eg, h, eh);
    lemma_residue_mul(e, ee, h, eh);
    lemma_residue_mul(f, ef, g, eg);
}

/// The chain of field operations of the doubling computes `double_value`.
pub proof fn lemma_double_chain(p: ProjectiveValue)
    requires
        p.x < modulus(),
        p.y < modulus(),
        p.z < modulus(),
    ensures
        ({
            let a = fsquare(p.x);
            let b = fsquare(p.y);
            let c = fdouble(fsquare(p.z));
            let d = fmul(a, coeff_a());
            let e = fsub(fsub(fsquare(fadd(p.x, p.y)), a), b);
            let g = fadd(d, b);
            let f = fsub(g, c);
            let h = fsub(d, b);
            double_value(p) == (ProjectiveValue {
                x: fmul(e, f),
                y: fmul(g, h),
                t: fmul(e, h),
                z: fmul(f, g),
            })
        }),
{
    let (x, y, z) = (p.x as int, p.y as int, p.z as int);
    let ca = coeff_a() as int;
    let a = fsquare(p.x);
    let b = fsquare(p.y);
    let zz = fsquare(p.z);
    let c = fdouble(zz);
    let d = fmul(a, coeff_a());
    let s = fadd(p.x, p.y);
    let ss = fsquare(s);
    let e = fsub(fsub(ss, a), b);
    let g = fadd(d, b);
    let f = fsub(g, c);
    let h = fsub(d, b);
    lemma_coefficients_reduced();
    lemma_residue_self(p.x);
    lemma_residue_self(p.y);
    lemma_residue_self(p.z);
    lemma_residue_self(coeff_a());
    lemma_residue_square(p.x, x);
    lemma_residue_square(p.y, y);
    lemma_residue_square(p.z, z);
    lemma_residue_double(zz, z * z);
    lemma_residue_mul(a, x * x, coeff_a(), ca);
    lemma_residue_add(p.x, x, p.y, y);
    lemma_residue_square(s, x + y);
    lemma_residue_sub(ss, (x + y) * (x + y), a, x * x);
    lemma_residue_sub(fsub(ss, a), (x + y) * (x + y) - x * x, b, y * y);
    assert((x * x) * ca == ca * (x * x)) by (nonlinear_arith);
    lemma_residue_add(d, ca * (x * x), b, y * y);
    lemma_residue_sub(g, ca * (x * x) + y * y, c, 2 * (z * z));
    lemma_residue_sub(d, ca * (x * x), b, y * y);
    let ee = 2 * (x * y);
    let eg = ca * (x * x) + y * y;
    let ef = eg - 2 * (z * z);
    let eh = ca * (x * x) - y * y;
    assert((x + y) * (x + y) - x * x - y * y == ee) by (nonlinear_arith)
        requires
            ee == 2 * (x * y),
    ;
    assert(residue_of(e, ee));
    assert(residue_of(g, eg));
    assert(residue_of(f, ef));
    assert(residue_of(h, eh));
    lemma_residue_mul(e, ee, f, ef);
    lemma_residue_mul(g, eg, h, eh);
    lemma_residue_mul(e, ee, h, eh);
    lemma_residue_mul(f, ef, g, eg);
}

/// The curve's coefficients are reduced.
pub proof fn lemma_coefficients_reduced()
    ensures
        coeff_a() < modulus(),
        coeff_d() < modulus(),
{
    reveal(modulus);
}

} // verus!
