//! Elements of the prime field of order
//! 21888242871839275222246405745257275088548364400416034343698204186575808495617,
//! held as four little-endian 64-bit limbs in Montgomery form.
//!
//! The arithmetic itself is `ark_ff`'s: each operation at the end of this
//! file hands the limbs to `ark_bn254::Fr` as they are, by
//! `Fp::new_unchecked`, and takes the limbs of the result back. What those
//! calls return is stated, not proved, in terms of the integer that an
//! element stands for.

use ark_bn254::Fr;
use ark_ff::{AdditiveGroup, BigInt, Field};
use vstd::arithmetic::power::pow;
use vstd::prelude::*;

verus! {

/// The order of the field.
#[verifier::opaque]
pub open spec fn modulus() -> nat {
    21888242871839275222246405745257275088548364400416034343698204186575808495617nat
}

/// The field order is greater than one.
pub proof fn lemma_modulus_positive()
    ensures
        modulus() > 1,
{
    reveal(modulus);
}

/// The inverse of the Montgomery radix 2^256 modulo the field order.
pub open spec fn radix_inverse() -> nat {
    9915499612839321149637521777990102151350674507940716049588462388200839649614nat
}

/// The integer that four little-endian 64-bit limbs spell.
pub open spec fn limbs_value(l: Seq<u64>) -> nat {
    (l[0] as nat) + (l[1] as nat) * 0x1_0000_0000_0000_0000nat + (l[2] as nat)
        * 0x1_0000_0000_0000_0000_0000_0000_0000_0000nat + (l[3] as nat)
        * 0x1_0000_0000_0000_0000_0000_0000_0000_0000_0000_0000_0000_0000nat
}

/// Sum of two reduced values in the field.
pub open spec fn fadd(a: nat, b: nat) -> nat {
    (a + b) % modulus()
}

/// Difference of two reduced values in the field.
pub open spec fn fsub(a: nat, b: nat) -> nat {
    ((a - b) % (modulus() as int)) as nat
}

/// Product of two reduced values in the field.
pub open spec fn fmul(a: nat, b: nat) -> nat {
    (a * b) % modulus()
}

/// Twice a reduced value in the field.
pub open spec fn fdouble(a: nat) -> nat {
    (a + a) % modulus()
}

/// Square of a reduced value in the field.
pub open spec fn fsquare(a: nat) -> nat {
    (a * a) % modulus()
}

/// A reduced value raised to the power `e` in the field.
pub open spec fn fpow(a: nat, e: nat) -> nat {
    (pow(a as int, e) % (modulus() as int)) as nat
}

/// A field element. `limbs` is the Montgomery representative `a * 2^256 mod p`
/// of the element `a`, least significant limb first.
#[derive(Clone, Copy, Debug, PartialEq, Eq)]
pub struct Fq {
    pub limbs: [u64; 4],
}

impl View for Fq {
    type V = nat;

    /// The element as an integer in `0..p`.
    open spec fn view(&self) -> nat {
        (limbs_value(self.limbs@) * radix_inverse()) % modulus()
    }
}

impl Fq {
    /// The limbs are a reduced Montgomery representative.
    pub open spec fn wf(&self) -> bool {
        limbs_value(self.limbs@) < modulus()
    }

    /// Whether the limbs are a reduced Montgomery representative: whether
    /// they spell an integer below the field order.
    pub fn is_reduced(&self) -> (b: bool)
        ensures
            b == self.wf(),
    {
        let l = &self.limbs;
        proof {
            reveal(modulus);
        }
        l[3] < 0x30644e72e131a029 || (l[3] == 0x30644e72e131a029 && (l[2] < 0xb85045b68181585d
            || (l[2] == 0xb85045b68181585d && (l[1] < 0x2833e84879b97091 || (l[1]
            == 0x2833e84879b97091 && l[0] < 0x43e1f593f0000001)))))
    }

    /// Whether two well-formed elements are the same element of the field.
    pub fn same_as(&self, other: &Fq) -> (b: bool)
        requires
            self.wf(),
            other.wf(),
        ensures
            b == (self@ == other@),
    {
        let b = self.limbs[0] == other.limbs[0] && self.limbs[1] == other.limbs[1]
            && self.limbs[2] == other.limbs[2] && self.limbs[3] == other.limbs[3];
        proof {
            if self@ == other@ {
                lemma_view_injective(*self, *other);
            }
            if b {
                assert(self.limbs@ =~= other.limbs@);
            }
        }
        b
    }

    /// The element two.
    pub fn two() -> (r: Fq)
        ensures
            r.wf(),
            r@ == 2,
    {
        proof {
            reveal(modulus);
        }
        Fq {
            limbs: [
                0x592c68389ffffff6,
                0x6df8ed2b3ec19a53,
                0xccdd46def0f28c5c,
                0x1c14ef83340fbe5e,
            ],
        }
    }

    /// The additive identity.
    pub fn zero() -> (r: Fq)
        ensures
            r.wf(),
            r@ == 0,
    {
        proof {
            reveal(modulus);
        }
        Fq { limbs: [0, 0, 0, 0] }
    }

    /// The multiplicative identity.
    pub fn one() -> (r: Fq)
        ensures
            r.wf(),
            r@ == 1,
    {
        proof {
            reveal(modulus);
        }
        Fq {
            limbs: [
                0xac96341c4ffffffb,
                0x36fc76959f60cd29,
                0x666ea36f7879462e,
                0x0e0a77c19a07df2f,
            ],
        }
    }
}

/// The element with the Montgomery limbs given, least significant first.
pub fn element(l0: u64, l1: u64, l2: u64, l3: u64) -> (r: Fq)
    ensures
        r.limbs@ == seq![l0, l1, l2, l3],
{
    let r = Fq { limbs: [l0, l1, l2, l3] };
    assert(r.limbs@ =~= seq![l0, l1, l2, l3]);
    r
}

/// The integers that a sequence of elements stands for.
pub open spec fn values(s: Seq<Fq>) -> Seq<nat> {
    Seq::new(s.len(), |i: int| s[i]@)
}

/// Every element of the sequence is well formed.
pub open spec fn all_wf(s: Seq<Fq>) -> bool {
    forall|i: int| 0 <= i < s.len() ==> (#[trigger] s[i]).wf()
}

/// The Montgomery radix 2^256.
pub open spec fn radix() -> nat {
    0x1_0000_0000_0000_0000_0000_0000_0000_0000_0000_0000_0000_0000_0000_0000_0000_0000nat
}

/// `radix_inverse` is the inverse of the radix modulo the field order.
pub proof fn lemma_radix_inverse()
    ensures
        (radix_inverse() * radix()) % modulus() == 1,
{
    reveal(modulus);
}

/// Two well-formed elements that stand for the same integer have the same
/// limbs: the reduced Montgomery representative is unique.
pub proof fn lemma_view_injective(a: Fq, b: Fq)
    requires
        a.wf(),
        b.wf(),
        a@ == b@,
    ensures
        a == b,
{
    let x = limbs_value(a.limbs@) as int;
    let y = limbs_value(b.limbs@) as int;
    lemma_radix_inverse();
    lemma_unscale(x, radix_inverse() as int, radix() as int, modulus() as int);
    lemma_unscale(y, radix_inverse() as int, radix() as int, modulus() as int);
    assert(x == y);
    lemma_limbs_value_injective(a.limbs@, b.limbs@);
    assert(a.limbs =~= b.limbs);
}

/// Two arrays of well-formed elements that stand for the same integers are
/// the same array.
pub proof fn lemma_values_injective<const N: usize>(a: [Fq; N], b: [Fq; N])
    requires
        all_wf(a@),
        all_wf(b@),
        values(a@) == values(b@),
    ensures
        a == b,
{
    assert forall|i: int| 0 <= i < N implies a[i] == b[i] by {
        assert(values(a@)[i] == a@[i]@);
        assert(values(b@)[i] == b@[i]@);
        assert(a@[i].wf() && b@[i].wf());
        lemma_view_injective(a@[i], b@[i]);
    }
    assert(a =~= b);
}

/// Four limbs are determined by the integer they spell.
proof fn lemma_limbs_value_injective(a: Seq<u64>, b: Seq<u64>)
    requires
        a.len() == 4,
        b.len() == 4,
        limbs_value(a) == limbs_value(b),
    ensures
        a =~= b,
{
}

/// The integer that an element stands for is reduced.
pub proof fn lemma_view_reduced(a: Fq)
    ensures
        a@ < modulus(),
{
    lemma_modulus_positive();
    vstd::arithmetic::div_mod::lemma_mod_bound(
        (limbs_value(a.limbs@) * radix_inverse()) as int,
        modulus() as int,
    );
}

/// With `ri * r` congruent to 1, multiplying `x * ri mod p` by `r` gives back
/// a reduced `x`.
proof fn lemma_unscale(x: int, ri: int, r: int, p: int)
    requires
        0 <= x < p,
        (ri * r) % p == 1,
    ensures
        (((x * ri) % p) * r) % p == x,
{
    vstd::arithmetic::div_mod::lemma_mul_mod_noop_left(x * ri, r, p);
    vstd::arithmetic::mul::lemma_mul_is_associative(x, ri, r);
    vstd::arithmetic::div_mod::lemma_mul_mod_noop_right(x, ri * r, p);
    vstd::arithmetic::div_mod::lemma_small_mod(x as nat, p as nat);
}

/// `ark_ff`'s `Add` on `Fp`: the sum of the two elements in the field,
/// reduced.
#[verifier::external_body]
pub(crate) fn fq_add(a: &Fq, b: &Fq) -> (r: Fq)
    requires
        a.wf(),
        b.wf(),
    ensures
        r.wf(),
        r@ == fadd(a@, b@),
{
    let x = Fr::new_unchecked(BigInt(a.limbs));
    let y = Fr::new_unchecked(BigInt(b.limbs));
    Fq { limbs: (x + y).0.0 }
}

/// `ark_ff`'s `Sub` on `Fp`: the difference of the two elements in the field,
/// reduced.
#[verifier::external_body]
pub(crate) fn fq_sub(a: &Fq, b: &Fq) -> (r: Fq)
    requires
        a.wf(),
        b.wf(),
    ensures
        r.wf(),
        r@ == fsub(a@, b@),
{
    let x = Fr::new_unchecked(BigInt(a.limbs));
    let y = Fr::new_unchecked(BigInt(b.limbs));
    Fq { limbs: (x - y).0.0 }
}

/// `ark_ff`'s `Mul` on `Fp`: the product of the two elements in the field,
/// reduced.
#[verifier::external_body]
pub(crate) fn fq_mul(a: &Fq, b: &Fq) -> (r: Fq)
    requires
        a.wf(),
        b.wf(),
    ensures
        r.wf(),
        r@ == fmul(a@, b@),
{
    let x = Fr::new_unchecked(BigInt(a.limbs));
    let y = Fr::new_unchecked(BigInt(b.limbs));
    Fq { limbs: (x * y).0.0 }
}

/// `ark_ff`'s `Field::square`: the element times itself in the field,
/// reduced.
#[verifier::external_body]
pub(crate) fn fq_square(a: &Fq) -> (r: Fq)
    requires
        a.wf(),
    ensures
        r.wf(),
        r@ == fsquare(a@),
{
    let x = Fr::new_unchecked(BigInt(a.limbs));
    Fq { limbs: x.square().0.0 }
}

/// `ark_ff`'s `AdditiveGroup::double`: the element plus itself in the field,
/// reduced.
#[verifier::external_body]
pub(crate) fn fq_double(a: &Fq) -> (r: Fq)
    requires
        a.wf(),
    ensures
        r.wf(),
        r@ == fdouble(a@),
{
    let x = Fr::new_unchecked(BigInt(a.limbs));
    Fq { limbs: x.double().0.0 }
}

/// `ark_ff`'s `Field::pow` with a one-limb exponent: the element raised to
/// the power `e` in the field, reduced; the zeroth power is one.
#[verifier::external_body]
pub(crate) fn fq_pow(a: &Fq, e: u64) -> (r: Fq)
    requires
        a.wf(),
    ensures
        r.wf(),
        r@ == fpow(a@, e as nat),
{
    let x = Fr::new_unchecked(BigInt(a.limbs));
    Fq { limbs: x.pow([e]).0.0 }
}

} // verus!
