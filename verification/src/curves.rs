//! The Baby-JubJub curve `168700 x^2 + y^2 = 1 + 168696 x^2 y^2` over the
//! field of `crate::field`, in extended twisted Edwards coordinates, with a
//! scalar multiplication whose sequence of operations does not depend on the
//! scalar's bits.

pub mod closure;
pub mod group;
pub mod ladder;
pub mod laws;
pub mod multiples;

use crate::curves::closure::{lemma_multiple_on_curve, lies_on_curve};
use crate::curves::group::{
    coeff_a, coeff_d, conditional_select, conditional_swap, EdwardsAffine, EdwardsProjective,
};
use crate::curves::ladder::{ladder, ladder_step, ladder_value, scalar_bit};
use crate::field::{element, limbs_value, modulus, Fq};
use vstd::prelude::*;

verus! {

/// How many operations of each kind a run of the ladder made.
#[derive(Clone, Copy, Debug, PartialEq, Eq)]
pub struct LadderCounts {
    /// Conditional swaps of the two accumulators.
    pub swaps: u128,
    /// Conditional selects of the result.
    pub selects: u128,
    /// Point additions.
    pub additions: u128,
    /// Point doublings.
    pub doublings: u128,
}

/// The counts of a run over a scalar of `words` words: one swap, one
/// addition and one doubling for each of the `64 * words` bits, and one
/// select.
pub open spec fn ladder_counts(words: nat) -> LadderCounts {
    LadderCounts {
        swaps: (64 * words) as u128,
        selects: 1,
        additions: (64 * words) as u128,
        doublings: (64 * words) as u128,
    }
}

/// The order of the curve's prime-order subgroup, the order of its scalar
/// field.
pub open spec fn subgroup_order() -> nat {
    2736030358979909402780800718157159386076813972158567259200215660948447373041nat
}

/// The x coordinate of the subgroup's generator.
pub open spec fn generator_x() -> nat {
    5299619240641551281634865583518297030282874472190772894086521144482721001553nat
}

/// The y coordinate of the subgroup's generator.
pub open spec fn generator_y() -> nat {
    16950150798460657717958625567821834550301663161624707787222815936182638968203nat
}

/// The affine point `(x, y)` lies on the curve `a x^2 + y^2 = 1 + d x^2 y^2`.
pub open spec fn on_curve(x: nat, y: nat) -> bool {
    (coeff_a() * (x * x) + y * y) % modulus() == (1 + coeff_d() * ((x * x) * (y * y))) % modulus()
}

/// The Baby-JubJub curve.
#[derive(Clone, Copy, Debug, Default, PartialEq, Eq)]
pub struct EdwardsConfig;

impl EdwardsConfig {
    /// The cofactor: the curve has eight times as many points as its
    /// prime-order subgroup.
    pub fn cofactor() -> (r: u64)
        ensures
            r == 8,
    {
        8
    }

    /// The inverse of the cofactor modulo the subgroup's order, as four
    /// little-endian limbs.
    pub fn cofactor_inv() -> (r: [u64; 4])
        ensures
            limbs_value(r@)
                == 2394026564107420727433200628387514462817212225638746351800188703329891451411nat,
            (8 * limbs_value(r@)) % subgroup_order() == 1,
    {
        [0x1a8444e0b1fd0213, 0x35d7100131fcd049, 0x9028c79ff62a25aa, 0x054af89490a16d84]
    }

    /// The generator of the prime-order subgroup, a point of the curve.
    pub fn generator() -> (r: EdwardsAffine)
        ensures
            r.wf(),
            r.x@ == generator_x(),
            r.y@ == generator_y(),
            on_curve(r.x@, r.y@),
    {
        let x = element(0x0a8fc7bc1a89fa86, 0xa7d9d786e9e48627, 0xee6158b465bea369, 0x14a0ff6d2f874519);
        let y = element(0xb83342d20d0201aa, 0x2ffef2f7cdcfeac7, 0xbfa79a9425a6e625, 0x0dfb859dc3a44b70);
        assert(x.wf() && x@ == generator_x()) by (nonlinear_arith)
            requires
                x.limbs@ == seq![0x0a8fc7bc1a89fa86u64, 0xa7d9d786e9e48627u64, 0xee6158b465bea369u64, 0x14a0ff6d2f874519u64],
        {
            reveal(modulus);
        }
        assert(y.wf() && y@ == generator_y()) by (nonlinear_arith)
            requires
                y.limbs@ == seq![0xb83342d20d0201aau64, 0x2ffef2f7cdcfeac7u64, 0xbfa79a9425a6e625u64, 0x0dfb859dc3a44b70u64],
        {
            reveal(modulus);
        }
        assert(on_curve(generator_x(), generator_y())) by (nonlinear_arith) {
            reveal(modulus);
        }
        EdwardsAffine { x, y }
    }

    /// The coefficient `A = 2 (a + d) / (a - d)` of the Montgomery form
    /// `B v^2 = u^3 + A u^2 + u` of the curve.
    pub fn montgomery_coeff_a() -> (r: Fq)
        ensures
            r.wf(),
            r@ == 168698,
            r@ * (coeff_a() - coeff_d()) == 2 * (coeff_a() + coeff_d()),
    {
        let r = element(0x80625cbd4ff261eb, 0xdeb30882d8efa9b6, 0xcc1f10880f1f36e8, 0x23853a11c3f5c0be);
        assert(r.wf() && r@ == 168698) by (nonlinear_arith)
            requires
                r.limbs@ == seq![0x80625cbd4ff261ebu64, 0xdeb30882d8efa9b6u64, 0xcc1f10880f1f36e8u64, 0x23853a11c3f5c0beu64],
        {
            reveal(modulus);
        }
        r
    }

    /// The coefficient `B = 4 / (a - d)` of the Montgomery form of the curve.
    pub fn montgomery_coeff_b() -> (r: Fq)
        ensures
            r.wf(),
            r@ == 1,
            r@ * (coeff_a() - coeff_d()) == 4,
    {
        Fq::one()
    }

    /// The scalar multiple of a point by the Montgomery ladder, together with
    /// the number of operations made, which the scalar's length alone
    /// decides. The scalar's words come most significant first.
    pub fn mul_projective_counted(base: &EdwardsProjective, scalar: &[u64]) -> (r: (
        EdwardsProjective,
        LadderCounts,
    ))
        requires
            base.wf(),
        ensures
            r.0.wf(),
            r.0@ == ladder_value(scalar@, base@),
            lies_on_curve(base@) ==> lies_on_curve(r.0@),
            r.1 == ladder_counts(scalar@.len()),
    {
        proof {
            if lies_on_curve(base@) {
                lemma_multiple_on_curve(scalar@, base@);
            }
        }
        let mut r0 = EdwardsProjective::zero();
        let mut r1 = *base;
        let mut prev_bit = false;
        let mut steps: u128 = 0;
        let mut w: usize = 0;
        while w < scalar.len()
            invariant
                w <= scalar.len(),
                steps == 64 * w,
                r0.wf(),
                r1.wf(),
                prev_bit ==> r0@ == ladder(scalar@, base@, (64 * w) as nat).1 && r1@ == ladder(
                    scalar@,
                    base@,
                    (64 * w) as nat,
                ).0,
                !prev_bit ==> r0@ == ladder(scalar@, base@, (64 * w) as nat).0 && r1@ == ladder(
                    scalar@,
                    base@,
                    (64 * w) as nat,
                ).1,
            decreases scalar.len() - w,
        {
            let word = scalar[w];
            let mut k: u64 = 0;
            while k < 64
                invariant
                    w < scalar.len(),
                    word == scalar@[w as int],
                    k <= 64,
                    steps == 64 * w + k,
                    r0.wf(),
                    r1.wf(),
                    prev_bit ==> r0@ == ladder(scalar@, base@, (64 * w + k) as nat).1 && r1@
                        == ladder(scalar@, base@, (64 * w + k) as nat).0,
                    !prev_bit ==> r0@ == ladder(scalar@, base@, (64 * w + k) as nat).0 && r1@
                        == ladder(scalar@, base@, (64 * w + k) as nat).1,
                decreases 64 - k,
            {
                let ghost n = (64 * w + k) as nat;
                let ghost acc = ladder(scalar@, base@, n);
                let b = (word >> (63 - k)) & 1 == 1;
                let swap = prev_bit ^ b;
                prev_bit = b;
                conditional_swap(&mut r0, &mut r1, swap);
                r1 = r1.add(&r0);
                r0 = r0.double();
                steps += 1;
                proof {
                    assert((n as int) / 64 == w && (n as int) % 64 == k);
                    assert(b == scalar_bit(scalar@, n as int));
                    assert(ladder(scalar@, base@, n + 1) == ladder_step(acc, b));
                }
                k += 1;
            }
            w += 1;
        }
        conditional_select(&mut r0, &r1, prev_bit);
        (r0, LadderCounts { swaps: steps, selects: 1, additions: steps, doublings: steps })
    }

    /// The scalar multiple of a point in extended coordinates, by a ladder
    /// that makes one swap, one addition and one doubling for every bit of
    /// the scalar, whatever the bit. The scalar's words come most significant
    /// first.
    pub fn mul_projective(base: &EdwardsProjective, scalar: &[u64]) -> (r: EdwardsProjective)
        requires
            base.wf(),
        ensures
            r.wf(),
            r@ == ladder_value(scalar@, base@),
            lies_on_curve(base@) ==> lies_on_curve(r@),
    {
        Self::mul_projective_counted(base, scalar).0
    }

    /// The scalar multiple of a point in affine coordinates: the point is
    /// taken to extended coordinates and handed to `mul_projective`.
    pub fn mul_affine(base: &EdwardsAffine, scalar: &[u64]) -> (r: EdwardsProjective)
        requires
            base.wf(),
        ensures
            r.wf(),
            r@ == ladder_value(scalar@, crate::curves::group::affine_value(base.x@, base.y@)),
            on_curve(base.x@, base.y@) ==> lies_on_curve(r@),
    {
        let base = EdwardsProjective::from_affine(base);
        Self::mul_projective(&base, scalar)
    }
}

} // verus!
