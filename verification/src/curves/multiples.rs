//! The ladder and the multiples of a point, for every set of points on which
//! addition and doubling obey the laws of a commutative group.
//!
//! That the points of the curve are closed under addition and doubling is
//! proved here. That addition on them is associative, commutative and
//! respects sameness is the theory of the curve; it is a hypothesis here,
//! not a result.

use crate::curves::closure::{
    lemma_double_on_curve, lemma_identity_on_curve, lemma_sum_on_curve, lies_on_curve,
};
use crate::curves::group::{add_value, double_value, identity_value, ProjectiveValue};
use crate::curves::ladder::{ladder, ladder_step, ladder_value, scalar_bit, scalar_value};
use crate::curves::laws::{lemma_add_neutral_left, lemma_double_neutral, neutral, scaled_by_z};
use crate::field::{lemma_modulus_positive, modulus};
use vstd::arithmetic::power2::{lemma2_to64, lemma2_to64_rest, lemma_pow2_unfold, pow2};
use vstd::prelude::*;

verus! {

/// A set of points with a notion of two points being the same group
/// element.
pub struct GroupLaw {
    /// The points of the set.
    pub member: spec_fn(ProjectiveValue) -> bool,
    /// Two points are the same element.
    pub same: spec_fn(ProjectiveValue, ProjectiveValue) -> bool,
}

/// The set holds the neutral element and is closed under addition and
/// doubling.
pub open spec fn is_closed(g: GroupLaw) -> bool {
    &&& (g.member)(identity_value())
    &&& forall|p: ProjectiveValue, q: ProjectiveValue|
        (g.member)(p) && (g.member)(q) ==> (g.member)(#[trigger] add_value(p, q))
    &&& forall|p: ProjectiveValue| (g.member)(p) ==> (g.member)(#[trigger] double_value(p))
}

/// Sameness is an equivalence on the set.
pub open spec fn is_equivalence(g: GroupLaw) -> bool {
    &&& forall|p: ProjectiveValue| (g.member)(p) ==> #[trigger] (g.same)(p, p)
    &&& forall|p: ProjectiveValue, q: ProjectiveValue|
        (g.member)(p) && (g.member)(q) && #[trigger] (g.same)(p, q) ==> (g.same)(q, p)
    &&& forall|p: ProjectiveValue, q: ProjectiveValue, r: ProjectiveValue|
        (g.member)(p) && (g.member)(q) && (g.member)(r) && #[trigger] (g.same)(p, q)
            && #[trigger] (g.same)(q, r) ==> (g.same)(p, r)
}

/// Addition respects sameness, is associative and commutative, has the
/// neutral element as its unit, and doubling is adding a point to itself.
pub open spec fn obeys_group_axioms(g: GroupLaw) -> bool {
    &&& forall|p: ProjectiveValue, p2: ProjectiveValue, q: ProjectiveValue, q2: ProjectiveValue|
        (g.member)(p) && (g.member)(p2) && (g.member)(q) && (g.member)(q2) && (g.same)(p, p2)
            && (g.same)(q, q2) ==> #[trigger] (g.same)(add_value(p, q), add_value(p2, q2))
    &&& forall|p: ProjectiveValue, q: ProjectiveValue, r: ProjectiveValue|
        (g.member)(p) && (g.member)(q) && (g.member)(r) ==> #[trigger] (g.same)(
            add_value(add_value(p, q), r),
            add_value(p, add_value(q, r)),
        )
    &&& forall|p: ProjectiveValue, q: ProjectiveValue|
        (g.member)(p) && (g.member)(q) ==> #[trigger] (g.same)(add_value(p, q), add_value(q, p))
    &&& forall|p: ProjectiveValue|
        (g.member)(p) ==> #[trigger] (g.same)(add_value(p, identity_value()), p)
    &&& forall|p: ProjectiveValue|
        (g.member)(p) ==> #[trigger] (g.same)(double_value(p), add_value(p, p))
}

/// Addition and doubling make the set a commutative group.
pub open spec fn is_group_law(g: GroupLaw) -> bool {
    is_closed(g) && is_equivalence(g) && obeys_group_axioms(g)
}

/// The `n`-fold sum of a point with itself.
pub open spec fn multiple(n: nat, p: ProjectiveValue) -> ProjectiveValue
    decreases n,
{
    if n == 0 {
        identity_value()
    } else {
        add_value(multiple((n - 1) as nat, p), p)
    }
}

/// The integer that the first `n` bits of a scalar spell.
pub open spec fn prefix_value(scalar: Seq<u64>, n: nat) -> nat
    decreases n,
{
    if n == 0 {
        0
    } else {
        2 * prefix_value(scalar, (n - 1) as nat) + if scalar_bit(scalar, n - 1) {
            1nat
        } else {
            0nat
        }
    }
}

/// The variable-time double-and-add on the first `n` bits of a scalar: the
/// accumulator is doubled for every bit, and the base added for the bits
/// that are set.
pub open spec fn double_and_add(scalar: Seq<u64>, base: ProjectiveValue, n: nat) -> ProjectiveValue
    decreases n,
{
    if n == 0 {
        identity_value()
    } else {
        let doubled = double_value(double_and_add(scalar, base, (n - 1) as nat));
        if scalar_bit(scalar, n - 1) {
            add_value(doubled, base)
        } else {
            doubled
        }
    }
}

/// Sameness passes along a chain of two.
proof fn lemma_chain(g: GroupLaw, p: ProjectiveValue, q: ProjectiveValue, r: ProjectiveValue)
    requires
        is_group_law(g),
        (g.member)(p),
        (g.member)(q),
        (g.member)(r),
        (g.same)(p, q),
        (g.same)(q, r),
    ensures
        (g.same)(p, r),
{
}

/// Sameness passes to sums.
proof fn lemma_sum_of_same(
    g: GroupLaw,
    p: ProjectiveValue,
    p2: ProjectiveValue,
    q: ProjectiveValue,
    q2: ProjectiveValue,
)
    requires
        is_group_law(g),
        (g.member)(p),
        (g.member)(p2),
        (g.member)(q),
        (g.member)(q2),
        (g.same)(p, p2),
        (g.same)(q, q2),
    ensures
        (g.same)(add_value(p, q), add_value(p2, q2)),
        (g.member)(add_value(p, q)),
        (g.member)(add_value(p2, q2)),
{
}

/// The multiples of a member are members.
pub proof fn lemma_multiple_is_member(g: GroupLaw, n: nat, p: ProjectiveValue)
    requires
        is_group_law(g),
        (g.member)(p),
    ensures
        (g.member)(multiple(n, p)),
    decreases n,
{
    if n > 0 {
        lemma_multiple_is_member(g, (n - 1) as nat, p);
    }
}

/// Multiples add up: the sum of the `a`-fold and the `b`-fold multiple is
/// the `(a + b)`-fold.
pub proof fn lemma_multiples_add(g: GroupLaw, a: nat, b: nat, p: ProjectiveValue)
    requires
        is_group_law(g),
        (g.member)(p),
    ensures
        (g.same)(add_value(multiple(a, p), multiple(b, p)), multiple(a + b, p)),
    decreases b,
{
    let ma = multiple(a, p);
    lemma_multiple_is_member(g, a, p);
    if b == 0 {
        assert((g.same)(add_value(ma, identity_value()), ma));
    } else {
        let c = (b - 1) as nat;
        let mc = multiple(c, p);
        lemma_multiple_is_member(g, c, p);
        lemma_multiple_is_member(g, a + c, p);
        lemma_multiples_add(g, a, c, p);
        // ma + (mc + p) = (ma + mc) + p = m(a + c) + p
        let left = add_value(ma, add_value(mc, p));
        let middle = add_value(add_value(ma, mc), p);
        assert((g.member)(add_value(mc, p)));
        assert((g.member)(add_value(ma, mc)));
        assert((g.same)(middle, left));
        assert((g.member)(left) && (g.member)(middle));
        assert((g.same)(left, middle));
        assert((g.same)(p, p));
        lemma_sum_of_same(g, add_value(ma, mc), multiple(a + c, p), p, p);
        assert(multiple(a + b, p) == add_value(multiple(a + c, p), p));
        lemma_chain(g, left, middle, multiple(a + b, p));
    }
}

/// After `n` bits the ladder holds the multiple by the bits' value and the
/// next multiple.
pub proof fn lemma_ladder_holds_multiples(
    g: GroupLaw,
    scalar: Seq<u64>,
    base: ProjectiveValue,
    n: nat,
)
    requires
        is_group_law(g),
        (g.member)(base),
    ensures
        (g.member)(ladder(scalar, base, n).0),
        (g.member)(ladder(scalar, base, n).1),
        (g.same)(ladder(scalar, base, n).0, multiple(prefix_value(scalar, n), base)),
        (g.same)(ladder(scalar, base, n).1, multiple(prefix_value(scalar, n) + 1, base)),
    decreases n,
{
    if n == 0 {
        // base = identity + base, up to sameness
        let one = add_value(identity_value(), base);
        assert(multiple(1, base) == add_value(multiple(0, base), base));
        assert((g.same)(add_value(base, identity_value()), base));
        assert((g.same)(add_value(base, identity_value()), one));
        assert((g.member)(add_value(base, identity_value())) && (g.member)(one));
        assert((g.same)(base, add_value(base, identity_value())));
        lemma_chain(g, base, add_value(base, identity_value()), one);
    } else {
        let m = (n - 1) as nat;
        lemma_ladder_holds_multiples(g, scalar, base, m);
        let (a, b) = ladder(scalar, base, m);
        let k = prefix_value(scalar, m);
        let (ka, kb) = (multiple(k, base), multiple(k + 1, base));
        lemma_multiple_is_member(g, k, base);
        lemma_multiple_is_member(g, k + 1, base);
        lemma_multiple_is_member(g, k + k, base);
        lemma_multiple_is_member(g, k + k + 1, base);
        lemma_multiple_is_member(g, k + k + 2, base);
        let bit = scalar_bit(scalar, m as int);
        assert(ladder(scalar, base, n) == ladder_step((a, b), bit));
        // twice the lower point, the sum of the two, twice the higher point
        lemma_double_of_multiple(g, a, k, base);
        lemma_double_of_multiple(g, b, k + 1, base);
        if bit {
            lemma_sum_of_same(g, a, ka, b, kb);
            lemma_multiples_add(g, k, k + 1, base);
            lemma_chain(g, add_value(a, b), add_value(ka, kb), multiple(k + k + 1, base));
        } else {
            lemma_sum_of_same(g, b, kb, a, ka);
            lemma_multiples_add(g, k + 1, k, base);
            lemma_chain(g, add_value(b, a), add_value(kb, ka), multiple(k + k + 1, base));
        }
    }
}

/// Twice a point that is the `k`-fold multiple is the `2 k`-fold multiple.
proof fn lemma_double_of_multiple(g: GroupLaw, a: ProjectiveValue, k: nat, p: ProjectiveValue)
    requires
        is_group_law(g),
        (g.member)(p),
        (g.member)(a),
        (g.same)(a, multiple(k, p)),
    ensures
        (g.member)(double_value(a)),
        (g.same)(double_value(a), multiple(k + k, p)),
{
    let ka = multiple(k, p);
    lemma_multiple_is_member(g, k, p);
    lemma_multiple_is_member(g, k + k, p);
    assert((g.same)(double_value(a), add_value(a, a)));
    lemma_sum_of_same(g, a, ka, a, ka);
    lemma_multiples_add(g, k, k, p);
    lemma_chain(g, add_value(a, a), add_value(ka, ka), multiple(k + k, p));
    lemma_chain(g, double_value(a), add_value(a, a), multiple(k + k, p));
}

/// After `n` bits the double-and-add holds the multiple by the bits' value.
pub proof fn lemma_double_and_add_holds_multiple(
    g: GroupLaw,
    scalar: Seq<u64>,
    base: ProjectiveValue,
    n: nat,
)
    requires
        is_group_law(g),
        (g.member)(base),
    ensures
        (g.member)(double_and_add(scalar, base, n)),
        (g.same)(double_and_add(scalar, base, n), multiple(prefix_value(scalar, n), base)),
    decreases n,
{
    if n == 0 {
    } else {
        let m = (n - 1) as nat;
        lemma_double_and_add_holds_multiple(g, scalar, base, m);
        let r = double_and_add(scalar, base, m);
        let k = prefix_value(scalar, m);
        lemma_double_of_multiple(g, r, k, base);
        lemma_multiple_is_member(g, k + k, base);
        if scalar_bit(scalar, m as int) {
            assert((g.same)(base, base));
            lemma_sum_of_same(g, double_value(r), multiple(k + k, base), base, base);
            assert(multiple(k + k + 1, base) == add_value(multiple(k + k, base), base));
        }
    }
}

/// The points of the curve, with a notion of sameness of the caller's.
pub open spec fn curve_points(
    same: spec_fn(ProjectiveValue, ProjectiveValue) -> bool,
) -> GroupLaw {
    GroupLaw { member: |p: ProjectiveValue| lies_on_curve(p), same }
}

/// The points of the curve hold the neutral element and are closed under
/// addition and doubling: the first part of what a group law asks for.
pub proof fn lemma_curve_points_are_closed(
    same: spec_fn(ProjectiveValue, ProjectiveValue) -> bool,
)
    ensures
        is_closed(curve_points(same)),
{
    let g = curve_points(same);
    lemma_identity_on_curve();
    assert forall|p: ProjectiveValue, q: ProjectiveValue|
        (g.member)(p) && (g.member)(q) implies (g.member)(#[trigger] add_value(p, q)) by {
        lemma_sum_on_curve(p, q);
    }
    assert forall|p: ProjectiveValue| (g.member)(p) implies (g.member)(
        #[trigger] double_value(p),
    ) by {
        lemma_double_on_curve(p);
    }
}

/// The two representatives `(0, 1, 0, 1)` and `(0, p - 1, 0, p - 1)` of the
/// neutral element, all the same: the trivial group.
pub open spec fn neutral_points() -> GroupLaw {
    GroupLaw {
        member: |p: ProjectiveValue| p == neutral(1) || p == neutral((modulus() - 1) as nat),
        same: |p: ProjectiveValue, q: ProjectiveValue| true,
    }
}

/// The hypothesis of a group law can be met: the representatives of the
/// neutral element that the ladder runs through are one.
pub proof fn lemma_neutral_points_are_group_law()
    ensures
        is_group_law(neutral_points()),
{
    let g = neutral_points();
    let minus_one = (modulus() - 1) as nat;
    lemma_modulus_positive();
    lemma_double_neutral(1);
    lemma_double_neutral(minus_one);
    assert forall|p: ProjectiveValue, q: ProjectiveValue|
        (g.member)(p) && (g.member)(q) implies (g.member)(#[trigger] add_value(p, q)) by {
        let c: nat = if p == neutral(1) { 1 } else { minus_one };
        let d: nat = if q == neutral(1) { 1 } else { minus_one };
        lemma_add_neutral_left(c, q);
        assert(scaled_by_z(neutral(d)) == neutral(1)) by {
            reveal(modulus);
        }
    }
    assert(identity_value() == neutral(1));
}

/// The integer that the `j` highest bits of a word spell.
pub open spec fn top_bits(w: u64, j: nat) -> nat
    decreases j,
{
    if j == 0 {
        0
    } else {
        2 * top_bits(w, (j - 1) as nat) + if (w >> ((64 - j) as u64)) & 1 == 1 {
            1nat
        } else {
            0nat
        }
    }
}

/// The `j` highest bits of a word spell the word shifted down by `64 - j`.
proof fn lemma_top_bits(w: u64, j: nat)
    requires
        1 <= j <= 64,
    ensures
        top_bits(w, j) == w >> ((64 - j) as u64),
    decreases j,
{
    let s = (64 - j) as u64;
    if j == 1 {
        assert(top_bits(w, 0) == 0);
        assert((w >> 63) == (if (w >> 63) & 1 == 1 { 1u64 } else { 0u64 })) by (bit_vector);
    } else {
        lemma_top_bits(w, (j - 1) as nat);
        let up = (s + 1) as u64;
        assert(up == 64 - (j - 1));
        assert((w >> s) == 2 * (w >> up) + (if (w >> s) & 1 == 1 { 1u64 } else { 0u64 }))
            by (bit_vector)
            requires
                s < 63,
                up == s + 1,
        ;
    }
}

/// Within word `i` the value of the scalar's bits is the value of the words
/// before, shifted up, plus the word's highest bits.
proof fn lemma_prefix_within_word(scalar: Seq<u64>, i: nat, j: nat)
    requires
        i < scalar.len(),
        j <= 64,
    ensures
        prefix_value(scalar, 64 * i + j) == prefix_value(scalar, 64 * i) * pow2(j) + top_bits(
            scalar[i as int],
            j,
        ),
    decreases j,
{
    if j == 0 {
        lemma2_to64();
    } else {
        let m = (j - 1) as nat;
        lemma_prefix_within_word(scalar, i, m);
        lemma_pow2_unfold(j);
        let n = 64 * i + j;
        let k = (n - 1) as int;
        assert(k / 64 == i && k % 64 == m);
        assert(scalar_bit(scalar, k) == ((scalar[i as int] >> ((64 - j) as u64)) & 1 == 1));
        let high = prefix_value(scalar, 64 * i);
        let before = prefix_value(scalar, (n - 1) as nat);
        assert(before == high * pow2(m) + top_bits(scalar[i as int], m));
        assert(2 * (high * pow2(m)) == high * (2 * pow2(m))) by (nonlinear_arith);
    }
}

/// The value of the bits of the first `i` words does not depend on the words
/// that follow.
proof fn lemma_prefix_of_head(scalar: Seq<u64>, n: nat)
    requires
        scalar.len() > 0,
        n <= 64 * (scalar.len() - 1),
    ensures
        prefix_value(scalar, n) == prefix_value(scalar.drop_last(), n),
    decreases n,
{
    if n > 0 {
        lemma_prefix_of_head(scalar, (n - 1) as nat);
        let k = (n - 1) as int;
        assert(0 <= k / 64 < scalar.len() - 1);
        assert(scalar[k / 64] == scalar.drop_last()[k / 64]);
    }
}

/// The bits of a scalar spell the integer that its words spell.
pub proof fn lemma_bits_spell_value(scalar: Seq<u64>)
    ensures
        prefix_value(scalar, 64 * scalar.len()) == scalar_value(scalar),
    decreases scalar.len(),
{
    if scalar.len() > 0 {
        let head = scalar.drop_last();
        let i = (scalar.len() - 1) as nat;
        lemma_bits_spell_value(head);
        lemma_prefix_of_head(scalar, 64 * i);
        lemma_prefix_within_word(scalar, i, 64);
        lemma_top_bits(scalar[i as int], 64);
        let w = scalar[i as int];
        assert(w >> 0u64 == w) by (bit_vector);
        lemma2_to64_rest();
        assert(pow2(64) == 0x1_0000_0000_0000_0000);
        assert(64 * i + 64 == 64 * scalar.len());
    }
}

/// For every group law on a set that holds the base, the ladder gives the
/// multiple of the base by the scalar.
pub proof fn lemma_ladder_is_multiple(g: GroupLaw, scalar: Seq<u64>, base: ProjectiveValue)
    requires
        is_group_law(g),
        (g.member)(base),
    ensures
        (g.member)(ladder_value(scalar, base)),
        (g.same)(ladder_value(scalar, base), multiple(scalar_value(scalar), base)),
{
    lemma_ladder_holds_multiples(g, scalar, base, 64 * scalar.len());
    lemma_bits_spell_value(scalar);
}

/// For every group law on a set that holds the base, the ladder gives what
/// the variable-time double-and-add over the same bits gives.
pub proof fn lemma_ladder_is_double_and_add(g: GroupLaw, scalar: Seq<u64>, base: ProjectiveValue)
    requires
        is_group_law(g),
        (g.member)(base),
    ensures
        (g.same)(
            ladder_value(scalar, base),
            double_and_add(scalar, base, 64 * scalar.len()),
        ),
{
    let n = 64 * scalar.len();
    let k = prefix_value(scalar, n);
    lemma_ladder_holds_multiples(g, scalar, base, n);
    lemma_double_and_add_holds_multiple(g, scalar, base, n);
    lemma_multiple_is_member(g, k, base);
    let reference = double_and_add(scalar, base, n);
    assert((g.same)(multiple(k, base), reference));
    lemma_chain(g, ladder_value(scalar, base), multiple(k, base), reference);
}

/// For every group law on a set that holds the base, the ladder is additive
/// in the scalar: the sum of the multiples by two scalars is the multiple
/// by a scalar that spells the sum of their values.
pub proof fn lemma_ladder_is_additive(
    g: GroupLaw,
    a: Seq<u64>,
    b: Seq<u64>,
    sum: Seq<u64>,
    base: ProjectiveValue,
)
    requires
        is_group_law(g),
        (g.member)(base),
        scalar_value(sum) == scalar_value(a) + scalar_value(b),
    ensures
        (g.same)(
            add_value(ladder_value(a, base), ladder_value(b, base)),
            ladder_value(sum, base),
        ),
{
    let (ka, kb) = (scalar_value(a), scalar_value(b));
    lemma_ladder_is_multiple(g, a, base);
    lemma_ladder_is_multiple(g, b, base);
    lemma_ladder_is_multiple(g, sum, base);
    lemma_multiple_is_member(g, ka, base);
    lemma_multiple_is_member(g, kb, base);
    lemma_multiple_is_member(g, ka + kb, base);
    lemma_sum_of_same(
        g,
        ladder_value(a, base),
        multiple(ka, base),
        ladder_value(b, base),
        multiple(kb, base),
    );
    lemma_multiples_add(g, ka, kb, base);
    lemma_chain(
        g,
        add_value(ladder_value(a, base), ladder_value(b, base)),
        add_value(multiple(ka, base), multiple(kb, base)),
        multiple(ka + kb, base),
    );
    assert((g.same)(multiple(ka + kb, base), ladder_value(sum, base)));
    lemma_chain(
        g,
        add_value(ladder_value(a, base), ladder_value(b, base)),
        multiple(ka + kb, base),
        ladder_value(sum, base),
    );
}

} // verus!
