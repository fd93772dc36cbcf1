//! What the permutation computes, over sequences of integers in `0..p`.

use crate::field::{fadd, fpow, modulus};
use vstd::prelude::*;

verus! {

/// The state widths the permutation is defined for.
pub open spec fn valid_width(t: nat) -> bool {
    t == 2 || t == 3 || (4 <= t <= 24 && t % 4 == 0)
}

/// Entry `(r, c)` of the 4x4 MDS matrix
/// `[[5, 7, 1, 3], [4, 6, 1, 1], [1, 3, 5, 7], [1, 1, 4, 6]]`.
pub open spec fn mds4(r: int, c: int) -> int {
    if r == 0 {
        if c == 0 { 5 } else if c == 1 { 7 } else if c == 2 { 1 } else { 3 }
    } else if r == 1 {
        if c == 0 { 4 } else if c == 1 { 6 } else if c == 2 { 1 } else { 1 }
    } else if r == 2 {
        if c == 0 { 1 } else if c == 1 { 3 } else if c == 2 { 5 } else { 7 }
    } else {
        if c == 0 { 1 } else if c == 1 { 1 } else if c == 2 { 4 } else { 6 }
    }
}

/// Row `r` of the 4x4 MDS matrix applied to `(a, b, c, d)`, unreduced.
pub open spec fn mds4_dot(r: int, a: nat, b: nat, c: nat, d: nat) -> int {
    mds4(r, 0) * a + mds4(r, 1) * b + mds4(r, 2) * c + mds4(r, 3) * d
}

/// Entry `(i, j)` of the external matrix for width `t`: `circ(2, 1)` and
/// `circ(2, 1, 1)` for the widths 2 and 3, the MDS matrix for width 4, and
/// `circ(2 M4, M4, ..., M4)` beyond.
pub open spec fn external_entry(t: nat, i: int, j: int) -> int {
    if t < 4 {
        if i == j { 2 } else { 1 }
    } else if t == 4 {
        mds4(i, j)
    } else if i / 4 == j / 4 {
        2 * mds4(i % 4, j % 4)
    } else {
        mds4(i % 4, j % 4)
    }
}

/// The first `n` terms of row `i` of the external matrix applied to `x`,
/// unreduced.
pub open spec fn external_row(x: Seq<nat>, i: int, n: nat) -> int
    decreases n,
{
    if n == 0 {
        0
    } else {
        external_row(x, i, (n - 1) as nat) + external_entry(x.len(), i, n - 1) * x[n - 1]
    }
}

/// The external linear layer: the external matrix times the state.
pub open spec fn external_layer(x: Seq<nat>) -> Seq<nat> {
    Seq::new(x.len(), |i: int| (external_row(x, i, x.len()) % (modulus() as int)) as nat)
}

/// The sum of the first `n` elements of `x`, unreduced.
pub open spec fn prefix_sum(x: Seq<nat>, n: nat) -> int
    decreases n,
{
    if n == 0 {
        0
    } else {
        prefix_sum(x, (n - 1) as nat) + x[n - 1]
    }
}

/// The internal linear layer: the matrix with ones off the diagonal and
/// `diag_m1[i] + 1` on it, times the state.
pub open spec fn internal_layer(diag_m1: Seq<nat>, x: Seq<nat>) -> Seq<nat> {
    Seq::new(
        x.len(),
        |i: int| ((prefix_sum(x, x.len()) + diag_m1[i] * x[i]) % (modulus() as int)) as nat,
    )
}

/// The diagonals, less one, of the fixed internal matrices `[[2, 1], [1, 3]]`
/// and `[[2, 1, 1], [1, 2, 1], [1, 1, 3]]` of the widths 2 and 3. Wider
/// states take any diagonal.
pub open spec fn diagonal_fits_width(diag_m1: Seq<nat>) -> bool {
    &&& diag_m1.len() == 2 ==> diag_m1 == seq![1nat, 2nat]
    &&& diag_m1.len() == 3 ==> diag_m1 == seq![1nat, 1nat, 2nat]
}

/// The S-box: the `d`-th power in the field.
pub open spec fn sbox(d: nat, x: nat) -> nat {
    fpow(x, d)
}

/// The S-box on every element.
pub open spec fn sbox_full(d: nat, x: Seq<nat>) -> Seq<nat> {
    Seq::new(x.len(), |i: int| sbox(d, x[i]))
}

/// A vector of round constants added elementwise.
pub open spec fn add_constants(x: Seq<nat>, rc: Seq<nat>) -> Seq<nat> {
    Seq::new(x.len(), |i: int| fadd(x[i], rc[i]))
}

/// One external round: constants, full S-box, external layer.
pub open spec fn external_round(d: nat, x: Seq<nat>, rc: Seq<nat>) -> Seq<nat> {
    external_layer(sbox_full(d, add_constants(x, rc)))
}

/// One internal round: a constant and the S-box on the first element, then
/// the internal layer.
pub open spec fn internal_round(d: nat, diag_m1: Seq<nat>, x: Seq<nat>, rc: nat) -> Seq<nat> {
    internal_layer(diag_m1, x.update(0, sbox(d, fadd(x[0], rc))))
}

/// External rounds with the constants `rcs[from..to]`, in order.
pub open spec fn external_rounds(d: nat, x: Seq<nat>, rcs: Seq<Seq<nat>>, from: int, to: int) -> Seq<
    nat,
>
    decreases to - from,
{
    if to <= from {
        x
    } else {
        external_round(d, external_rounds(d, x, rcs, from, to - 1), rcs[to - 1])
    }
}

/// Internal rounds with the first `n` constants of `rcs`, in order.
pub open spec fn internal_rounds(d: nat, diag_m1: Seq<nat>, x: Seq<nat>, rcs: Seq<nat>, n: nat) -> Seq<
    nat,
>
    decreases n,
{
    if n == 0 {
        x
    } else {
        internal_round(d, diag_m1, internal_rounds(d, diag_m1, x, rcs, (n - 1) as nat), rcs[n - 1])
    }
}

/// The tables of a permutation instance, as integers.
pub struct Parameters {
    /// The diagonal of the internal matrix, less one.
    pub diag_m1: Seq<nat>,
    /// One vector of constants for each external round.
    pub rc_external: Seq<Seq<nat>>,
    /// One constant for each internal round.
    pub rc_internal: Seq<nat>,
}

/// The whole permutation with S-box degree `d`: the external layer, the first
/// half of the external rounds, all internal rounds, the second half of the
/// external rounds.
pub open spec fn permute(d: nat, params: Parameters, x: Seq<nat>) -> Seq<nat> {
    let half = params.rc_external.len() as int / 2;
    let mixed = external_layer(x);
    let first = external_rounds(d, mixed, params.rc_external, 0, half);
    let middle = internal_rounds(
        d,
        params.diag_m1,
        first,
        params.rc_internal,
        params.rc_internal.len(),
    );
    external_rounds(d, middle, params.rc_external, half, params.rc_external.len() as int)
}

} // verus!
