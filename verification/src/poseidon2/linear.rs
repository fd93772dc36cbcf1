//! The rows of the external matrix, in the shapes in which the layers
//! compute them.

use crate::field::{lemma_modulus_positive, modulus};
use crate::poseidon2::model::{
    external_entry, external_row, internal_layer, mds4, mds4_dot, prefix_sum,
};
use vstd::arithmetic::div_mod::lemma_mod_bound;
use vstd::prelude::*;

verus! {

/// Row `l` of the 4x4 MDS matrix applied to block `b` of `x`, unreduced.
pub open spec fn block_dot(x: Seq<nat>, b: int, l: int) -> int {
    mds4_dot(l, x[4 * b], x[4 * b + 1], x[4 * b + 2], x[4 * b + 3])
}

/// The sum over the first `n` blocks of `x` of row `l` of the 4x4 MDS matrix
/// applied to the block, unreduced.
pub open spec fn column_sum(x: Seq<nat>, l: int, n: nat) -> int
    decreases n,
{
    if n == 0 {
        0
    } else {
        column_sum(x, l, (n - 1) as nat) + block_dot(x, n - 1, l)
    }
}

/// For the widths 2 and 3 a row of the external matrix is the sum of the
/// state plus the row's own element.
pub proof fn lemma_external_row_narrow(x: Seq<nat>, i: int)
    requires
        x.len() == 2 || x.len() == 3,
        0 <= i < x.len(),
    ensures
        external_row(x, i, x.len()) == prefix_sum(x, x.len()) + x[i],
{
    reveal_with_fuel(external_row, 4);
    reveal_with_fuel(prefix_sum, 4);
}

/// For width 4 a row of the external matrix is a row of the 4x4 MDS matrix.
pub proof fn lemma_external_row_four(x: Seq<nat>, i: int)
    requires
        x.len() == 4,
        0 <= i < 4,
    ensures
        external_row(x, i, 4) == mds4_dot(i, x[0], x[1], x[2], x[3]),
{
    reveal_with_fuel(external_row, 5);
}

/// Beyond width 4 the first `n` blocks of a row of the external matrix are
/// the column sum of the blocks, plus the row's own block once more.
pub proof fn lemma_external_row_blocks(x: Seq<nat>, i: int, n: nat)
    requires
        x.len() > 4,
        0 <= i,
        4 * n <= x.len(),
    ensures
        external_row(x, i, 4 * n) == column_sum(x, i % 4, n) + (if i / 4 < n {
            block_dot(x, i / 4, i % 4)
        } else {
            0
        }),
    decreases n,
{
    if n > 0 {
        let m = (n - 1) as nat;
        lemma_external_row_blocks(x, i, m);
        let t = x.len();
        let l = i % 4;
        let base = (4 * m) as int;
        reveal_with_fuel(external_row, 5);
        assert(external_row(x, i, 4 * n) == external_row(x, i, base as nat) + external_entry(
            t,
            i,
            base,
        ) * x[base] + external_entry(t, i, base + 1) * x[base + 1] + external_entry(
            t,
            i,
            base + 2,
        ) * x[base + 2] + external_entry(t, i, base + 3) * x[base + 3]);
        assert(base / 4 == m && (base + 1) / 4 == m && (base + 2) / 4 == m && (base + 3) / 4 == m);
        assert(base % 4 == 0 && (base + 1) % 4 == 1 && (base + 2) % 4 == 2 && (base + 3) % 4
            == 3);
        if i / 4 == m {
            assert(external_entry(t, i, base) * x[base] == 2 * (mds4(l, 0) * x[base]))
                by (nonlinear_arith)
                requires
                    external_entry(t, i, base) == 2 * mds4(l, 0),
            ;
            assert(external_entry(t, i, base + 1) * x[base + 1] == 2 * (mds4(l, 1) * x[base + 1]))
                by (nonlinear_arith)
                requires
                    external_entry(t, i, base + 1) == 2 * mds4(l, 1),
            ;
            assert(external_entry(t, i, base + 2) * x[base + 2] == 2 * (mds4(l, 2) * x[base + 2]))
                by (nonlinear_arith)
                requires
                    external_entry(t, i, base + 2) == 2 * mds4(l, 2),
            ;
            assert(external_entry(t, i, base + 3) * x[base + 3] == 2 * (mds4(l, 3) * x[base + 3]))
                by (nonlinear_arith)
                requires
                    external_entry(t, i, base + 3) == 2 * mds4(l, 3),
            ;
        }
    }
}

/// With the diagonal `[1, 2]` the internal layer of width 2 is the matrix
/// `[[2, 1], [1, 3]]`.
pub proof fn lemma_internal_layer_two(x: Seq<nat>)
    requires
        x.len() == 2,
    ensures
        internal_layer(seq![1nat, 2nat], x) == seq![
            (2 * x[0] + x[1]) % modulus(),
            (x[0] + 3 * x[1]) % modulus(),
        ],
{
    let diag = seq![1nat, 2nat];
    reveal_with_fuel(prefix_sum, 3);
    let (d0, d1) = (diag[0], diag[1]);
    assert(d0 == 1 && d1 == 2);
    assert(d0 * x[0] == x[0] && d1 * x[1] == 2 * x[1]) by (nonlinear_arith)
        requires
            d0 == 1,
            d1 == 2,
    ;
    let l = internal_layer(diag, x);
    assert(prefix_sum(x, 2) == x[0] + x[1]);
    lemma_modulus_positive();
    lemma_mod_bound((2 * x[0] + x[1]) as int, modulus() as int);
    lemma_mod_bound((x[0] + 3 * x[1]) as int, modulus() as int);
    assert(l[0] == (2 * x[0] + x[1]) % modulus());
    assert(l[1] == (x[0] + 3 * x[1]) % modulus());
    assert(internal_layer(diag, x) =~= seq![
        (2 * x[0] + x[1]) % modulus(),
        (x[0] + 3 * x[1]) % modulus(),
    ]);
}

/// With the diagonal `[1, 1, 2]` the internal layer of width 3 is the matrix
/// `[[2, 1, 1], [1, 2, 1], [1, 1, 3]]`.
pub proof fn lemma_internal_layer_three(x: Seq<nat>)
    requires
        x.len() == 3,
    ensures
        internal_layer(seq![1nat, 1nat, 2nat], x) == seq![
            (2 * x[0] + x[1] + x[2]) % modulus(),
            (x[0] + 2 * x[1] + x[2]) % modulus(),
            (x[0] + x[1] + 3 * x[2]) % modulus(),
        ],
{
    let diag = seq![1nat, 1nat, 2nat];
    reveal_with_fuel(prefix_sum, 4);
    let (d0, d1, d2) = (diag[0], diag[1], diag[2]);
    assert(d0 == 1 && d1 == 1 && d2 == 2);
    assert(d0 * x[0] == x[0] && d1 * x[1] == x[1] && d2 * x[2] == 2 * x[2])
        by (nonlinear_arith)
        requires
            d0 == 1,
            d1 == 1,
            d2 == 2,
    ;
    let l = internal_layer(diag, x);
    assert(prefix_sum(x, 3) == x[0] + x[1] + x[2]);
    lemma_modulus_positive();
    lemma_mod_bound((2 * x[0] + x[1] + x[2]) as int, modulus() as int);
    lemma_mod_bound((x[0] + 2 * x[1] + x[2]) as int, modulus() as int);
    lemma_mod_bound((x[0] + x[1] + 3 * x[2]) as int, modulus() as int);
    assert(l[0] == (2 * x[0] + x[1] + x[2]) % modulus());
    assert(l[1] == (x[0] + 2 * x[1] + x[2]) % modulus());
    assert(l[2] == (x[0] + x[1] + 3 * x[2]) % modulus());
    assert(internal_layer(diag, x) =~= seq![
        (2 * x[0] + x[1] + x[2]) % modulus(),
        (x[0] + 2 * x[1] + x[2]) % modulus(),
        (x[0] + x[1] + 3 * x[2]) % modulus(),
    ]);
}

} // verus!
