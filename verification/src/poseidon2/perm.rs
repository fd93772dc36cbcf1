//! The permutation engine: S-box, linear layers and round schedule on arrays
//! of field elements.

use crate::field::{
    all_wf, fadd, fdouble, fmul, fq_add, fq_double, fq_mul, fq_pow, fq_square, fsquare,
    lemma_values_injective, lemma_view_reduced, modulus, values, Fq,
};
use crate::modular::{
    lemma_residue_add, lemma_residue_double, lemma_residue_mul, lemma_residue_self,
    lemma_residue_square, residue_of,
};
use crate::poseidon2::linear::{
    block_dot, column_sum, lemma_external_row_blocks, lemma_external_row_four,
    lemma_external_row_narrow,
};
use crate::poseidon2::model::{
    add_constants, diagonal_fits_width, external_layer, external_round, external_rounds,
    internal_layer, internal_round, internal_rounds, mds4_dot, permute, prefix_sum, sbox,
    sbox_full, valid_width, Parameters,
};
use vstd::arithmetic::power::pow;
use vstd::prelude::*;

verus! {

/// A Poseidon2 permutation of width `T` with S-box degree `D`, `ROUNDS_F`
/// external and `ROUNDS_P` internal rounds.
pub struct Poseidon2Permutation<
    const T: usize,
    const D: u64,
    const ROUNDS_F: usize,
    const ROUNDS_P: usize,
> {
    /// The diagonal of the internal matrix, each entry less one.
    mat_internal_diag_m_1: [Fq; T],
    /// The round constants of the external rounds.
    round_constants_external: [[Fq; T]; ROUNDS_F],
    /// The round constants of the internal rounds.
    round_constants_internal: [Fq; ROUNDS_P],
}

/// Why a permutation cannot be built for a choice of width, degree and
/// round numbers.
#[derive(Clone, Copy, Debug, PartialEq, Eq)]
pub enum ConfigError {
    /// The width is none of 2, 3, 4, 8, 12, 16, 20, 24.
    InvalidWidth,
    /// The S-box degree is even.
    EvenSboxDegree,
    /// The number of external rounds is odd.
    OddFullRounds,
}

/// Width, S-box degree and number of external rounds fit together.
pub open spec fn valid_config(t: nat, d: nat, rounds_f: nat) -> bool {
    valid_width(t) && d % 2 == 1 && rounds_f % 2 == 0
}

/// What `new` answers for a choice of width, degree and external rounds that
/// it refuses: the first of the three conditions that fails.
pub open spec fn config_error(t: nat, d: nat, rounds_f: nat) -> ConfigError {
    if !valid_width(t) {
        ConfigError::InvalidWidth
    } else if d % 2 != 1 {
        ConfigError::EvenSboxDegree
    } else {
        ConfigError::OddFullRounds
    }
}

impl<
    const T: usize,
    const D: u64,
    const ROUNDS_F: usize,
    const ROUNDS_P: usize,
> View for Poseidon2Permutation<T, D, ROUNDS_F, ROUNDS_P> {
    type V = Parameters;

    /// The tables as integers.
    closed spec fn view(&self) -> Parameters {
        Parameters {
            diag_m1: values(self.mat_internal_diag_m_1@),
            rc_external: Seq::new(
                ROUNDS_F as nat,
                |r: int| values(self.round_constants_external[r]@),
            ),
            rc_internal: values(self.round_constants_internal@),
        }
    }
}

impl<
    const T: usize,
    const D: u64,
    const ROUNDS_F: usize,
    const ROUNDS_P: usize,
> Poseidon2Permutation<T, D, ROUNDS_F, ROUNDS_P> {
    /// Every entry of the tables is a well-formed field element.
    pub closed spec fn tables_wf(&self) -> bool {
        &&& all_wf(self.mat_internal_diag_m_1@)
        &&& forall|r: int|
            0 <= r < ROUNDS_F ==> all_wf(#[trigger] self.round_constants_external[r]@)
        &&& all_wf(self.round_constants_internal@)
    }

    /// The instance is one that `new` hands out: a valid configuration with
    /// well-formed tables.
    pub open spec fn wf(&self) -> bool {
        valid_config(T as nat, D as nat, ROUNDS_F as nat) && self.tables_wf()
    }

    /// The tables have the shape that the const parameters give.
    pub proof fn lemma_view_shape(&self)
        ensures
            self@.diag_m1.len() == T,
            self@.rc_external.len() == ROUNDS_F,
            self@.rc_internal.len() == ROUNDS_P,
            forall|r: int| 0 <= r < ROUNDS_F ==> (#[trigger] self@.rc_external[r]).len() == T,
    {
    }

    /// Builds the permutation from its tables, or says why the configuration
    /// is refused.
    pub fn new(
        mat_internal_diag_m_1: [Fq; T],
        round_constants_external: [[Fq; T]; ROUNDS_F],
        round_constants_internal: [Fq; ROUNDS_P],
    ) -> (r: Result<Self, ConfigError>)
        requires
            all_wf(mat_internal_diag_m_1@),
            forall|k: int| 0 <= k < ROUNDS_F ==> all_wf(#[trigger] round_constants_external[k]@),
            all_wf(round_constants_internal@),
        ensures
            valid_config(T as nat, D as nat, ROUNDS_F as nat) ==> r is Ok && r->Ok_0.wf()
                && r->Ok_0@ == (Parameters {
                diag_m1: values(mat_internal_diag_m_1@),
                rc_external: Seq::new(
                    ROUNDS_F as nat,
                    |k: int| values(round_constants_external[k]@),
                ),
                rc_internal: values(round_constants_internal@),
            }),
            !valid_config(T as nat, D as nat, ROUNDS_F as nat) ==> r == Err::<Self, ConfigError>(
                config_error(T as nat, D as nat, ROUNDS_F as nat),
            ),
    {
        if !(T == 2 || T == 3 || (4 <= T && T <= 24 && T % 4 == 0)) {
            return Err(ConfigError::InvalidWidth);
        }
        if D % 2 != 1 {
            return Err(ConfigError::EvenSboxDegree);
        }
        if ROUNDS_F % 2 != 0 {
            return Err(ConfigError::OddFullRounds);
        }
        Ok(Self { mat_internal_diag_m_1, round_constants_external, round_constants_internal })
    }

    /// Whether the diagonal is the one that the fixed internal matrices of
    /// the widths 2 and 3 ask for; any diagonal is, for a wider state.
    pub fn diagonal_fits(&self) -> (b: bool)
        requires
            self.wf(),
        ensures
            b == diagonal_fits_width(self@.diag_m1),
    {
        let one = Fq::one();
        let two = Fq::two();
        let ghost diag = self@.diag_m1;
        if T == 2 {
            let b = self.mat_internal_diag_m_1[0].same_as(&one)
                && self.mat_internal_diag_m_1[1].same_as(&two);
            proof {
                assert(diag[0] == self.mat_internal_diag_m_1[0]@);
                assert(diag[1] == self.mat_internal_diag_m_1[1]@);
                if b {
                    assert(diag =~= seq![1nat, 2nat]);
                }
            }
            b
        } else if T == 3 {
            let b = self.mat_internal_diag_m_1[0].same_as(&one)
                && self.mat_internal_diag_m_1[1].same_as(&one)
                && self.mat_internal_diag_m_1[2].same_as(&two);
            proof {
                assert(diag[0] == self.mat_internal_diag_m_1[0]@);
                assert(diag[1] == self.mat_internal_diag_m_1[1]@);
                assert(diag[2] == self.mat_internal_diag_m_1[2]@);
                if b {
                    assert(diag =~= seq![1nat, 1nat, 2nat]);
                }
            }
            b
        } else {
            true
        }
    }

    /// The S-box on every element of the state.
    fn sbox(input: &mut [Fq; T])
        requires
            all_wf(old(input)@),
        ensures
            all_wf(final(input)@),
            values(final(input)@) == sbox_full(D as nat, values(old(input)@)),
    {
        let ghost x = values(input@);
        let mut i: usize = 0;
        while i < T
            invariant
                i <= T,
                x.len() == T,
                all_wf(input@),
                forall|k: int| 0 <= k < i ==> values(input@)[k] == sbox(D as nat, x[k]),
                forall|k: int| i <= k < T ==> values(input@)[k] == x[k],
            decreases T - i,
        {
            let ghost before = *input;
            let mut e = input[i];
            Self::single_sbox(&mut e);
            input[i] = e;
            proof {
                assert forall|k: int| 0 <= k < i + 1 implies values(input@)[k] == sbox(
                    D as nat,
                    x[k],
                ) by {
                    if k < i {
                        assert(input[k] == before[k]);
                        assert(values(before@)[k] == sbox(D as nat, x[k]));
                    } else {
                        assert(values(before@)[k] == x[k]);
                    }
                }
                assert forall|k: int| i + 1 <= k < T implies values(input@)[k] == x[k] by {
                    assert(input[k] == before[k]);
                    assert(values(before@)[k] == x[k]);
                }
            }
            i += 1;
        }
        assert(values(input@) =~= sbox_full(D as nat, x));
    }

    /// The S-box: the element raised to the power `D`, by `x * x^2` for degree
    /// 3, `x * x^4` for degree 5, `x * x^4 * x^2` for degree 7, and by a
    /// general exponentiation otherwise.
    fn single_sbox(input: &mut Fq)
        requires
            old(input).wf(),
        ensures
            final(input).wf(),
            final(input)@ == sbox(D as nat, old(input)@),
    {
        let ghost x = input@;
        proof {
            lemma_view_reduced(*input);
        }
        if D == 3 {
            let input2 = fq_square(input);
            *input = fq_mul(input, &input2);
            proof {
                lemma_power_chain_3(x);
            }
        } else if D == 5 {
            let input2 = fq_square(input);
            let input4 = fq_square(&input2);
            *input = fq_mul(input, &input4);
            proof {
                lemma_power_chain_5(x);
            }
        } else if D == 7 {
            let input2 = fq_square(input);
            let input4 = fq_square(&input2);
            *input = fq_mul(input, &input4);
            *input = fq_mul(input, &input2);
            proof {
                lemma_power_chain_7(x);
            }
        } else {
            *input = fq_pow(input, D);
        }
    }

    /// Multiplies the four elements from `offset` on by the 4x4 MDS matrix,
    /// with the addition chain of the Poseidon2 paper.
    fn matmul_m4(input: &mut [Fq; T], offset: usize)
        requires
            offset + 4 <= T,
            all_wf(old(input)@),
        ensures
            all_wf(final(input)@),
            forall|k: int|
                0 <= k < T && !(offset <= k < offset + 4) ==> final(input)[k] == old(input)[k],
            forall|l: int|
                0 <= l < 4 ==> residue_of(
                    #[trigger] final(input)[offset + l]@,
                    mds4_dot(
                        l,
                        old(input)[offset as int]@,
                        old(input)[offset + 1]@,
                        old(input)[offset + 2]@,
                        old(input)[offset + 3]@,
                    ),
                ),
    {
        let a = input[offset];
        let b = input[offset + 1];
        let c = input[offset + 2];
        let d = input[offset + 3];
        let t_0 = fq_add(&a, &b);
        let t_1 = fq_add(&c, &d);
        let b2 = fq_double(&b);
        let t_2 = fq_add(&b2, &t_1);
        let d2 = fq_double(&d);
        let t_3 = fq_add(&d2, &t_0);
        let t_1_2 = fq_double(&t_1);
        let t_1_4 = fq_double(&t_1_2);
        let t_4 = fq_add(&t_1_4, &t_3);
        let t_0_2 = fq_double(&t_0);
        let t_0_4 = fq_double(&t_0_2);
        let t_5 = fq_add(&t_0_4, &t_2);
        let t_6 = fq_add(&t_3, &t_5);
        let t_7 = fq_add(&t_2, &t_4);
        proof {
            crate::field::lemma_view_reduced(a);
            crate::field::lemma_view_reduced(b);
            crate::field::lemma_view_reduced(c);
            crate::field::lemma_view_reduced(d);
            lemma_m4_chain(a@, b@, c@, d@);
        }
        input[offset] = t_6;
        input[offset + 1] = t_5;
        input[offset + 2] = t_7;
        input[offset + 3] = t_4;
    }

    /// The external linear layer.
    pub fn matmul_external(input: &mut [Fq; T])
        requires
            valid_width(T as nat),
            all_wf(old(input)@),
        ensures
            all_wf(final(input)@),
            values(final(input)@) == external_layer(values(old(input)@)),
    {
        let ghost x = values(input@);
        proof {
            assert forall|k: int| 0 <= k < T implies #[trigger] x[k] < modulus() by {
                lemma_view_reduced(input[k]);
            }
        }
        if T == 2 {
            let sum = fq_add(&input[0], &input[1]);
            input[0] = fq_add(&input[0], &sum);
            input[1] = fq_add(&input[1], &sum);
            proof {
                reveal_with_fuel(prefix_sum, 3);
                lemma_residue_self(x[0]);
                lemma_residue_self(x[1]);
                lemma_residue_add(x[0], x[0] as int, x[1], x[1] as int);
                lemma_narrow_sums(x, 0, x[0], fadd(x[0], x[1]));
                lemma_narrow_sums(x, 1, x[1], fadd(x[0], x[1]));
            }
        } else if T == 3 {
            let sum01 = fq_add(&input[0], &input[1]);
            let sum = fq_add(&sum01, &input[2]);
            input[0] = fq_add(&input[0], &sum);
            input[1] = fq_add(&input[1], &sum);
            input[2] = fq_add(&input[2], &sum);
            proof {
                reveal_with_fuel(prefix_sum, 4);
                let s = fadd(fadd(x[0], x[1]), x[2]);
                lemma_residue_self(x[0]);
                lemma_residue_self(x[1]);
                lemma_residue_self(x[2]);
                lemma_residue_add(x[0], x[0] as int, x[1], x[1] as int);
                lemma_residue_add(fadd(x[0], x[1]), (x[0] + x[1]) as int, x[2], x[2] as int);
                lemma_narrow_sums(x, 0, x[0], s);
                lemma_narrow_sums(x, 1, x[1], s);
                lemma_narrow_sums(x, 2, x[2], s);
            }
        } else if T == 4 {
            Self::matmul_m4(input, 0);
            proof {
                assert forall|i: int| 0 <= i < 4 implies values(input@)[i] == external_layer(
                    x,
                )[i] by {
                    lemma_external_row_four(x, i);
                    assert(residue_of(input[0 + i]@, mds4_dot(i, x[0], x[1], x[2], x[3])));
                }
            }
        } else {
            let blocks = T / 4;
            // The 4x4 MDS matrix on each block of four.
            let mut b: usize = 0;
            while b < blocks
                invariant
                    T == 4 * blocks,
                    b <= blocks,
                    x.len() == T,
                    all_wf(input@),
                    forall|k: int| 4 * b <= k < T ==> values(input@)[k] == x[k],
                    forall|k: int|
                        0 <= k < 4 * b ==> residue_of(
                            #[trigger] input[k]@,
                            block_dot(x, k / 4, k % 4),
                        ),
                decreases blocks - b,
            {
                let ghost before = *input;
                Self::matmul_m4(input, 4 * b);
                proof {
                    assert forall|k: int| 0 <= k < 4 * (b + 1) implies residue_of(
                        #[trigger] input[k]@,
                        block_dot(x, k / 4, k % 4),
                    ) by {
                        if k < 4 * b {
                            assert(input[k] == before[k]);
                        } else {
                            let l = k - 4 * b;
                            assert(values(before@)[4 * b] == x[4 * b]);
                            assert(values(before@)[4 * b + 1] == x[4 * b + 1]);
                            assert(values(before@)[4 * b + 2] == x[4 * b + 2]);
                            assert(values(before@)[4 * b + 3] == x[4 * b + 3]);
                            assert(input[4 * b + l] == input[k]);
                        }
                    }
                    assert forall|k: int| 4 * (b + 1) <= k < T implies values(input@)[k]
                        == x[k] by {
                        assert(input[k] == before[k]);
                        assert(values(before@)[k] == x[k]);
                    }
                }
                b += 1;
            }
            // The sum of the blocks, column by column.
            let zero = Fq::zero();
            let mut stored = [zero, zero, zero, zero];
            let mut l: usize = 0;
            while l < 4
                invariant
                    T == 4 * blocks,
                    blocks >= 2,
                    l <= 4,
                    x.len() == T,
                    all_wf(input@),
                    all_wf(stored@),
                    forall|k: int|
                        0 <= k < T ==> residue_of(
                            #[trigger] input[k]@,
                            block_dot(x, k / 4, k % 4),
                        ),
                    forall|c: int|
                        0 <= c < l ==> residue_of(
                            #[trigger] stored[c]@,
                            column_sum(x, c, blocks as nat),
                        ),
                decreases 4 - l,
            {
                let mut acc = input[l];
                let mut j: usize = 1;
                proof {
                    reveal_with_fuel(column_sum, 2);
                    assert(residue_of(input[l as int]@, block_dot(x, l as int / 4, l as int % 4)));
                }
                while j < blocks
                    invariant
                        T == 4 * blocks,
                        1 <= j <= blocks,
                        l < 4,
                        x.len() == T,
                        all_wf(input@),
                        acc.wf(),
                        forall|k: int|
                            0 <= k < T ==> residue_of(
                                #[trigger] input[k]@,
                                block_dot(x, k / 4, k % 4),
                            ),
                        residue_of(acc@, column_sum(x, l as int, j as nat)),
                    decreases blocks - j,
                {
                    let ghost prev = acc@;
                    let ghost k = (4 * j + l) as int;
                    acc = fq_add(&acc, &input[4 * j + l]);
                    proof {
                        assert(residue_of(input[k]@, block_dot(x, k / 4, k % 4)));
                        lemma_residue_add(
                            prev,
                            column_sum(x, l as int, j as nat),
                            input[k]@,
                            block_dot(x, j as int, l as int),
                        );
                    }
                    j += 1;
                }
                let ghost before = stored;
                stored[l] = acc;
                proof {
                    assert forall|c: int| 0 <= c < l + 1 implies residue_of(
                        #[trigger] stored[c]@,
                        column_sum(x, c, blocks as nat),
                    ) by {
                        if c < l {
                            assert(stored[c] == before[c]);
                        }
                    }
                }
                l += 1;
            }
            // Each element takes the sum of its column.
            let mut i: usize = 0;
            while i < T
                invariant
                    T == 4 * blocks,
                    blocks >= 2,
                    i <= T,
                    x.len() == T,
                    all_wf(input@),
                    all_wf(stored@),
                    forall|k: int|
                        i <= k < T ==> residue_of(
                            #[trigger] input[k]@,
                            block_dot(x, k / 4, k % 4),
                        ),
                    forall|c: int|
                        0 <= c < 4 ==> residue_of(
                            #[trigger] stored[c]@,
                            column_sum(x, c, blocks as nat),
                        ),
                    forall|k: int| 0 <= k < i ==> values(input@)[k] == external_layer(x)[k],
                decreases T - i,
            {
                let ghost before = *input;
                let ghost own = input[i as int]@;
                let ghost col = stored[i as int % 4]@;
                input[i] = fq_add(&input[i], &stored[i % 4]);
                proof {
                    assert(residue_of(own, block_dot(x, i as int / 4, i as int % 4)));
                    assert(residue_of(col, column_sum(x, i as int % 4, blocks as nat)));
                    lemma_residue_add(
                        own,
                        block_dot(x, i as int / 4, i as int % 4),
                        col,
                        column_sum(x, i as int % 4, blocks as nat),
                    );
                    lemma_external_row_blocks(x, i as int, blocks as nat);
                    assert forall|k: int| 0 <= k < i + 1 implies values(input@)[k]
                        == external_layer(x)[k] by {
                        if k < i {
                            assert(input[k] == before[k]);
                            assert(values(before@)[k] == external_layer(x)[k]);
                        }
                    }
                    assert forall|k: int| i + 1 <= k < T implies residue_of(
                        #[trigger] input[k]@,
                        block_dot(x, k / 4, k % 4),
                    ) by {
                        assert(input[k] == before[k]);
                    }
                }
                i += 1;
            }
        }
        assert(values(input@) =~= external_layer(x));
    }

    /// The sum of the whole state.
    fn sum_state(input: &[Fq; T]) -> (sum: Fq)
        requires
            all_wf(input@),
        ensures
            sum.wf(),
            residue_of(sum@, prefix_sum(values(input@), T as nat)),
    {
        let ghost x = values(input@);
        let mut sum = Fq::zero();
        let mut i: usize = 0;
        proof {
            lemma_residue_self(0);
        }
        while i < T
            invariant
                i <= T,
                x == values(input@),
                all_wf(input@),
                sum.wf(),
                residue_of(sum@, prefix_sum(x, i as nat)),
            decreases T - i,
        {
            let ghost prev = sum@;
            sum = fq_add(&sum, &input[i]);
            proof {
                lemma_view_reduced(input[i as int]);
                lemma_residue_self(x[i as int]);
                lemma_residue_add(prev, prefix_sum(x, i as nat), x[i as int], x[i as int] as int);
            }
            i += 1;
        }
        sum
    }

    /// The internal linear layer. For the widths 2 and 3 it applies the fixed
    /// matrices `[[2, 1], [1, 3]]` and `[[2, 1, 1], [1, 2, 1], [1, 1, 3]]`, which
    /// the instance's diagonal has to agree with.
    pub fn matmul_internal(&self, input: &mut [Fq; T])
        requires
            self.wf(),
            diagonal_fits_width(self@.diag_m1),
            all_wf(old(input)@),
        ensures
            all_wf(final(input)@),
            values(final(input)@) == internal_layer(self@.diag_m1, values(old(input)@)),
    {
        let ghost x = values(input@);
        let ghost diag = self@.diag_m1;
        proof {
            assert forall|k: int| 0 <= k < T implies #[trigger] x[k] < modulus() by {
                lemma_view_reduced(input[k]);
            }
        }
        if T == 2 {
            let sum = fq_add(&input[0], &input[1]);
            input[0] = fq_add(&input[0], &sum);
            let twice = fq_double(&input[1]);
            input[1] = fq_add(&twice, &sum);
            proof {
                reveal_with_fuel(prefix_sum, 3);
                lemma_residue_self(x[0]);
                lemma_residue_self(x[1]);
                lemma_residue_add(x[0], x[0] as int, x[1], x[1] as int);
                let s = fadd(x[0], x[1]);
                lemma_residue_add(x[0], x[0] as int, s, prefix_sum(x, 2));
                lemma_residue_double(x[1], x[1] as int);
                lemma_residue_add(fdouble(x[1]), 2 * (x[1] as int), s, prefix_sum(x, 2));
                assert(diag[0] == 1 && diag[1] == 2);
                assert(diag[0] * x[0] == x[0]);
                assert(diag[1] * x[1] == 2 * x[1]);
                assert(values(input@)[0] == internal_layer(diag, x)[0]);
                assert(values(input@)[1] == internal_layer(diag, x)[1]);
            }
        } else if T == 3 {
            let sum01 = fq_add(&input[0], &input[1]);
            let sum = fq_add(&sum01, &input[2]);
            input[0] = fq_add(&input[0], &sum);
            input[1] = fq_add(&input[1], &sum);
            let twice = fq_double(&input[2]);
            input[2] = fq_add(&twice, &sum);
            proof {
                reveal_with_fuel(prefix_sum, 4);
                lemma_residue_self(x[0]);
                lemma_residue_self(x[1]);
                lemma_residue_self(x[2]);
                lemma_residue_add(x[0], x[0] as int, x[1], x[1] as int);
                lemma_residue_add(fadd(x[0], x[1]), (x[0] + x[1]) as int, x[2], x[2] as int);
                let s = fadd(fadd(x[0], x[1]), x[2]);
                lemma_residue_add(x[0], x[0] as int, s, prefix_sum(x, 3));
                lemma_residue_add(x[1], x[1] as int, s, prefix_sum(x, 3));
                lemma_residue_double(x[2], x[2] as int);
                lemma_residue_add(fdouble(x[2]), 2 * (x[2] as int), s, prefix_sum(x, 3));
                assert(diag[0] == 1 && diag[1] == 1 && diag[2] == 2);
                assert(diag[0] * x[0] == x[0]);
                assert(diag[1] * x[1] == x[1]);
                assert(diag[2] * x[2] == 2 * x[2]);
                assert(values(input@)[0] == internal_layer(diag, x)[0]);
                assert(values(input@)[1] == internal_layer(diag, x)[1]);
                assert(values(input@)[2] == internal_layer(diag, x)[2]);
            }
        } else {
            let sum = Self::sum_state(input);
            let mut i: usize = 0;
            while i < T
                invariant
                    i <= T,
                    x.len() == T,
                    diag == self@.diag_m1,
                    self.wf(),
                    sum.wf(),
                    residue_of(sum@, prefix_sum(x, T as nat)),
                    all_wf(input@),
                    forall|k: int| 0 <= k < i ==> values(input@)[k] == internal_layer(diag, x)[k],
                    forall|k: int| i <= k < T ==> values(input@)[k] == x[k],
                decreases T - i,
            {
                let ghost before = *input;
                let scaled = fq_mul(&input[i], &self.mat_internal_diag_m_1[i]);
                input[i] = fq_add(&scaled, &sum);
                proof {
                    let m = self.mat_internal_diag_m_1[i as int];
                    let xi = x[i as int];
                    assert(values(before@)[i as int] == xi);
                    assert(diag[i as int] == m@);
                    lemma_view_reduced(before[i as int]);
                    lemma_view_reduced(m);
                    lemma_residue_self(xi);
                    lemma_residue_self(m@);
                    lemma_residue_mul(xi, xi as int, m@, m@ as int);
                    lemma_residue_add(
                        fmul(xi, m@),
                        (xi as int) * (m@ as int),
                        sum@,
                        prefix_sum(x, T as nat),
                    );
                    assert(xi * m@ == m@ * xi) by (nonlinear_arith);
                    assert forall|k: int| 0 <= k < i + 1 implies values(input@)[k]
                        == internal_layer(diag, x)[k] by {
                        if k < i {
                            assert(input[k] == before[k]);
                            assert(values(before@)[k] == internal_layer(diag, x)[k]);
                        }
                    }
                    assert forall|k: int| i + 1 <= k < T implies values(input@)[k] == x[k] by {
                        assert(input[k] == before[k]);
                        assert(values(before@)[k] == x[k]);
                    }
                }
                i += 1;
            }
        }
        assert(values(input@) =~= internal_layer(diag, x));
    }

    /// Adds a vector of round constants to the state, element by element.
    pub fn add_rc_external(&self, input: &mut [Fq; T], rc_e: &[Fq; T])
        requires
            all_wf(old(input)@),
            all_wf(rc_e@),
        ensures
            all_wf(final(input)@),
            values(final(input)@) == add_constants(values(old(input)@), values(rc_e@)),
    {
        let ghost x = values(input@);
        let ghost rc = values(rc_e@);
        let mut i: usize = 0;
        while i < T
            invariant
                i <= T,
                x.len() == T,
                rc == values(rc_e@),
                all_wf(input@),
                all_wf(rc_e@),
                forall|k: int| 0 <= k < i ==> values(input@)[k] == fadd(x[k], rc[k]),
                forall|k: int| i <= k < T ==> values(input@)[k] == x[k],
            decreases T - i,
        {
            let ghost before = *input;
            input[i] = fq_add(&input[i], &rc_e[i]);
            proof {
                assert(values(before@)[i as int] == x[i as int]);
                assert forall|k: int| 0 <= k < i + 1 implies values(input@)[k] == fadd(
                    x[k],
                    rc[k],
                ) by {
                    if k < i {
                        assert(input[k] == before[k]);
                        assert(values(before@)[k] == fadd(x[k], rc[k]));
                    }
                }
                assert forall|k: int| i + 1 <= k < T implies values(input@)[k] == x[k] by {
                    assert(input[k] == before[k]);
                    assert(values(before@)[k] == x[k]);
                }
            }
            i += 1;
        }
        assert(values(input@) =~= add_constants(x, rc));
    }

    /// One external round: round constants, the S-box on every element, the
    /// external linear layer.
    pub fn external_round(&self, state: &mut [Fq; T], rc_e: &[Fq; T])
        requires
            self.wf(),
            all_wf(old(state)@),
            all_wf(rc_e@),
        ensures
            all_wf(final(state)@),
            values(final(state)@) == external_round(
                D as nat,
                values(old(state)@),
                values(rc_e@),
            ),
    {
        self.add_rc_external(state, rc_e);
        Self::sbox(state);
        Self::matmul_external(state);
    }

    /// One internal round: a round constant and the S-box on the first
    /// element, then the internal linear layer.
    pub fn internal_round(&self, state: &mut [Fq; T], rc_i: Fq)
        requires
            self.wf(),
            diagonal_fits_width(self@.diag_m1),
            all_wf(old(state)@),
            rc_i.wf(),
        ensures
            all_wf(final(state)@),
            values(final(state)@) == internal_round(
                D as nat,
                self@.diag_m1,
                values(old(state)@),
                rc_i@,
            ),
    {
        let ghost x = values(state@);
        let ghost before = *state;
        let mut first = fq_add(&state[0], &rc_i);
        Self::single_sbox(&mut first);
        state[0] = first;
        proof {
            assert(values(before@)[0] == x[0]);
            assert forall|k: int| 0 <= k < T implies values(state@)[k] == x.update(
                0,
                sbox(D as nat, fadd(x[0], rc_i@)),
            )[k] by {
                if k > 0 {
                    assert(state[k] == before[k]);
                    assert(values(before@)[k] == x[k]);
                }
            }
            assert(values(state@) =~= x.update(0, sbox(D as nat, fadd(x[0], rc_i@))));
        }
        self.matmul_internal(state);
    }

    /// The permutation, on the state in place: the external layer, the first
    /// half of the external rounds, the internal rounds, the second half of
    /// the external rounds.
    pub fn permutation_in_place(&self, state: &mut [Fq; T])
        requires
            self.wf(),
            diagonal_fits_width(self@.diag_m1),
            all_wf(old(state)@),
        ensures
            all_wf(final(state)@),
            values(final(state)@) == permute(D as nat, self@, values(old(state)@)),
    {
        let ghost x = values(state@);
        let ghost params = self@;
        let half = ROUNDS_F / 2;
        // Linear layer at the beginning.
        Self::matmul_external(state);
        let ghost mixed = values(state@);
        // First set of external rounds.
        let mut r: usize = 0;
        while r < half
            invariant
                r <= half,
                half == ROUNDS_F / 2,
                self.wf(),
                params == self@,
                all_wf(state@),
                values(state@) == external_rounds(D as nat, mixed, params.rc_external, 0, r as int),
            decreases half - r,
        {
            self.external_round(state, &self.round_constants_external[r]);
            r += 1;
        }
        let ghost first = values(state@);
        // Internal rounds.
        let mut i: usize = 0;
        while i < ROUNDS_P
            invariant
                i <= ROUNDS_P,
                self.wf(),
                params == self@,
                diagonal_fits_width(params.diag_m1),
                all_wf(state@),
                values(state@) == internal_rounds(
                    D as nat,
                    params.diag_m1,
                    first,
                    params.rc_internal,
                    i as nat,
                ),
            decreases ROUNDS_P - i,
        {
            self.internal_round(state, self.round_constants_internal[i]);
            i += 1;
        }
        let ghost middle = values(state@);
        // Remaining external rounds.
        while r < ROUNDS_F
            invariant
                half <= r <= ROUNDS_F,
                self.wf(),
                params == self@,
                all_wf(state@),
                values(state@) == external_rounds(
                    D as nat,
                    middle,
                    params.rc_external,
                    half as int,
                    r as int,
                ),
            decreases ROUNDS_F - r,
        {
            self.external_round(state, &self.round_constants_external[r]);
            r += 1;
        }
    }

    /// The permutation is a function of the state: two arrays that meet the
    /// contract of `permutation` or of `permutation_in_place` for one input,
    /// from whichever of the two and from whichever call, are the same array.
    pub proof fn lemma_permutation_deterministic(
        &self,
        input: [Fq; T],
        first: [Fq; T],
        second: [Fq; T],
    )
        requires
            all_wf(first@),
            values(first@) == permute(D as nat, self@, values(input@)),
            all_wf(second@),
            values(second@) == permute(D as nat, self@, values(input@)),
        ensures
            first == second,
    {
        lemma_values_injective(first, second);
    }

    /// The permutation of a state, which is left as it is.
    pub fn permutation(&self, input: &[Fq; T]) -> (output: [Fq; T])
        requires
            self.wf(),
            diagonal_fits_width(self@.diag_m1),
            all_wf(input@),
        ensures
            all_wf(output@),
            values(output@) == permute(D as nat, self@, values(input@)),
    {
        let mut state = *input;
        self.permutation_in_place(&mut state);
        state
    }
}

/// `x * x^2` is the third power.
pub proof fn lemma_power_chain_3(x: nat)
    requires
        x < modulus(),
    ensures
        fmul(x, fsquare(x)) == sbox(3, x),
{
    let e = x as int;
    lemma_residue_self(x);
    lemma_residue_square(x, e);
    lemma_residue_mul(x, e, fsquare(x), e * e);
    reveal_with_fuel(pow, 4);
    assert(pow(e, 3) == e * (e * e)) by (nonlinear_arith)
        requires
            pow(e, 3) == e * (e * (e * 1)),
    ;
}

/// `x * (x^2)^2` is the fifth power.
pub proof fn lemma_power_chain_5(x: nat)
    requires
        x < modulus(),
    ensures
        fmul(x, fsquare(fsquare(x))) == sbox(5, x),
{
    let e = x as int;
    lemma_residue_self(x);
    lemma_residue_square(x, e);
    lemma_residue_square(fsquare(x), e * e);
    lemma_residue_mul(x, e, fsquare(fsquare(x)), (e * e) * (e * e));
    reveal_with_fuel(pow, 6);
    assert(pow(e, 5) == e * ((e * e) * (e * e))) by (nonlinear_arith)
        requires
            pow(e, 5) == e * (e * (e * (e * (e * 1)))),
    ;
}

/// `(x * (x^2)^2) * x^2` is the seventh power.
pub proof fn lemma_power_chain_7(x: nat)
    requires
        x < modulus(),
    ensures
        fmul(fmul(x, fsquare(fsquare(x))), fsquare(x)) == sbox(7, x),
{
    let e = x as int;
    lemma_residue_self(x);
    lemma_residue_square(x, e);
    lemma_residue_square(fsquare(x), e * e);
    lemma_residue_mul(x, e, fsquare(fsquare(x)), (e * e) * (e * e));
    lemma_residue_mul(
        fmul(x, fsquare(fsquare(x))),
        e * ((e * e) * (e * e)),
        fsquare(x),
        e * e,
    );
    reveal_with_fuel(pow, 8);
    assert(pow(e, 7) == (e * ((e * e) * (e * e))) * (e * e)) by (nonlinear_arith)
        requires
            pow(e, 7) == e * (e * (e * (e * (e * (e * (e * 1)))))),
    ;
}

/// Adding the reduced sum `s` of a state of width 2 or 3 to the state's
/// element `xi` gives row `i` of the external layer.
proof fn lemma_narrow_sums(x: Seq<nat>, i: int, xi: nat, s: nat)
    requires
        x.len() == 2 || x.len() == 3,
        0 <= i < x.len(),
        xi == x[i],
        xi < modulus(),
        residue_of(s, prefix_sum(x, x.len())),
    ensures
        fadd(xi, s) == external_layer(x)[i],
{
    lemma_residue_self(xi);
    lemma_residue_add(xi, xi as int, s, prefix_sum(x, x.len()));
    lemma_external_row_narrow(x, i);
}

/// The addition chain of the Poseidon2 paper computes the rows of the 4x4
/// MDS matrix: with `t0 = a + b`, `t1 = c + d`, `t2 = 2b + t1`, `t3 = 2d + t0`,
/// `t4 = 4 t1 + t3`, `t5 = 4 t0 + t2`, `t6 = t3 + t5`, `t7 = t2 + t4`, the
/// rows are `t6`, `t5`, `t7`, `t4`.
pub proof fn lemma_m4_chain(a: nat, b: nat, c: nat, d: nat)
    requires
        a < modulus(),
        b < modulus(),
        c < modulus(),
        d < modulus(),
    ensures
        ({
            let t_0 = fadd(a, b);
            let t_1 = fadd(c, d);
            let t_2 = fadd(fdouble(b), t_1);
            let t_3 = fadd(fdouble(d), t_0);
            let t_4 = fadd(fdouble(fdouble(t_1)), t_3);
            let t_5 = fadd(fdouble(fdouble(t_0)), t_2);
            let t_6 = fadd(t_3, t_5);
            let t_7 = fadd(t_2, t_4);
            &&& residue_of(t_6, mds4_dot(0, a, b, c, d))
            &&& residue_of(t_5, mds4_dot(1, a, b, c, d))
            &&& residue_of(t_7, mds4_dot(2, a, b, c, d))
            &&& residue_of(t_4, mds4_dot(3, a, b, c, d))
        }),
{
    let (ea, eb, ec, ed) = (a as int, b as int, c as int, d as int);
    let t_0 = fadd(a, b);
    let t_1 = fadd(c, d);
    let b2 = fdouble(b);
    let d2 = fdouble(d);
    let t_2 = fadd(b2, t_1);
    let t_3 = fadd(d2, t_0);
    let t_1_2 = fdouble(t_1);
    let t_1_4 = fdouble(t_1_2);
    let t_0_2 = fdouble(t_0);
    let t_0_4 = fdouble(t_0_2);
    let t_4 = fadd(t_1_4, t_3);
    let t_5 = fadd(t_0_4, t_2);
    lemma_residue_self(a);
    lemma_residue_self(b);
    lemma_residue_self(c);
    lemma_residue_self(d);
    lemma_residue_add(a, ea, b, eb);
    lemma_residue_add(c, ec, d, ed);
    lemma_residue_double(b, eb);
    lemma_residue_add(b2, 2 * eb, t_1, ec + ed);
    lemma_residue_double(d, ed);
    lemma_residue_add(d2, 2 * ed, t_0, ea + eb);
    lemma_residue_double(t_1, ec + ed);
    lemma_residue_double(t_1_2, 2 * (ec + ed));
    lemma_residue_add(t_1_4, 4 * (ec + ed), t_3, 2 * ed + ea + eb);
    lemma_residue_double(t_0, ea + eb);
    lemma_residue_double(t_0_2, 2 * (ea + eb));
    lemma_residue_add(t_0_4, 4 * (ea + eb), t_2, 2 * eb + ec + ed);
    lemma_residue_add(t_3, 2 * ed + ea + eb, t_5, 4 * (ea + eb) + 2 * eb + ec + ed);
    lemma_residue_add(t_2, 2 * eb + ec + ed, t_4, 4 * (ec + ed) + 2 * ed + ea + eb);
}

} // verus!
