//! What the Montgomery ladder computes, as a recurrence over the scalar's
//! bits.

use crate::curves::group::{add_value, double_value, identity_value, ProjectiveValue};
use vstd::prelude::*;

verus! {

/// Bit `k` of a scalar given as 64-bit words, most significant word first
/// and, within a word, most significant bit first.
pub open spec fn scalar_bit(scalar: Seq<u64>, k: int) -> bool {
    (scalar[k / 64] >> ((63 - k % 64) as u64)) & 1 == 1
}

/// The integer that the words of a scalar spell, most significant word
/// first.
pub open spec fn scalar_value(scalar: Seq<u64>) -> nat
    decreases scalar.len(),
{
    if scalar.len() == 0 {
        0
    } else {
        scalar_value(scalar.drop_last()) * 0x1_0000_0000_0000_0000 + scalar.last() as nat
    }
}

/// One step of the ladder on the pair `(low, high)`: a zero bit doubles
/// `low` and adds it to `high`, a one bit adds `high` to `low` and doubles
/// `high`.
pub open spec fn ladder_step(acc: (ProjectiveValue, ProjectiveValue), bit: bool) -> (
    ProjectiveValue,
    ProjectiveValue,
) {
    if bit {
        (add_value(acc.0, acc.1), double_value(acc.1))
    } else {
        (double_value(acc.0), add_value(acc.1, acc.0))
    }
}

/// The pair that the ladder holds after the first `n` bits of the scalar,
/// starting from the neutral element and the base.
pub open spec fn ladder(scalar: Seq<u64>, base: ProjectiveValue, n: nat) -> (
    ProjectiveValue,
    ProjectiveValue,
)
    decreases n,
{
    if n == 0 {
        (identity_value(), base)
    } else {
        ladder_step(ladder(scalar, base, (n - 1) as nat), scalar_bit(scalar, n - 1))
    }
}

/// The result of the ladder: the lower point after all `64 * len` bits.
pub open spec fn ladder_value(scalar: Seq<u64>, base: ProjectiveValue) -> ProjectiveValue {
    ladder(scalar, base, 64 * scalar.len()).0
}

} // verus!
