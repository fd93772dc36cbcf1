//! Instances of the permutation over the BN254 scalar field, one for each
//! supported width, with the tables of the Poseidon2 parameter generation.

pub mod t2;
pub mod t3;
pub mod t4;

use crate::field::{all_wf, Fq};
use vstd::prelude::*;

verus! {

/// Copies a block of eight constants to its place in a table of 56.
pub(crate) fn place_block(table: &mut [Fq; 56], block: &[Fq; 8], at: usize)
    requires
        at + 8 <= 56,
        all_wf(old(table)@),
        all_wf(block@),
    ensures
        all_wf(final(table)@),
        forall|k: int|
            0 <= k < 56 && !(at <= k < at + 8) ==> final(table)[k] == old(table)[k],
        forall|k: int| 0 <= k < 8 ==> final(table)[at + k] == block[k],
{
    let mut i: usize = 0;
    while i < 8
        invariant
            i <= 8,
            at + 8 <= 56,
            all_wf(table@),
            all_wf(block@),
            forall|k: int| 0 <= k < 56 && !(at <= k < at + i) ==> table[k] == old(table)[k],
            forall|k: int| 0 <= k < i ==> table[at + k] == block[k],
        decreases 8 - i,
    {
        table[at + i] = block[i];
        i += 1;
    }
}

} // verus!
