//! Select and swap under a word-wide mask, limb by limb and without a branch
//! on the condition.

use crate::field::Fq;
use vstd::prelude::*;

verus! {

/// `b` where the bits of `mask` are set, `a` elsewhere.
pub open spec fn blend(a: u64, b: u64, mask: u64) -> u64 {
    a ^ (mask & (a ^ b))
}

/// The mask of a condition: all ones for `true`, all zeros for `false`.
pub open spec fn mask_of(c: bool) -> u64 {
    if c {
        u64::MAX
    } else {
        0
    }
}

/// Computes the mask of a condition by arithmetic alone.
pub fn condition_mask(c: bool) -> (mask: u64)
    ensures
        mask == mask_of(c),
{
    0u64.wrapping_sub(c as u64)
}

/// A blend under the all-zeros mask keeps the first word, one under the
/// all-ones mask takes the second.
pub proof fn lemma_blend_full_masks(a: u64, b: u64)
    ensures
        blend(a, b, 0) == a,
        blend(a, b, u64::MAX) == b,
{
    assert(a ^ (0u64 & (a ^ b)) == a) by (bit_vector);
    assert(a ^ (0xffff_ffff_ffff_ffffu64 & (a ^ b)) == b) by (bit_vector);
}

/// Sets `a` to `b` where the bits of `mask` are set: to `b` under the
/// all-ones mask, and leaves it under the all-zeros mask.
pub fn conditional_select_field(a: &mut Fq, b: Fq, mask: u64)
    ensures
        forall|i: int|
            0 <= i < 4 ==> #[trigger] final(a).limbs[i] == blend(
                old(a).limbs[i],
                b.limbs[i],
                mask,
            ),
        mask == 0 ==> *final(a) == *old(a),
        mask == u64::MAX ==> *final(a) == b,
{
    let ghost before = *a;
    a.limbs[0] ^= mask & (a.limbs[0] ^ b.limbs[0]);
    a.limbs[1] ^= mask & (a.limbs[1] ^ b.limbs[1]);
    a.limbs[2] ^= mask & (a.limbs[2] ^ b.limbs[2]);
    a.limbs[3] ^= mask & (a.limbs[3] ^ b.limbs[3]);
    proof {
        assert forall|i: int| 0 <= i < 4 implies (mask == 0 ==> a.limbs[i] == before.limbs[i])
            && (mask == u64::MAX ==> a.limbs[i] == b.limbs[i]) by {
            lemma_blend_full_masks(before.limbs[i], b.limbs[i]);
        }
        if mask == 0 {
            assert(a.limbs =~= before.limbs);
        }
        if mask == u64::MAX {
            assert(a.limbs =~= b.limbs);
        }
    }
}

/// Exchanges `a` and `b` where the bits of `mask` are set: exchanges them
/// under the all-ones mask, and leaves both under the all-zeros mask.
pub fn conditional_swap_field(a: &mut Fq, b: &mut Fq, mask: u64)
    ensures
        forall|i: int|
            0 <= i < 4 ==> #[trigger] final(a).limbs[i] == blend(
                old(a).limbs[i],
                old(b).limbs[i],
                mask,
            ),
        forall|i: int|
            0 <= i < 4 ==> #[trigger] final(b).limbs[i] == blend(
                old(b).limbs[i],
                old(a).limbs[i],
                mask,
            ),
        mask == 0 ==> *final(a) == *old(a) && *final(b) == *old(b),
        mask == u64::MAX ==> *final(a) == *old(b) && *final(b) == *old(a),
{
    let ghost a0 = *a;
    let ghost b0 = *b;
    let swap = mask & (a.limbs[0] ^ b.limbs[0]);
    a.limbs[0] ^= swap;
    b.limbs[0] ^= swap;
    let swap = mask & (a.limbs[1] ^ b.limbs[1]);
    a.limbs[1] ^= swap;
    b.limbs[1] ^= swap;
    let swap = mask & (a.limbs[2] ^ b.limbs[2]);
    a.limbs[2] ^= swap;
    b.limbs[2] ^= swap;
    let swap = mask & (a.limbs[3] ^ b.limbs[3]);
    a.limbs[3] ^= swap;
    b.limbs[3] ^= swap;
    proof {
        assert forall|i: int| 0 <= i < 4 implies b.limbs[i] == blend(
            b0.limbs[i],
            a0.limbs[i],
            mask,
        ) by {
            lemma_blend_commutes(a0.limbs[i], b0.limbs[i], mask);
        }
        assert forall|i: int| 0 <= i < 4 implies (mask == 0 ==> a.limbs[i] == a0.limbs[i]
            && b.limbs[i] == b0.limbs[i]) && (mask == u64::MAX ==> a.limbs[i] == b0.limbs[i]
            && b.limbs[i] == a0.limbs[i]) by {
            lemma_blend_full_masks(a0.limbs[i], b0.limbs[i]);
            lemma_blend_full_masks(b0.limbs[i], a0.limbs[i]);
        }
        if mask == 0 {
            assert(a.limbs =~= a0.limbs);
            assert(b.limbs =~= b0.limbs);
        }
        if mask == u64::MAX {
            assert(a.limbs =~= b0.limbs);
            assert(b.limbs =~= a0.limbs);
        }
    }
}

/// The word that a swap leaves in `b` is the blend of `b` with `a`.
proof fn lemma_blend_commutes(a: u64, b: u64, mask: u64)
    ensures
        b ^ (mask & (a ^ b)) == blend(b, a, mask),
{
    assert(b ^ (mask & (a ^ b)) == b ^ (mask & (b ^ a))) by (bit_vector);
}

} // verus!
