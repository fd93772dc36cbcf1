use zk_kernels::field::Fq;
use zk_kernels::masked::{condition_mask, conditional_select_field, conditional_swap_field};

#[test]
fn mask_is_all_ones_or_all_zeros() {
    assert_eq!(condition_mask(true), u64::MAX);
    assert_eq!(condition_mask(false), 0);
}

#[test]
fn select_takes_second_under_full_mask() {
    let mut a = Fq { limbs: [1, 2, 3, 4] };
    let b = Fq { limbs: [5, 6, 7, 8] };
    conditional_select_field(&mut a, b, u64::MAX);
    assert_eq!(a, b);
}

#[test]
fn select_keeps_first_under_zero_mask() {
    let mut a = Fq { limbs: [1, 2, 3, 4] };
    let b = Fq { limbs: [5, 6, 7, 8] };
    conditional_select_field(&mut a, b, 0);
    assert_eq!(a, Fq { limbs: [1, 2, 3, 4] });
}

#[test]
fn swap_exchanges_under_full_mask() {
    let mut a = Fq { limbs: [1, 2, 3, 4] };
    let mut b = Fq { limbs: [5, 6, 7, 8] };
    conditional_swap_field(&mut a, &mut b, u64::MAX);
    assert_eq!(a, Fq { limbs: [5, 6, 7, 8] });
    assert_eq!(b, Fq { limbs: [1, 2, 3, 4] });
}

#[test]
fn swap_keeps_both_under_zero_mask() {
    let mut a = Fq { limbs: [1, 2, 3, 4] };
    let mut b = Fq { limbs: [5, 6, 7, 8] };
    conditional_swap_field(&mut a, &mut b, 0);
    assert_eq!(a, Fq { limbs: [1, 2, 3, 4] });
    assert_eq!(b, Fq { limbs: [5, 6, 7, 8] });
}

#[test]
fn partial_mask_blends_bitwise() {
    let mut a = Fq { limbs: [0x00ff, 0, 0, 0] };
    let b = Fq { limbs: [0xff00, 0, 0, 0] };
    conditional_select_field(&mut a, b, 0x0ff0);
    assert_eq!(a.limbs[0], 0x0f0f);
}
