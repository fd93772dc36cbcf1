use ark_bn254::Fr as BaseField;
use ark_ec::twisted_edwards::{Affine, MontCurveConfig, Projective, TECurveConfig};
use ark_ec::{AdditiveGroup, CurveConfig, CurveGroup};
use ark_ff::{BigInt, Fp, MontBackend, MontConfig, One, PrimeField, Zero};
use std::str::FromStr;
use zk_kernels::curves::group::{
    coeff_a_element, coeff_d_element, conditional_select, conditional_swap, EdwardsAffine,
    EdwardsProjective,
};
use zk_kernels::curves::{EdwardsConfig, LadderCounts};
use zk_kernels::field::Fq;

/// The scalar field of the curve, for the reference implementation.
struct ScalarConfig;

impl MontConfig<4> for ScalarConfig {
    const MODULUS: BigInt<4> = BigInt::new([0x677297dc392126f1, 0xab3eedb83920ee0a, 0x370a08b6d0302b0b, 0x060c89ce5c263405]);
    const GENERATOR: Fp<MontBackend<Self, 4>, 4> = Fp::new(BigInt::new([31, 0, 0, 0]));
    const TWO_ADIC_ROOT_OF_UNITY: Fp<MontBackend<Self, 4>, 4> =
        Fp::new(BigInt::new([0xdaf49a41ac514473, 0x3fe66e76e0a41338, 0x904adf8e5a770f6e, 0x017607cccda766fb]));
}

type ScalarField = Fp<MontBackend<ScalarConfig, 4>, 4>;

/// The curve with the group law and the variable-time double-and-add of
/// `ark_ec`, to hold the library against.
struct Reference;

impl CurveConfig for Reference {
    type BaseField = BaseField;
    type ScalarField = ScalarField;
    const COFACTOR: &'static [u64] = &[8];
    const COFACTOR_INV: ScalarField = Fp::new(BigInt::new([0x1a8444e0b1fd0213, 0x35d7100131fcd049, 0x9028c79ff62a25aa, 0x054af89490a16d84]));
}

impl TECurveConfig for Reference {
    const COEFF_A: BaseField = Fp::new(BigInt::new([168700, 0, 0, 0]));
    const COEFF_D: BaseField = Fp::new(BigInt::new([168696, 0, 0, 0]));
    const GENERATOR: Affine<Self> = Affine::new_unchecked(
        Fp::new(BigInt::new([0x2893f3f6bb957051, 0x2ab8d8010534e0b6, 0x4eacb2e09d6277c1, 0x0bb77a6ad63e739b])),
        Fp::new(BigInt::new([0x4b3c257a872d7d8b, 0xfce0051fb9e13377, 0x25572e1cd16bf9ed, 0x25797203f7a0b249])),
    );
    type MontCurveConfig = Reference;
}

impl MontCurveConfig for Reference {
    const COEFF_A: BaseField = Fp::new(BigInt::new([168698, 0, 0, 0]));
    const COEFF_B: BaseField = Fp::new(BigInt::new([1, 0, 0, 0]));
    type TECurveConfig = Reference;
}

fn to_field(x: &Fq) -> BaseField {
    BaseField::new_unchecked(BigInt(x.limbs))
}

fn from_field(x: BaseField) -> Fq {
    Fq { limbs: x.0 .0 }
}

fn to_reference(p: &EdwardsProjective) -> Projective<Reference> {
    Projective::new_unchecked(to_field(&p.x), to_field(&p.y), to_field(&p.t), to_field(&p.z))
}

fn from_reference(p: &Projective<Reference>) -> EdwardsProjective {
    EdwardsProjective {
        x: from_field(p.x),
        y: from_field(p.y),
        t: from_field(p.t),
        z: from_field(p.z),
    }
}

fn coordinates(p: &EdwardsProjective) -> [Fq; 4] {
    [p.x, p.y, p.t, p.z]
}

fn generator() -> EdwardsProjective {
    EdwardsProjective::from_affine(&EdwardsConfig::generator())
}

/// Pseudo-random words from a fixed seed.
fn words(seed: u64, n: usize) -> Vec<u64> {
    let mut s = seed.wrapping_mul(0x9e37_79b9_7f4a_7c15) | 1;
    let mut out = Vec::new();
    for _ in 0..n {
        s ^= s << 13;
        s ^= s >> 7;
        s ^= s << 17;
        out.push(s);
    }
    out
}

/// The words of a scalar in the order `ark_ec` reads them: least
/// significant first.
fn little_endian(scalar: &[u64]) -> Vec<u64> {
    scalar.iter().rev().copied().collect()
}

/// Some points of the curve, not all with `z = 1`.
fn points() -> Vec<EdwardsProjective> {
    let g = generator();
    let g2 = g.double();
    let g3 = g2.add(&g);
    let g5 = g3.add(&g2);
    let g10 = g5.double();
    vec![g, g2, g3, g5, g10, EdwardsProjective::zero()]
}

#[test]
fn generator_is_the_stated_point_of_the_curve() {
    let g = EdwardsConfig::generator();
    assert_eq!(
        to_field(&g.x),
        BaseField::from_str("5299619240641551281634865583518297030282874472190772894086521144482721001553").unwrap()
    );
    assert_eq!(
        to_field(&g.y),
        BaseField::from_str("16950150798460657717958625567821834550301663161624707787222815936182638968203").unwrap()
    );
    let reference = Affine::<Reference>::new_unchecked(to_field(&g.x), to_field(&g.y));
    assert!(reference.is_on_curve());
    assert!(reference.is_in_correct_subgroup_assuming_on_curve());
    assert!(g.x.is_reduced() && g.y.is_reduced());
}

#[test]
fn coefficients_are_the_stated_values() {
    assert_eq!(to_field(&coeff_a_element()), BaseField::from(168700u64));
    assert_eq!(to_field(&coeff_d_element()), BaseField::from(168696u64));
    assert_eq!(to_field(&EdwardsConfig::montgomery_coeff_a()), BaseField::from(168698u64));
    assert_eq!(to_field(&EdwardsConfig::montgomery_coeff_b()), BaseField::from(1u64));
    assert_eq!(EdwardsConfig::cofactor(), 8);
}

#[test]
fn cofactor_inverse_inverts_the_cofactor() {
    let inverse = ScalarField::from_bigint(BigInt(EdwardsConfig::cofactor_inv())).unwrap();
    assert_eq!(
        inverse,
        ScalarField::from_str("2394026564107420727433200628387514462817212225638746351800188703329891451411").unwrap()
    );
    assert_eq!(inverse * ScalarField::from(8u64), ScalarField::one());
}

#[test]
fn field_constants_are_zero_one_two() {
    assert_eq!(to_field(&Fq::zero()), BaseField::zero());
    assert_eq!(to_field(&Fq::one()), BaseField::one());
    assert_eq!(to_field(&Fq::two()), BaseField::from(2u64));
    assert!(Fq::one().same_as(&Fq::one()));
    assert!(!Fq::one().same_as(&Fq::two()));
}

#[test]
fn reducedness_is_decided_at_the_field_order() {
    let order = [0x43e1f593f0000001, 0x2833e84879b97091, 0xb85045b68181585d, 0x30644e72e131a029];
    assert!(!Fq { limbs: order }.is_reduced());
    assert!(Fq { limbs: [order[0] - 1, order[1], order[2], order[3]] }.is_reduced());
    assert!(!Fq { limbs: [order[0] + 1, order[1], order[2], order[3]] }.is_reduced());
    assert!(!Fq { limbs: [0, 0, 0, order[3] + 1] }.is_reduced());
    assert!(Fq { limbs: [u64::MAX, u64::MAX, u64::MAX, order[3] - 1] }.is_reduced());
    assert!(!Fq { limbs: [u64::MAX; 4] }.is_reduced());
    assert!(Fq { limbs: [0; 4] }.is_reduced());
}

#[test]
fn zero_is_the_neutral_element() {
    let zero = EdwardsProjective::zero();
    assert_eq!(coordinates(&zero), [Fq::zero(), Fq::one(), Fq::zero(), Fq::one()]);
    assert!(to_reference(&zero).is_zero());
}

#[test]
fn affine_points_get_z_one_and_t_the_product() {
    let g = EdwardsConfig::generator();
    let p = EdwardsProjective::from_affine(&g);
    let reference: Projective<Reference> =
        Affine::<Reference>::new_unchecked(to_field(&g.x), to_field(&g.y)).into();
    assert_eq!(coordinates(&p), coordinates(&from_reference(&reference)));
    assert_eq!(p.z, Fq::one());
    assert_eq!(to_field(&p.t), to_field(&g.x) * to_field(&g.y));
}

#[test]
fn addition_has_the_coordinates_of_the_reference() {
    for p in points() {
        for q in points() {
            let sum = p.add(&q);
            let reference = to_reference(&p) + to_reference(&q);
            assert_eq!(coordinates(&sum), coordinates(&from_reference(&reference)));
        }
    }
}

#[test]
fn addition_of_the_generator_to_itself_in_numbers() {
    let g = generator();
    let sum = g.add(&g);
    let x = to_field(&sum.x) / to_field(&sum.z);
    let y = to_field(&sum.y) / to_field(&sum.z);
    assert_eq!(
        x,
        BaseField::from_str("10031262171927540148667355526369034398030886437092045105752248699557385197826").unwrap()
    );
    assert_eq!(
        y,
        BaseField::from_str("633281375905621697187330766174974863687049529291089048651929454608812697683").unwrap()
    );
}

#[test]
fn doubling_has_the_coordinates_of_the_reference() {
    for p in points() {
        let twice = p.double();
        let mut reference = to_reference(&p);
        reference.double_in_place();
        assert_eq!(coordinates(&twice), coordinates(&from_reference(&reference)));
    }
}

#[test]
fn neutral_element_is_recognised() {
    for p in points() {
        assert_eq!(p.is_zero(), to_reference(&p).is_zero());
        let shifted = p.add(&generator());
        assert_eq!(shifted.is_zero(), to_reference(&shifted).is_zero());
    }
    assert!(EdwardsProjective::zero().is_zero());
    assert!(EdwardsProjective::zero().double().is_zero());
    assert!(!generator().is_zero());
    let no_point = EdwardsProjective { x: Fq::zero(), y: Fq::zero(), t: Fq::zero(), z: Fq::zero() };
    assert!(!no_point.is_zero());
}

#[test]
fn same_points_are_recognised_across_representatives() {
    let all = points();
    for (i, p) in all.iter().enumerate() {
        for (j, q) in all.iter().enumerate() {
            assert_eq!(p.same_point_as(q), i == j);
            assert_eq!(p.same_point_as(q), to_reference(p) == to_reference(q));
        }
        let other = p.add(&EdwardsProjective::zero().double());
        assert!(p.same_point_as(&other));
    }
}

#[test]
fn swap_and_select_on_points() {
    let g = generator();
    let h = g.double();
    let (mut a, mut b) = (g, h);
    conditional_swap(&mut a, &mut b, false);
    assert_eq!(coordinates(&a), coordinates(&g));
    assert_eq!(coordinates(&b), coordinates(&h));
    conditional_swap(&mut a, &mut b, true);
    assert_eq!(coordinates(&a), coordinates(&h));
    assert_eq!(coordinates(&b), coordinates(&g));
    conditional_select(&mut a, &b, false);
    assert_eq!(coordinates(&a), coordinates(&h));
    conditional_select(&mut a, &b, true);
    assert_eq!(coordinates(&a), coordinates(&g));
}

#[test]
fn ladder_agrees_with_double_and_add() {
    for (i, base) in points().iter().enumerate() {
        for seed in 1..21u64 {
            let mut scalar = words(seed + 100 * i as u64, 4);
            scalar[0] &= 0x05ff_ffff_ffff_ffff;
            let ours = EdwardsConfig::mul_projective(base, &scalar);
            let reference = Reference::mul_projective(&to_reference(base), &little_endian(&scalar));
            assert_eq!(to_reference(&ours), reference);
            assert_eq!(to_reference(&ours).into_affine(), reference.into_affine());
        }
    }
}

#[test]
fn ladder_agrees_with_double_and_add_on_scalars_of_any_length() {
    let base = generator();
    for n in 0..7usize {
        for seed in 1..6u64 {
            let scalar = words(seed, n);
            let ours = EdwardsConfig::mul_projective(&base, &scalar);
            let reference = Reference::mul_projective(&to_reference(&base), &little_endian(&scalar));
            assert_eq!(to_reference(&ours), reference);
        }
    }
}

#[test]
fn small_multiples_of_the_generator() {
    let base = generator();
    let mut expected = Projective::<Reference>::zero();
    for k in 0..40u64 {
        let ours = EdwardsConfig::mul_projective(&base, &[k]);
        assert_eq!(to_reference(&ours), expected);
        expected += to_reference(&base);
    }
}

#[test]
fn multiple_by_zero_is_the_neutral_element() {
    for base in points() {
        for scalar in [vec![], vec![0u64], vec![0u64; 4]] {
            let ours = EdwardsConfig::mul_projective(&base, &scalar);
            assert!(ours.is_zero());
            assert!(to_reference(&ours).is_zero());
            assert!(ours.x.same_as(&Fq::zero()));
            assert!(ours.t.same_as(&Fq::zero()));
            assert!(ours.y.same_as(&ours.z));
            assert!(!ours.y.same_as(&Fq::zero()));
        }
    }
    let ours = EdwardsConfig::mul_projective(&generator(), &[]);
    assert_eq!(coordinates(&ours), coordinates(&EdwardsProjective::zero()));
}

#[test]
fn multiple_by_one_is_the_base() {
    for base in points() {
        for scalar in [vec![1u64], vec![0, 1], vec![0, 0, 0, 1]] {
            let ours = EdwardsConfig::mul_projective(&base, &scalar);
            assert!(ours.same_point_as(&base));
            assert_eq!(to_reference(&ours), to_reference(&base));
        }
    }
    let g = generator();
    let ours = EdwardsConfig::mul_projective(&g, &[0, 0, 0, 1]);
    assert_eq!(coordinates(&ours), coordinates(&g));
}

#[test]
fn words_come_most_significant_first() {
    let base = generator();
    let ours = EdwardsConfig::mul_projective(&base, &[1, 0]);
    let shifted = Reference::mul_projective(&to_reference(&base), &[0, 1]);
    assert_eq!(to_reference(&ours), shifted);
    assert_ne!(to_reference(&ours), to_reference(&base));
    let ours = EdwardsConfig::mul_projective(&base, &[0, 2]);
    let mut twice = to_reference(&base);
    twice.double_in_place();
    assert_eq!(to_reference(&ours), twice);
}

#[test]
fn leading_zero_words_do_not_change_the_point() {
    let base = generator();
    for seed in 1..6u64 {
        let scalar = words(seed, 2);
        let mut padded = vec![0u64, 0];
        padded.extend_from_slice(&scalar);
        let short = EdwardsConfig::mul_projective(&base, &scalar);
        let long = EdwardsConfig::mul_projective(&base, &padded);
        assert_eq!(to_reference(&short), to_reference(&long));
    }
}

#[test]
fn multiples_add_up() {
    let base = generator();
    for seed in 1..21u64 {
        let a = words(seed, 3);
        let b = words(seed + 1000, 3);
        let mut sum = vec![0u64; 4];
        let mut carry = 0u128;
        for i in (0..3).rev() {
            let s = a[i] as u128 + b[i] as u128 + carry;
            sum[i + 1] = s as u64;
            carry = s >> 64;
        }
        sum[0] = carry as u64;
        let pa = EdwardsConfig::mul_projective(&base, &a);
        let pb = EdwardsConfig::mul_projective(&base, &b);
        let pc = EdwardsConfig::mul_projective(&base, &sum);
        assert_eq!(to_reference(&pa.add(&pb)), to_reference(&pc));
    }
}

#[test]
fn the_subgroup_order_sends_the_generator_to_the_neutral_element() {
    let order = [0x060c89ce5c263405, 0x370a08b6d0302b0b, 0xab3eedb83920ee0a, 0x677297dc392126f1];
    let ours = EdwardsConfig::mul_projective(&generator(), &order);
    assert!(to_reference(&ours).is_zero());
    let mut less_one = order;
    less_one[3] -= 1;
    let ours = EdwardsConfig::mul_projective(&generator(), &less_one);
    assert_eq!(to_reference(&ours), -to_reference(&generator()));
}

#[test]
fn operation_counts_depend_on_the_length_alone() {
    let base = generator();
    for n in 0..6usize {
        let expected = LadderCounts {
            swaps: 64 * n as u128,
            selects: 1,
            additions: 64 * n as u128,
            doublings: 64 * n as u128,
        };
        let (_, zeros) = EdwardsConfig::mul_projective_counted(&base, &vec![0u64; n]);
        let (_, ones) = EdwardsConfig::mul_projective_counted(&base, &vec![u64::MAX; n]);
        assert_eq!(zeros, expected);
        assert_eq!(ones, expected);
        for seed in 1..11u64 {
            let (_, counts) = EdwardsConfig::mul_projective_counted(&base, &words(seed, n));
            assert_eq!(counts, expected);
        }
    }
}

#[test]
fn counted_and_plain_multiplication_agree() {
    let base = generator().double();
    for seed in 1..6u64 {
        let scalar = words(seed, 4);
        let (counted, _) = EdwardsConfig::mul_projective_counted(&base, &scalar);
        let plain = EdwardsConfig::mul_projective(&base, &scalar);
        assert_eq!(coordinates(&counted), coordinates(&plain));
    }
}

#[test]
fn affine_multiplication_is_projective_multiplication() {
    let g = EdwardsConfig::generator();
    for seed in 1..11u64 {
        let scalar = words(seed, 4);
        let from_affine = EdwardsConfig::mul_affine(&g, &scalar);
        let from_projective =
            EdwardsConfig::mul_projective(&EdwardsProjective::from_affine(&g), &scalar);
        assert_eq!(coordinates(&from_affine), coordinates(&from_projective));
        let reference = Reference::mul_affine(
            &Affine::<Reference>::new_unchecked(to_field(&g.x), to_field(&g.y)),
            &little_endian(&scalar),
        );
        assert_eq!(to_reference(&from_affine), reference);
    }
}

#[test]
fn sums_doubles_and_multiples_stay_on_the_curve() {
    let on_curve = |p: &EdwardsProjective| {
        let (x, y, t, z) = (to_field(&p.x), to_field(&p.y), to_field(&p.t), to_field(&p.z));
        let a = BaseField::from(168700u64);
        let d = BaseField::from(168696u64);
        a * x * x + y * y == z * z + d * t * t && x * y == z * t
    };
    for p in points() {
        assert!(on_curve(&p));
        assert!(on_curve(&p.double()));
        for q in points() {
            assert!(on_curve(&p.add(&q)));
        }
        for seed in 1..6u64 {
            let r = EdwardsConfig::mul_projective(&p, &words(seed, 4));
            assert!(on_curve(&r));
            assert!(to_reference(&r).into_affine().is_on_curve());
        }
    }
}

#[test]
fn results_are_reduced() {
    let base = generator();
    for seed in 1..6u64 {
        let r = EdwardsConfig::mul_projective(&base, &words(seed, 4));
        for c in coordinates(&r).iter() {
            assert!(c.is_reduced());
        }
    }
}

#[test]
fn config_is_a_unit_value() {
    assert_eq!(EdwardsConfig, EdwardsConfig::default());
    let copy = EdwardsConfig;
    assert_eq!(copy.clone(), EdwardsConfig);
    let affine = EdwardsAffine { x: Fq::zero(), y: Fq::one() };
    assert_eq!(affine, EdwardsAffine { x: Fq::zero(), y: Fq::one() });
}
