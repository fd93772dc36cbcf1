use ark_bn254::Fr;
use ark_ff::{BigInt, PrimeField};
use std::str::FromStr;
use zk_kernels::field::Fq;
use zk_kernels::poseidon2::bn254::{t2, t3, t4};
use zk_kernels::poseidon2::perm::{ConfigError, Poseidon2Permutation};

fn fq(decimal: &str) -> Fq {
    Fq { limbs: Fr::from_str(decimal).unwrap().0 .0 }
}

fn small(v: u64) -> Fq {
    Fq { limbs: Fr::from(v).0 .0 }
}

fn decimal(x: &Fq) -> String {
    Fr::new_unchecked(BigInt(x.limbs)).into_bigint().to_string()
}

fn decimals<const N: usize>(x: &[Fq; N]) -> Vec<String> {
    x.iter().map(decimal).collect()
}

/// A state of pseudo-random field elements from a fixed seed.
fn sample<const N: usize>(seed: u64) -> [Fq; N] {
    let mut s = seed;
    let mut out = [small(0); N];
    for e in out.iter_mut() {
        let mut limbs = [0u64; 4];
        for l in limbs.iter_mut() {
            s ^= s << 13;
            s ^= s >> 7;
            s ^= s << 17;
            *l = s;
        }
        limbs[3] &= 0x0fff_ffff_ffff_ffff;
        *e = Fq { limbs: Fr::from_bigint(BigInt(limbs)).unwrap().0 .0 };
    }
    out
}

#[test]
fn external_layer_width_2() {
    let mut state: [Fq; 2] = [small(1), fq("21888242871839275222246405745257275088548364400416034343698204186575808495616")];
    Poseidon2Permutation::<2, 5, 8, 56>::matmul_external(&mut state);
    let expected: [Fq; 2] = [
        fq("1"),
        fq("21888242871839275222246405745257275088548364400416034343698204186575808495616"),
    ];
    assert_eq!(state, expected);
}

#[test]
fn external_layer_width_3() {
    let mut state: [Fq; 3] = [small(1), small(2), fq("21888242871839275222246405745257275088548364400416034343698204186575808495616")];
    Poseidon2Permutation::<3, 5, 8, 56>::matmul_external(&mut state);
    let expected: [Fq; 3] = [
        fq("3"),
        fq("4"),
        fq("1"),
    ];
    assert_eq!(state, expected);
}

#[test]
fn external_layer_width_4() {
    let mut state: [Fq; 4] = [small(1), small(2), small(3), fq("21888242871839275222246405745257275088548364400416034343698204186575808495616")];
    Poseidon2Permutation::<4, 5, 8, 56>::matmul_external(&mut state);
    let expected: [Fq; 4] = [
        fq("19"),
        fq("18"),
        fq("15"),
        fq("9"),
    ];
    assert_eq!(state, expected);
}

#[test]
fn external_layer_width_8() {
    let mut state: [Fq; 8] = [small(1), small(2), small(3), small(4), small(5), small(6), small(7), fq("21888242871839275222246405745257275088548364400416034343698204186575808495616")];
    Poseidon2Permutation::<8, 5, 8, 56>::matmul_external(&mut state);
    let expected: [Fq; 8] = [
        fq("139"),
        fq("108"),
        fq("151"),
        fq("111"),
        fq("176"),
        fq("147"),
        fq("152"),
        fq("105"),
    ];
    assert_eq!(state, expected);
}

#[test]
fn external_layer_width_12() {
    let mut state: [Fq; 12] = [small(1), small(2), small(3), small(4), small(5), small(6), small(7), small(8), small(9), small(10), small(11), fq("21888242871839275222246405745257275088548364400416034343698204186575808495616")];
    Poseidon2Permutation::<12, 5, 8, 56>::matmul_external(&mut state);
    let expected: [Fq; 12] = [
        fq("289"),
        fq("223"),
        fq("301"),
        fq("222"),
        fq("353"),
        fq("271"),
        fq("365"),
        fq("270"),
        fq("378"),
        fq("306"),
        fq("338"),
        fq("240"),
    ];
    assert_eq!(state, expected);
}

#[test]
fn external_layer_width_16() {
    let mut state: [Fq; 16] = [small(1), small(2), small(3), small(4), small(5), small(6), small(7), small(8), small(9), small(10), small(11), small(12), small(13), small(14), small(15), fq("21888242871839275222246405745257275088548364400416034343698204186575808495616")];
    Poseidon2Permutation::<16, 5, 8, 56>::matmul_external(&mut state);
    let expected: [Fq; 16] = [
        fq("503"),
        fq("386"),
        fq("515"),
        fq("381"),
        fq("567"),
        fq("434"),
        fq("579"),
        fq("429"),
        fq("631"),
        fq("482"),
        fq("643"),
        fq("477"),
        fq("644"),
        fq("513"),
        fq("588"),
        fq("423"),
    ];
    assert_eq!(state, expected);
}

#[test]
fn external_layer_width_20() {
    let mut state: [Fq; 20] = [small(1), small(2), small(3), small(4), small(5), small(6), small(7), small(8), small(9), small(10), small(11), small(12), small(13), small(14), small(15), small(16), small(17), small(18), small(19), fq("21888242871839275222246405745257275088548364400416034343698204186575808495616")];
    Poseidon2Permutation::<20, 5, 8, 56>::matmul_external(&mut state);
    let expected: [Fq; 20] = [
        fq("781"),
        fq("597"),
        fq("793"),
        fq("588"),
        fq("845"),
        fq("645"),
        fq("857"),
        fq("636"),
        fq("909"),
        fq("693"),
        fq("921"),
        fq("684"),
        fq("973"),
        fq("741"),
        fq("985"),
        fq("732"),
        fq("974"),
        fq("768"),
        fq("902"),
        fq("654"),
    ];
    assert_eq!(state, expected);
}

#[test]
fn external_layer_width_24() {
    let mut state: [Fq; 24] = [small(1), small(2), small(3), small(4), small(5), small(6), small(7), small(8), small(9), small(10), small(11), small(12), small(13), small(14), small(15), small(16), small(17), small(18), small(19), small(20), small(21), small(22), small(23), fq("21888242871839275222246405745257275088548364400416034343698204186575808495616")];
    Poseidon2Permutation::<24, 5, 8, 56>::matmul_external(&mut state);
    let expected: [Fq; 24] = [
        fq("1123"),
        fq("856"),
        fq("1135"),
        fq("843"),
        fq("1187"),
        fq("904"),
        fq("1199"),
        fq("891"),
        fq("1251"),
        fq("952"),
        fq("1263"),
        fq("939"),
        fq("1315"),
        fq("1000"),
        fq("1327"),
        fq("987"),
        fq("1379"),
        fq("1048"),
        fq("1391"),
        fq("1035"),
        fq("1368"),
        fq("1071"),
        fq("1280"),
        fq("933"),
    ];
    assert_eq!(state, expected);
}

#[test]
fn external_layer_width_4_is_the_mds_matrix() {
    let matrix: [[u64; 4]; 4] = [[5, 7, 1, 3], [4, 6, 1, 1], [1, 3, 5, 7], [1, 1, 4, 6]];
    for column in 0..4 {
        let mut state = [small(0); 4];
        state[column] = small(1);
        Poseidon2Permutation::<4, 5, 8, 56>::matmul_external(&mut state);
        for row in 0..4 {
            assert_eq!(state[row], small(matrix[row][column]));
        }
    }
}

#[test]
fn external_layer_width_8_doubles_the_own_block() {
    let matrix: [[u64; 4]; 4] = [[5, 7, 1, 3], [4, 6, 1, 1], [1, 3, 5, 7], [1, 1, 4, 6]];
    for column in 0..8 {
        let mut state = [small(0); 8];
        state[column] = small(1);
        Poseidon2Permutation::<8, 5, 8, 57>::matmul_external(&mut state);
        for row in 0..8 {
            let entry = matrix[row % 4][column % 4];
            let factor = if row / 4 == column / 4 { 2 } else { 1 };
            assert_eq!(state[row], small(factor * entry));
        }
    }
}

#[test]
fn internal_layer_width_2() {
    let perm = Poseidon2Permutation::<2, 5, 2, 1>::new(
        [small(1), small(2)],
        [
            [small(1000), small(1001)],
            [small(2000), small(2001)],
        ],
        [small(77)],
    )
    .unwrap();
    assert!(perm.diagonal_fits());
    let mut state: [Fq; 2] = [fq("21888242871839275222246405745257275088548364400416034343698204186575808495616"), small(8)];
    perm.matmul_internal(&mut state);
    let expected: [Fq; 2] = [
        fq("6"),
        fq("23"),
    ];
    assert_eq!(state, expected);
}

#[test]
fn internal_layer_width_3() {
    let perm = Poseidon2Permutation::<3, 5, 2, 1>::new(
        [small(1), small(1), small(2)],
        [
            [small(1000), small(1001), small(1002)],
            [small(2000), small(2001), small(2002)],
        ],
        [small(77)],
    )
    .unwrap();
    assert!(perm.diagonal_fits());
    let mut state: [Fq; 3] = [fq("21888242871839275222246405745257275088548364400416034343698204186575808495616"), small(8), small(11)];
    perm.matmul_internal(&mut state);
    let expected: [Fq; 3] = [
        fq("17"),
        fq("26"),
        fq("40"),
    ];
    assert_eq!(state, expected);
}

#[test]
fn internal_layer_width_4() {
    let perm = Poseidon2Permutation::<4, 5, 2, 1>::new(
        [small(3), small(10), small(17), small(24)],
        [
            [small(1000), small(1001), small(1002), small(1003)],
            [small(2000), small(2001), small(2002), small(2003)],
        ],
        [small(77)],
    )
    .unwrap();
    assert!(perm.diagonal_fits());
    let mut state: [Fq; 4] = [fq("21888242871839275222246405745257275088548364400416034343698204186575808495616"), small(8), small(11), small(14)];
    perm.matmul_internal(&mut state);
    let expected: [Fq; 4] = [
        fq("29"),
        fq("112"),
        fq("219"),
        fq("368"),
    ];
    assert_eq!(state, expected);
}

#[test]
fn internal_layer_width_8() {
    let perm = Poseidon2Permutation::<8, 5, 2, 1>::new(
        [small(3), small(10), small(17), small(24), small(31), small(38), small(45), small(52)],
        [
            [small(1000), small(1001), small(1002), small(1003), small(1004), small(1005), small(1006), small(1007)],
            [small(2000), small(2001), small(2002), small(2003), small(2004), small(2005), small(2006), small(2007)],
        ],
        [small(77)],
    )
    .unwrap();
    assert!(perm.diagonal_fits());
    let mut state: [Fq; 8] = [fq("21888242871839275222246405745257275088548364400416034343698204186575808495616"), small(8), small(11), small(14), small(17), small(20), small(23), small(26)];
    perm.matmul_internal(&mut state);
    let expected: [Fq; 8] = [
        fq("115"),
        fq("198"),
        fq("305"),
        fq("454"),
        fq("645"),
        fq("878"),
        fq("1153"),
        fq("1470"),
    ];
    assert_eq!(state, expected);
}

#[test]
fn round_constants_are_added_elementwise() {
    let perm = Poseidon2Permutation::<4, 5, 2, 1>::new(
        [small(3), small(10), small(17), small(24)],
        [
            [small(1000), small(1001), small(1002), small(1003)],
            [small(2000), small(2001), small(2002), small(2003)],
        ],
        [small(77)],
    )
    .unwrap();
    let mut state: [Fq; 4] = [small(11), fq("21888242871839275222246405745257275088548364400416034343698204186575808495616"), small(13), small(14)];
    perm.add_rc_external(&mut state, &[small(1000), small(1001), small(1002), small(1003)]);
    let expected: [Fq; 4] = [
        fq("1011"),
        fq("1000"),
        fq("1015"),
        fq("1017"),
    ];
    assert_eq!(state, expected);
}

#[test]
fn external_round_adds_raises_and_mixes() {
    let perm = Poseidon2Permutation::<4, 5, 2, 1>::new(
        [small(3), small(10), small(17), small(24)],
        [
            [small(1000), small(1001), small(1002), small(1003)],
            [small(2000), small(2001), small(2002), small(2003)],
        ],
        [small(77)],
    )
    .unwrap();
    let mut state: [Fq; 4] = [small(11), fq("21888242871839275222246405745257275088548364400416034343698204186575808495616"), small(13), small(14)];
    perm.external_round(&mut state, &[small(1000), small(1001), small(1002), small(1003)]);
    let expected: [Fq; 4] = [
        fq("16622219567789201"),
        fq("12390117086373436"),
        fq("17058220245961925"),
        fq("12892996693052693"),
    ];
    assert_eq!(state, expected);
}

#[test]
fn internal_round_touches_the_first_element_only_before_mixing() {
    let perm = Poseidon2Permutation::<4, 5, 2, 1>::new(
        [small(3), small(10), small(17), small(24)],
        [
            [small(1000), small(1001), small(1002), small(1003)],
            [small(2000), small(2001), small(2002), small(2003)],
        ],
        [small(77)],
    )
    .unwrap();
    let mut state: [Fq; 4] = [small(11), fq("21888242871839275222246405745257275088548364400416034343698204186575808495616"), small(13), small(14)];
    perm.internal_round(&mut state, small(77));
    let expected: [Fq; 4] = [
        fq("21109276698"),
        fq("5277319184"),
        fq("5277319415"),
        fq("5277319530"),
    ];
    assert_eq!(state, expected);
}

#[test]
fn permutation_with_sbox_degree_3() {
    let perm = Poseidon2Permutation::<2, 3, 2, 1>::new(
        [small(1), small(2)],
        [
            [small(1000), small(1001)],
            [small(2000), small(2001)],
        ],
        [small(77)],
    )
    .unwrap();
    let state: [Fq; 2] = [small(2), fq("21888242871839275222246405745257275088548364400416034343698204186575808495615")];
    let expected: [Fq; 2] = [
        fq("19818236682170965640745951303412937476961938602551575180674695134528280652847"),
        fq("69893022116442836653469777148694793050916455984220135491082637625926668285"),
    ];
    assert_eq!(perm.permutation(&state), expected);
}

#[test]
fn permutation_with_sbox_degree_5() {
    let perm = Poseidon2Permutation::<2, 5, 2, 1>::new(
        [small(1), small(2)],
        [
            [small(1000), small(1001)],
            [small(2000), small(2001)],
        ],
        [small(77)],
    )
    .unwrap();
    let state: [Fq; 2] = [small(2), fq("21888242871839275222246405745257275088548364400416034343698204186575808495615")];
    let expected: [Fq; 2] = [
        fq("3508621435552863566490338053507111377428871676099605904279450357977180405045"),
        fq("14346827980066956106684602331847706372675694619039009263487793838498121781109"),
    ];
    assert_eq!(perm.permutation(&state), expected);
}

#[test]
fn permutation_with_sbox_degree_7() {
    let perm = Poseidon2Permutation::<2, 7, 2, 1>::new(
        [small(1), small(2)],
        [
            [small(1000), small(1001)],
            [small(2000), small(2001)],
        ],
        [small(77)],
    )
    .unwrap();
    let state: [Fq; 2] = [small(2), fq("21888242871839275222246405745257275088548364400416034343698204186575808495615")];
    let expected: [Fq; 2] = [
        fq("3464914245481638422680525629459975897890192723808264402901926511008377689507"),
        fq("10356514843384151257553217429710533613963109709951849270759888142745599637682"),
    ];
    assert_eq!(perm.permutation(&state), expected);
}

#[test]
fn permutation_with_sbox_degree_11() {
    let perm = Poseidon2Permutation::<2, 11, 2, 1>::new(
        [small(1), small(2)],
        [
            [small(1000), small(1001)],
            [small(2000), small(2001)],
        ],
        [small(77)],
    )
    .unwrap();
    let state: [Fq; 2] = [small(2), fq("21888242871839275222246405745257275088548364400416034343698204186575808495615")];
    let expected: [Fq; 2] = [
        fq("13206574691859733549402363224237896986793210565458725977480567349604544831579"),
        fq("4580147000386138216765946825140383948719037776879884938518325455494757832112"),
    ];
    assert_eq!(perm.permutation(&state), expected);
}

#[test]
fn round_schedule_width_8() {
    let perm = Poseidon2Permutation::<8, 5, 4, 3>::new(
        [small(3), small(10), small(17), small(24), small(31), small(38), small(45), small(52)],
        [
            [small(1000), small(1001), small(1002), small(1003), small(1004), small(1005), small(1006), small(1007)],
            [small(2000), small(2001), small(2002), small(2003), small(2004), small(2005), small(2006), small(2007)],
            [small(3000), small(3001), small(3002), small(3003), small(3004), small(3005), small(3006), small(3007)],
            [small(4000), small(4001), small(4002), small(4003), small(4004), small(4005), small(4006), small(4007)],
        ],
        [small(77), small(90), small(103)],
    )
    .unwrap();
    let state: [Fq; 8] = [small(1), small(2), small(5), small(10), small(17), small(26), small(37), small(50)];
    let expected: [Fq; 8] = [
        fq("9580763107649117333466521154805412287100090142027174041571811001864535017820"),
        fq("10486442056073469113500983167943660650738545310900266153937561631991489012297"),
        fq("16955202673118120401557118138529316254754504005385258985726267516963051583722"),
        fq("2500129224576374179847403561587538984474753987509311034045415652719939985917"),
        fq("11887721096135341244364179476541792345292750275109401116822450188076939902099"),
        fq("13892628153401069905256068911652536187730657583087031579380864406803567286979"),
        fq("1693958452997288168645964526602954214010221263833428189385139809513255958251"),
        fq("15443744571078670996489067808019811885016911269717551657785370189874584475913"),
    ];
    assert_eq!(perm.permutation(&state), expected);
    let mut in_place = state;
    perm.permutation_in_place(&mut in_place);
    assert_eq!(in_place, expected);
}

#[test]
fn round_schedule_width_3() {
    let perm = Poseidon2Permutation::<3, 5, 4, 2>::new(
        [small(1), small(1), small(2)],
        [
            [small(1000), small(1001), small(1002)],
            [small(2000), small(2001), small(2002)],
            [small(3000), small(3001), small(3002)],
            [small(4000), small(4001), small(4002)],
        ],
        [small(77), small(90)],
    )
    .unwrap();
    let state: [Fq; 3] = [small(1), small(2), small(5)];
    let expected: [Fq; 3] = [
        fq("20227305267255927031510889441243907904135445729748274764455486881650928622696"),
        fq("16211987852716002517033083615794443690462568715156757620770014437483554192363"),
        fq("19286729628088527418169260204155591207990213738666596634638170956069826052740"),
    ];
    assert_eq!(perm.permutation(&state), expected);
    let mut in_place = state;
    perm.permutation_in_place(&mut in_place);
    assert_eq!(in_place, expected);
}

#[test]
fn round_schedule_width_12() {
    let perm = Poseidon2Permutation::<12, 5, 2, 2>::new(
        [small(3), small(10), small(17), small(24), small(31), small(38), small(45), small(52), small(59), small(66), small(73), small(80)],
        [
            [small(1000), small(1001), small(1002), small(1003), small(1004), small(1005), small(1006), small(1007), small(1008), small(1009), small(1010), small(1011)],
            [small(2000), small(2001), small(2002), small(2003), small(2004), small(2005), small(2006), small(2007), small(2008), small(2009), small(2010), small(2011)],
        ],
        [small(77), small(90)],
    )
    .unwrap();
    let state: [Fq; 12] = [small(1), small(2), small(5), small(10), small(17), small(26), small(37), small(50), small(65), small(82), small(101), small(122)];
    let expected: [Fq; 12] = [
        fq("2458247409924082132349094701812571394937980971772238083773247378023570370197"),
        fq("7725764483080569636620619258834159295188826465263950063344345220062482300313"),
        fq("11518273419304942415493047146292905742145497370111315572348677734635884922059"),
        fq("7138659666643887104368444199587271170487574727516968688187962717659546128224"),
        fq("18251609574326696667013494863164731533895790877926042127998243170614691926734"),
        fq("14536693701377762476722014879493334825276149641106924451068561215995950413021"),
        fq("13600846324946055999034672446878668560906703562988722847379015018673734916473"),
        fq("7669833252965873832513237136073941650601962131227119571704616824908995237357"),
        fq("20589092289534844990473252015279598295674519742339483553508845603263773627764"),
        fq("20821479656644177031671757634977194827701076217419303681000054451193121328408"),
        fq("5032810656868802660055839620988917918024664328291147231305807649609991237346"),
        fq("15491401239390923480040667167894737883754903036092307205400110212544802960102"),
    ];
    assert_eq!(perm.permutation(&state), expected);
    let mut in_place = state;
    perm.permutation_in_place(&mut in_place);
    assert_eq!(in_place, expected);
}

#[test]
fn zero_rounds_leave_the_initial_mixing() {
    let perm = Poseidon2Permutation::<4, 5, 0, 0>::new([small(1); 4], [], []).unwrap();
    let state: [Fq; 4] = [small(1), small(2), small(3), small(4)];
    let mut mixed = state;
    Poseidon2Permutation::<4, 5, 0, 0>::matmul_external(&mut mixed);
    assert_eq!(perm.permutation(&state), mixed);
}

#[test]
fn width_five_is_refused() {
    let made = Poseidon2Permutation::<5, 5, 8, 56>::new(
        [small(1); 5],
        [[small(1); 5]; 8],
        [small(1); 56],
    );
    assert!(matches!(made, Err(ConfigError::InvalidWidth)));
}

#[test]
fn widths_outside_the_list_are_refused() {
    assert!(matches!(
        Poseidon2Permutation::<0, 5, 2, 1>::new([], [[]; 2], [small(1); 1]),
        Err(ConfigError::InvalidWidth)
    ));
    assert!(matches!(
        Poseidon2Permutation::<1, 5, 2, 1>::new([small(1); 1], [[small(1); 1]; 2], [small(1); 1]),
        Err(ConfigError::InvalidWidth)
    ));
    assert!(matches!(
        Poseidon2Permutation::<6, 5, 2, 1>::new([small(1); 6], [[small(1); 6]; 2], [small(1); 1]),
        Err(ConfigError::InvalidWidth)
    ));
    assert!(matches!(
        Poseidon2Permutation::<28, 5, 2, 1>::new(
            [small(1); 28],
            [[small(1); 28]; 2],
            [small(1); 1]
        ),
        Err(ConfigError::InvalidWidth)
    ));
}

#[test]
fn every_listed_width_is_accepted() {
    assert!(Poseidon2Permutation::<2, 5, 2, 1>::new([small(1), small(2)], [[small(1); 2]; 2], [small(1); 1]).is_ok());
    assert!(Poseidon2Permutation::<3, 5, 2, 1>::new([small(1); 3], [[small(1); 3]; 2], [small(1); 1]).is_ok());
    assert!(Poseidon2Permutation::<4, 5, 2, 1>::new([small(1); 4], [[small(1); 4]; 2], [small(1); 1]).is_ok());
    assert!(Poseidon2Permutation::<8, 5, 2, 1>::new([small(1); 8], [[small(1); 8]; 2], [small(1); 1]).is_ok());
    assert!(Poseidon2Permutation::<12, 5, 2, 1>::new([small(1); 12], [[small(1); 12]; 2], [small(1); 1]).is_ok());
    assert!(Poseidon2Permutation::<16, 5, 2, 1>::new([small(1); 16], [[small(1); 16]; 2], [small(1); 1]).is_ok());
    assert!(Poseidon2Permutation::<20, 5, 2, 1>::new([small(1); 20], [[small(1); 20]; 2], [small(1); 1]).is_ok());
    assert!(Poseidon2Permutation::<24, 5, 2, 1>::new([small(1); 24], [[small(1); 24]; 2], [small(1); 1]).is_ok());
}

#[test]
fn even_sbox_degree_is_refused() {
    let made = Poseidon2Permutation::<4, 4, 8, 56>::new(
        [small(1); 4],
        [[small(1); 4]; 8],
        [small(1); 56],
    );
    assert!(matches!(made, Err(ConfigError::EvenSboxDegree)));
}

#[test]
fn odd_number_of_external_rounds_is_refused() {
    let made = Poseidon2Permutation::<4, 5, 7, 56>::new(
        [small(1); 4],
        [[small(1); 4]; 7],
        [small(1); 56],
    );
    assert!(matches!(made, Err(ConfigError::OddFullRounds)));
}

#[test]
fn the_first_failing_condition_is_reported() {
    let made = Poseidon2Permutation::<5, 4, 7, 1>::new(
        [small(1); 5],
        [[small(1); 5]; 7],
        [small(1); 1],
    );
    assert!(matches!(made, Err(ConfigError::InvalidWidth)));
    let made = Poseidon2Permutation::<4, 4, 7, 1>::new(
        [small(1); 4],
        [[small(1); 4]; 7],
        [small(1); 1],
    );
    assert!(matches!(made, Err(ConfigError::EvenSboxDegree)));
}

#[test]
fn diagonal_of_the_narrow_widths_is_checked() {
    let good = Poseidon2Permutation::<2, 5, 2, 1>::new(
        [small(1), small(2)],
        [[small(1); 2]; 2],
        [small(1); 1],
    )
    .unwrap();
    assert!(good.diagonal_fits());
    let bad = Poseidon2Permutation::<2, 5, 2, 1>::new(
        [small(2), small(1)],
        [[small(1); 2]; 2],
        [small(1); 1],
    )
    .unwrap();
    assert!(!bad.diagonal_fits());
    let good = Poseidon2Permutation::<3, 5, 2, 1>::new(
        [small(1), small(1), small(2)],
        [[small(1); 3]; 2],
        [small(1); 1],
    )
    .unwrap();
    assert!(good.diagonal_fits());
    let bad = Poseidon2Permutation::<3, 5, 2, 1>::new(
        [small(1), small(2), small(2)],
        [[small(1); 3]; 2],
        [small(1); 1],
    )
    .unwrap();
    assert!(!bad.diagonal_fits());
    let wide = Poseidon2Permutation::<4, 5, 2, 1>::new(
        [small(9); 4],
        [[small(1); 4]; 2],
        [small(1); 1],
    )
    .unwrap();
    assert!(wide.diagonal_fits());
}

#[test]
fn t2_kat() {
    let input: [Fq; 2] = [small(0), small(1)];
    let expected: [Fq; 2] = [
        fq("13120422956170837922441672802975889424559262309139960702680326932494325745547"),
        fq("5923567162677888564808904842769941181302763723060647224839027357562627386465"),
    ];
    assert_eq!(t2::permutation(&input), expected);
    let mut state = input;
    t2::permutation_in_place(&mut state);
    assert_eq!(state, expected);
    assert_eq!(decimals(&state), vec![
        "13120422956170837922441672802975889424559262309139960702680326932494325745547".to_string(),
        "5923567162677888564808904842769941181302763723060647224839027357562627386465".to_string(),
    ]);
}

#[test]
fn t3_kat() {
    let input: [Fq; 3] = [small(0), small(1), small(2)];
    let expected: [Fq; 3] = [
        fq("5297208644449048816064511434384511824916970985131888684874823260532015509555"),
        fq("21816030159894113985964609355246484851575571273661473159848781012394295965040"),
        fq("13940986381491601233448981668101586453321811870310341844570924906201623195336"),
    ];
    assert_eq!(t3::permutation(&input), expected);
    let mut state = input;
    t3::permutation_in_place(&mut state);
    assert_eq!(state, expected);
    assert_eq!(decimals(&state), vec![
        "5297208644449048816064511434384511824916970985131888684874823260532015509555".to_string(),
        "21816030159894113985964609355246484851575571273661473159848781012394295965040".to_string(),
        "13940986381491601233448981668101586453321811870310341844570924906201623195336".to_string(),
    ]);
}

#[test]
fn t4_kat() {
    let input: [Fq; 4] = [small(0), small(1), small(2), small(3)];
    let expected: [Fq; 4] = [
        fq("786823568102245344938517132468097745676732687098822989626730198331658606391"),
        fq("16105493617470833344375945651585194737369509580406730765188791202038211593826"),
        fq("2169165722086073256768101917994796590773204847633762971322389403847680713675"),
        fq("20837792685223053096472825292260687493226094382304778455120670180090619921530"),
    ];
    assert_eq!(t4::permutation(&input), expected);
    let mut state = input;
    t4::permutation_in_place(&mut state);
    assert_eq!(state, expected);
    assert_eq!(decimals(&state), vec![
        "786823568102245344938517132468097745676732687098822989626730198331658606391".to_string(),
        "16105493617470833344375945651585194737369509580406730765188791202038211593826".to_string(),
        "2169165722086073256768101917994796590773204847633762971322389403847680713675".to_string(),
        "20837792685223053096472825292260687493226094382304778455120670180090619921530".to_string(),
    ]);
}

#[test]
fn t4_kat_of_equal_elements() {
    // The repeated value exceeds the field order and is taken modulo it.
    let reduced = fq("4218458030232820015255714794613421442512497197372123294583664908262453897094");
    assert_eq!(decimal(&reduced), "4218458030232820015255714794613421442512497197372123294583664908262453897094");
    let input: [Fq; 4] = [reduced; 4];
    let expected: [Fq; 4] = [
        fq("19876884339830114960362368309895990346608408251258324603720941116757387714453"),
        fq("5431247209421262354231150208254604337955649394486434112818062632325221806111"),
        fq("687894710690940102848643567468393776669463870896767752431820942566056771027"),
        fq("5764589378402668418492845603546890649188307247798553598873913830282103946561"),
    ];
    assert_eq!(t4::permutation(&input), expected);
}

#[test]
fn instances_have_fitting_diagonals() {
    assert!(t2::instance().diagonal_fits());
    assert!(t3::instance().diagonal_fits());
    assert!(t4::instance().diagonal_fits());
}

#[test]
fn permutation_is_deterministic() {
    for seed in 1..11u64 {
        let input: [Fq; 3] = sample(seed);
        let first = t3::permutation(&input);
        let second = t3::permutation(&input);
        let mut third = input;
        t3::permutation_in_place(&mut third);
        let fourth = t3::instance().permutation(&input);
        assert_eq!(first, second);
        assert_eq!(first, third);
        assert_eq!(first, fourth);
    }
}

#[test]
fn rotated_states_give_other_outputs() {
    for seed in 1..11u64 {
        let input: [Fq; 2] = sample(seed);
        let mut rotated = input;
        rotated.rotate_right(1);
        assert_ne!(t2::permutation(&input), t2::permutation(&rotated));
        let input: [Fq; 3] = sample(seed);
        let mut rotated = input;
        rotated.rotate_right(1);
        assert_ne!(t3::permutation(&input), t3::permutation(&rotated));
        let input: [Fq; 4] = sample(seed);
        let mut rotated = input;
        rotated.rotate_right(2);
        assert_ne!(t4::permutation(&input), t4::permutation(&rotated));
    }
}

#[test]
fn outputs_are_reduced() {
    for seed in 1..6u64 {
        let input: [Fq; 4] = sample(seed);
        for e in t4::permutation(&input).iter() {
            assert!(e.is_reduced());
        }
    }
}
