use modarith::ModExp;
use modarith::ModPow;
use num::bigint::Sign;
use num::BigInt;

// Each case is (modulus, base, exponent, expected).
fn test_cases_small_positive_integers() -> Vec<(BigInt, BigInt, BigInt, BigInt)> {
    vec![
        (BigInt::from(53), BigInt::from(11), BigInt::from(13), BigInt::from(52)),
        (BigInt::from(17), BigInt::from(4), BigInt::from(3), BigInt::from(13)),
        (BigInt::from(509), BigInt::from(808), BigInt::from(454), BigInt::from(9)),
        (BigInt::from(610), BigInt::from(131), BigInt::from(870), BigInt::from(1)),
        (BigInt::from(802), BigInt::from(923), BigInt::from(483), BigInt::from(721)),
        (BigInt::from(800), BigInt::from(596), BigInt::from(240), BigInt::from(576)),
        (BigInt::from(833), BigInt::from(365), BigInt::from(915), BigInt::from(155)),
        (BigInt::from(461), BigInt::from(343), BigInt::from(115), BigInt::from(48)),
    ]
}

// Test cases for computing modular powers on extremely large positive
// integers. Each expected residue is the mathematically correct value of
// base^exponent mod modulus for the given operands, cross-checked with an
// independent big-integer implementation.
fn test_cases_large_positive_integers() -> Vec<(BigInt, BigInt, BigInt, BigInt)> {
    vec![
        (
            BigInt::new(Sign::Plus, vec![951, 513, 512, 519, 190, 153, 896, 127, 26, 161, 901, 947, 5, 214, 253, 905, 913, 323, 532, 408, 721, 94, 937, 822, 871, 789, 564, 43, 889, 316, 666, 273, 417]),
            BigInt::new(Sign::Plus, vec![644, 460, 366, 195, 816, 178, 219, 591, 590, 508, 150, 968, 198, 237, 239, 596, 876, 393, 130, 701, 55, 223, 328, 534, 507, 319, 941, 551, 230, 679, 253, 905, 913]),
            BigInt::new(Sign::Plus, vec![160, 930, 252, 280, 866, 611, 777, 587, 124, 521, 594, 735, 46, 810, 933, 665, 226, 114, 760, 13, 707, 799, 308, 160, 16, 331, 386, 938, 878, 342, 545, 632, 260]),
            BigInt::new(Sign::Plus, vec![251914646, 1703849880, 3703938885, 1778495147, 3123128776, 3847531272, 4170702019, 852304569, 1922747904, 2649209914, 333806337, 3942132022, 2714102967, 2131983344, 2821489159, 4287877998, 81248823, 4016638081, 2870472163, 281817497, 1160373090, 2293213649, 3960694034, 903932085, 1651133698, 1816816429, 2738211498, 4077281270, 3058932669, 2921974863, 4177837372, 2003787927, 340]),
        ),
        (
            BigInt::new(Sign::Plus, vec![586, 710, 102, 19, 209, 576, 630, 666, 547, 187, 610, 143, 984, 426, 456, 410, 293, 179, 774, 795, 20, 978, 698, 952, 189, 195, 364, 142, 476, 18, 66, 394, 839]),
            BigInt::new(Sign::Plus, vec![5, 994, 690, 336, 495, 925, 843, 986, 47, 696, 580, 161, 606, 653, 438, 315, 593, 228, 503, 417, 437, 559, 348, 66, 551, 637, 628, 942, 78, 884, 514, 782, 688]),
            BigInt::new(Sign::Plus, vec![620, 163, 966, 216, 732, 528, 880, 396, 978, 13, 207, 564, 885, 579, 471, 787, 503, 25, 394, 472, 844, 660, 65, 284, 117, 85, 405, 352, 185, 342, 856, 474, 304]),
            BigInt::new(Sign::Plus, vec![822851939, 2639863939, 2900872801, 3961723347, 3366318852, 2570417569, 443027106, 2018534491, 2627312094, 830661517, 2404813366, 145052061, 3979138188, 186248631, 3381729527, 3785455514, 4025099924, 1009380341, 164378763, 3816167743, 2013422730, 620883692, 3873308205, 3107376649, 3843301046, 4244288458, 2872183299, 1546495612, 2374268817, 1553688819, 3497704035, 1134010515, 700]),
        ),
        (
            BigInt::new(Sign::Plus, vec![911, 473, 469, 338, 652, 841, 193, 564, 752, 660, 669, 999, 356, 604, 627, 107, 3, 777, 664, 12, 322, 693, 339, 876, 242, 921, 931, 924, 661, 396, 621, 870, 212]),
            BigInt::new(Sign::Plus, vec![229, 803, 841, 993, 625, 747, 698, 679, 724, 455, 161, 383, 44, 20, 559, 949, 678, 118, 267, 160, 896, 767, 845, 321, 696, 921, 691, 9, 756, 712, 100, 116, 995]),
            BigInt::new(Sign::Plus, vec![410, 758, 197, 134, 355, 683, 244, 470, 315, 48, 406, 545, 74, 967, 474, 482, 424, 21, 192, 891, 911, 345, 576, 718, 877, 409, 373, 797, 9, 648, 938, 87, 138]),
            BigInt::new(Sign::Plus, vec![922332981, 95140478, 1161083156, 1303501715, 1746928291, 1264434880, 718004609, 4037544160, 1719350457, 2849427721, 1439219584, 4180611587, 1606440108, 587163981, 3521474803, 1041189988, 2452833763, 1811364133, 3764047563, 3504490484, 3027615874, 219134557, 958973450, 2141274644, 3523131015, 2238878336, 3047380308, 2447682759, 3444358422, 2531990405, 1869094849, 2749340421, 189]),
        ),
        (
            BigInt::new(Sign::Plus, vec![433, 7, 622, 210, 136, 994, 168, 143, 386, 418, 902, 19, 530, 951, 990, 317, 996, 843, 871, 190, 791, 64, 910, 522, 941, 644, 49, 697, 177, 589, 725, 883, 432]),
            BigInt::new(Sign::Plus, vec![553, 347, 6, 857, 360, 945, 368, 402, 181, 507, 459, 111, 701, 792, 259, 123, 886, 171, 282, 209, 692, 271, 618, 895, 335, 711, 498, 235, 535, 396, 11, 668, 519]),
            BigInt::new(Sign::Plus, vec![732, 815, 172, 657, 699, 242, 261, 287, 852, 665, 248, 538, 619, 84, 790, 599, 825, 346, 663, 191, 342, 919, 877, 222, 591, 239, 588, 69, 601, 998, 714, 46, 873]),
            BigInt::new(Sign::Plus, vec![2820688745, 2379932225, 2736080405, 3954463176, 2528591354, 666869656, 1950101442, 536095972, 170152651, 1780242537, 335689342, 2762001334, 3198027857, 706754840, 1733596098, 2877308794, 1858405886, 2032340046, 3921906547, 2760508033, 417762807, 1430313610, 3626219223, 735468119, 2491777813, 2616334209, 2878119435, 3962340699, 3612699831, 2526469617, 4099655361, 1803387424, 43]),
        ),
    ]
}

fn test_cases_modulo_one() -> Vec<(BigInt, BigInt, BigInt, BigInt)> {
    vec![
        (BigInt::from(1), BigInt::from(596), BigInt::from(240), BigInt::from(0)),
        (
            BigInt::from(1),
            BigInt::new(Sign::Plus, vec![5, 994, 690, 336, 495, 925, 843, 986, 47, 696, 580, 161, 606, 653, 438, 315, 593, 228, 503, 417, 437, 559, 348, 66, 551, 637, 628, 942, 78, 884, 514, 782, 688]),
            BigInt::new(Sign::Plus, vec![620, 163, 966, 216, 732, 528, 880, 396, 978, 13, 207, 564, 885, 579, 471, 787, 503, 25, 394, 472, 844, 660, 65, 284, 117, 85, 405, 352, 185, 342, 856, 474, 304]),
            BigInt::from(0),
        ),
        (BigInt::from(1), BigInt::from(596), BigInt::from(-240), BigInt::from(0)),
        (BigInt::from(1), BigInt::from(596), BigInt::from(0), BigInt::from(0)),
    ]
}

fn run_test(cases: &[(BigInt, BigInt, BigInt, BigInt)]) {
    for (modulus, base, exponent, expected) in cases.iter() {
        let result = <BigInt as ModPow>::mod_pow(base, exponent, modulus);
        assert_eq!(&result, expected);
    }
}

#[test]
#[should_panic]
fn test_modpow_should_panic_with_zero_modulus() {
    let modulus = BigInt::from(0);
    let exponent = BigInt::from(53);
    let base = BigInt::from(11);

    let result = <BigInt as ModPow>::mod_pow(&base, &exponent, &modulus);

    assert_eq!(result, result);
    // mod_pow failed.
    assert!(false);
}

#[test]
fn test_run_small_positive_integers() {
    run_test(&test_cases_small_positive_integers());
}

#[test]
fn test_run_large_positive_integers() {
    run_test(&test_cases_large_positive_integers());
}

#[test]
fn test_run_integers_modulo_one() {
    run_test(&test_cases_modulo_one());
}

#[test]
fn test_print_test_cases() {
    for (modulus, base, exponent, expected) in test_cases_large_positive_integers().iter() {
        let result = <BigInt as ModPow>::mod_pow(base, exponent, modulus);
        println!("\nmodulus:  {}", modulus);
        println!("base:     {}", base);
        println!("exponent: {}", exponent);
        println!("expected: {}", expected);
        println!("result:   {}\n", result);
    }
}

#[test]
fn mod_exp_known_residues() {
    // 11^13 mod 53 == 52, across integer representations
    let r = <BigInt as ModExp>::mod_exp(&BigInt::from(11), &BigInt::from(13), &BigInt::from(53));
    assert_eq!(r, BigInt::from(52));
    assert_eq!(<u64 as ModExp>::mod_exp(&11, &13, &53), 52);
    assert_eq!(<u8 as ModExp>::mod_exp(&11, &13, &53), 52);
    assert_eq!(<i64 as ModExp>::mod_exp(&11, &13, &53), 52);
    assert_eq!(<usize as ModExp>::mod_exp(&11, &13, &53), 52);
}

#[test]
fn mod_exp_modulus_one_collapses_to_zero() {
    // 596^240 mod 1 == 0, and so does every other power
    let r = <BigInt as ModExp>::mod_exp(&BigInt::from(596), &BigInt::from(240), &BigInt::from(1));
    assert_eq!(r, BigInt::from(0));
    assert_eq!(<u32 as ModExp>::mod_exp(&596, &240, &1), 0);
    assert_eq!(<i32 as ModExp>::mod_exp(&596, &0, &1), 0);
    assert_eq!(<i32 as ModExp>::mod_exp(&596, &-240, &1), 0);
}

#[test]
fn mod_exp_zero_exponent_gives_one() {
    assert_eq!(<u64 as ModExp>::mod_exp(&923, &0, &802), 1);
    let r = <BigInt as ModExp>::mod_exp(&BigInt::from(923), &BigInt::from(0), &BigInt::from(802));
    assert_eq!(r, BigInt::from(1));
}

#[test]
fn mod_exp_reduces_negative_base_by_floor() {
    // -11 reduces to 42 modulo 53, and (-11)^13 mod 53 == 1
    assert_eq!(<i64 as ModExp>::mod_exp(&-11, &13, &53), 1);
    let r = <BigInt as ModExp>::mod_exp(&BigInt::from(-11), &BigInt::from(13), &BigInt::from(53));
    assert_eq!(r, BigInt::from(1));
}

#[test]
fn mod_exp_result_below_modulus() {
    for base in [0u64, 1, 2, 7, 1u64 << 40] {
        for exponent in [0u64, 1, 5, 64] {
            for modulus in [2u64, 3, 53, 1u64 << 62] {
                let r = <u64 as ModExp>::mod_exp(&base, &exponent, &modulus);
                assert!(r < modulus);
            }
        }
    }
}
