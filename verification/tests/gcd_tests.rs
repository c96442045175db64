use modarith::algos;
use modarith::ExtendedGcd;
use modarith::Gcd;
use num::BigInt;
use num::Num;

struct GcdCase {
    x: BigInt,
    y: BigInt,
    gcd_xy: BigInt,
    coef_x: BigInt,
    coef_y: BigInt,
}

fn gcd_test_cases() -> Vec<GcdCase> {
    vec![
        // Example 14.62 from 'Handbook of Applied Cryptography'
        GcdCase {
            x: BigInt::from(693),
            y: BigInt::from(609),
            gcd_xy: BigInt::from(21),
            coef_x: BigInt::from(-181),
            coef_y: BigInt::from(206),
        },
        GcdCase {
            x: <BigInt as Num>::from_str_radix(
                "29424885190633566625547596530635633692994051181214434796327203075",
                10,
            )
            .unwrap(),
            y: <BigInt as Num>::from_str_radix("919087970205406919189208074679995123273961", 10)
                .unwrap(),
            gcd_xy: <BigInt as Num>::from_str_radix("3", 10).unwrap(),
            coef_x: <BigInt as Num>::from_str_radix("-137808623371250636223558604030354666602474", 10)
                .unwrap(),
            coef_y: <BigInt as Num>::from_str_radix(
                "4411985634054223651164999082778723845569132647537334425498184473",
                10,
            )
            .unwrap(),
        },
        GcdCase {
            x: BigInt::from(613769282),
            y: BigInt::from(716888961),
            gcd_xy: BigInt::from(29),
            coef_x: BigInt::from(2233618),
            coef_y: BigInt::from(-1912327),
        },
        GcdCase {
            x: <BigInt as Num>::from_str_radix("24000743358432535692180050229075931889728948", 10)
                .unwrap(),
            y: <BigInt as Num>::from_str_radix(
                "476057445640162830420892551794736263384096274661520",
                10,
            )
            .unwrap(),
            gcd_xy: <BigInt as Num>::from_str_radix("4", 10).unwrap(),
            coef_x: <BigInt as Num>::from_str_radix(
                "57452030383374486115869206982212629264831027293013",
                10,
            )
            .unwrap(),
            coef_y: <BigInt as Num>::from_str_radix(
                "-2896481189991724314184721919272517544310316",
                10,
            )
            .unwrap(),
        },
    ]
}

#[test]
fn algos_tests_test_extended_gcd() {
    for case in gcd_test_cases().iter() {
        let result = algos::extended_gcd(&case.x, &case.y).unwrap();
        assert_eq!(result.gcd_xy, case.gcd_xy);
        assert!(algos::valid_solution(
            &case.x,
            &case.y,
            &result.coef_x,
            &result.coef_y,
            &case.gcd_xy
        ));
        // Show that coefficients returned by the extended_gcd algorithm are not unique.
        assert!(algos::valid_solution(
            &case.x,
            &case.y,
            &case.coef_x,
            &case.coef_y,
            &case.gcd_xy
        ));
    }
}

#[test]
fn algos_tests_test_mod_inverse() {
    let cases = vec![
        (BigInt::from(633), BigInt::from(177), BigInt::from(2801)),
        (BigInt::from(271), BigInt::from(106), BigInt::from(383)),
        (
            <BigInt as Num>::from_str_radix("2983498573497", 10).unwrap(),
            <BigInt as Num>::from_str_radix("515317423113", 10).unwrap(),
            <BigInt as Num>::from_str_radix("903455098240", 10).unwrap(),
        ),
        (
            <BigInt as Num>::from_str_radix("60192921923322822", 10).unwrap(),
            <BigInt as Num>::from_str_radix("368992488398249", 10).unwrap(),
            <BigInt as Num>::from_str_radix("427414198414469", 10).unwrap(),
        ),
    ];
    for (a, a_inv, modulus) in cases.iter() {
        let result = algos::mod_inv(a, modulus);
        assert!(result.is_some());
        let result = result.unwrap();
        assert_eq!(num::Integer::gcd(a, modulus), BigInt::from(1));
        assert_eq!(&result, a_inv);
    }
}

#[test]
fn extended_gcd_test_extended_gcd() {
    let mut cases = gcd_test_cases();
    let huge = "1".to_string() + &"0".repeat(167);
    let big = "1".to_string() + &"0".repeat(125);
    cases.push(GcdCase {
        x: <BigInt as Num>::from_str_radix(&huge, 10).unwrap(),
        y: <BigInt as Num>::from_str_radix(&big, 10).unwrap(),
        gcd_xy: <BigInt as Num>::from_str_radix(&big, 10).unwrap(),
        coef_x: <BigInt as Num>::from_str_radix("0", 10).unwrap(),
        coef_y: <BigInt as Num>::from_str_radix("1", 10).unwrap(),
    });
    for case in cases.iter() {
        let result = <BigInt as ExtendedGcd<_>>::extended_gcd(&case.x, &case.y).unwrap();
        assert_eq!(result.gcd_xy, case.gcd_xy);
        assert!(<BigInt as ExtendedGcd<_>>::valid_solution(
            &case.x,
            &case.y,
            &result.coef_x,
            &result.coef_y,
            &case.gcd_xy
        ));
        // Show that coefficients returned by the extended_gcd algorithm are not unique.
        assert!(<BigInt as ExtendedGcd<_>>::valid_solution(
            &case.x,
            &case.y,
            &case.coef_x,
            &case.coef_y,
            &case.gcd_xy
        ));
    }
}

#[test]
fn extended_gcd_rejects_nonpositive_operands() {
    let zero = BigInt::from(0);
    let five = BigInt::from(5);
    let minus = BigInt::from(-4);
    assert!(<BigInt as ExtendedGcd<_>>::extended_gcd(&zero, &five).is_none());
    assert!(<BigInt as ExtendedGcd<_>>::extended_gcd(&five, &zero).is_none());
    assert!(<BigInt as ExtendedGcd<_>>::extended_gcd(&minus, &five).is_none());
    assert!(algos::extended_gcd(&five, &minus).is_none());
}

#[test]
fn extended_gcd_strips_common_powers_of_two() {
    let result = algos::extended_gcd(&BigInt::from(8), &BigInt::from(12)).unwrap();
    assert_eq!(result.g, BigInt::from(4));
    assert_eq!(result.gcd_xy, BigInt::from(4));
    assert!(algos::valid_solution(
        &BigInt::from(8),
        &BigInt::from(12),
        &result.coef_x,
        &result.coef_y,
        &result.gcd_xy
    ));
}

#[test]
fn extended_gcd_equal_operands() {
    let result = algos::extended_gcd(&BigInt::from(35), &BigInt::from(35)).unwrap();
    assert_eq!(result.gcd_xy, BigInt::from(35));
    assert!(algos::valid_solution(
        &BigInt::from(35),
        &BigInt::from(35),
        &result.coef_x,
        &result.coef_y,
        &result.gcd_xy
    ));
}

#[test]
fn shifted_coefficient_pair_stays_valid() {
    // From one Bezout pair, (coef_x + y, coef_y - x) is a second one.
    let x = BigInt::from(693);
    let y = BigInt::from(609);
    let result = algos::extended_gcd(&x, &y).unwrap();
    let cx2 = &result.coef_x + &y;
    let cy2 = &result.coef_y - &x;
    assert!(algos::valid_solution(&x, &y, &cx2, &cy2, &result.gcd_xy));
}

#[test]
fn fixed_width_extended_gcd_matches() {
    let result: Gcd<i64> = 693i64.extended_gcd(&609).unwrap();
    assert_eq!(result.gcd_xy, 21);
    assert_eq!(result.g, 1);
    assert!(<i64 as ExtendedGcd<i64>>::valid_solution(
        &693, &609, &result.coef_x, &result.coef_y, &21
    ));
    assert!(result.coef_x >= 0 && result.coef_x <= 609);
    let small: Gcd<i32> = 613769282i32.extended_gcd(&716888961).unwrap();
    assert_eq!(small.gcd_xy, 29);
    assert!(<i32 as ExtendedGcd<i32>>::valid_solution(
        &613769282,
        &716888961,
        &small.coef_x,
        &small.coef_y,
        &29
    ));
    assert!(4isize.extended_gcd(&-2).is_none());
}
