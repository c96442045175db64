//! Modular inverses, derived from the extended binary gcd.

use vstd::prelude::*;
use crate::arith::divides;
use crate::arith::is_gcd;
use crate::arith::lemma_divides_one_bound;
use crate::bigops::big_from_i64;
use crate::bigops::big_to_i64;
use crate::extended_gcd::ExtendedGcd;
use crate::intops::IntOps;
use crate::intops::IntValue;

verus! {

pub trait ModInv<T: IntValue>: IntValue + Sized {
    /// Computes the modular inverse of an integer x:
    /// ```text
    /// y = x^-1 mod p
    /// ```
    /// where p is the modulus, and
    /// ```text
    /// x*y = 1 mod p
    /// ```
    /// The inverse exists exactly when both arguments are strictly
    /// positive and coprime; it is returned reduced into `[0, p)`.
    fn mod_inv(&self, modulus: &T) -> (r: Option<T>)
        ensures
            r.is_some() <==> (self.ival() >= 1 && modulus.ival() >= 1 && is_gcd(
                1,
                self.ival(),
                modulus.ival(),
            )),
            r matches Some(inv) ==> {
                &&& 0 <= inv.ival() < modulus.ival()
                &&& (self.ival() * inv.ival()) % modulus.ival() == 1int % modulus.ival()
            },
    ;
}

/// The modular inverse over any integer type with unbounded range: run the
/// extended gcd, demand a greatest common divisor of one, and reduce the
/// Bezout coefficient of `x` into `[0, modulus)`.
pub(crate) fn mod_inv_generic<T: IntOps + ExtendedGcd<T>>(x: &T, modulus: &T) -> (r: Option<T>)
    ensures
        r.is_some() <==> (x.ival() >= 1 && modulus.ival() >= 1 && is_gcd(
            1,
            x.ival(),
            modulus.ival(),
        )),
        r matches Some(inv) ==> {
            &&& 0 <= inv.ival() < modulus.ival()
            &&& (x.ival() * inv.ival()) % modulus.ival() == 1int % modulus.ival()
        },
{
    let result = x.extended_gcd(modulus);
    match result {
        None => None,
        Some(gcd_result) => {
            if gcd_result.gcd_xy.is_one() {
                let inv = gcd_result.coef_x.mod_floor(modulus);
                proof {
                    let xi = x.ival();
                    let mi = modulus.ival();
                    let cx = gcd_result.coef_x.ival();
                    let cy = gcd_result.coef_y.ival();
                    vstd::arithmetic::div_mod::lemma_mod_division_less_than_divisor(cx, mi);
                    vstd::arithmetic::div_mod::lemma_mul_mod_noop_general(xi, cx, mi);
                    assert(xi * cx == mi * (-cy) + 1) by (nonlinear_arith)
                        requires
                            cx * xi + cy * mi == 1,
                    ;
                    vstd::arithmetic::div_mod::lemma_mod_multiples_vanish(-cy, 1, mi);
                }
                Some(inv)
            } else {
                proof {
                    let gi = gcd_result.gcd_xy.ival();
                    if is_gcd(1, x.ival(), modulus.ival()) {
                        assert(divides(gi, 1));
                        lemma_divides_one_bound(gi);
                    }
                }
                None
            }
        },
    }
}

/// The modular inverse of 64-bit operands, computed at arbitrary
/// precision and narrowed back: the result is reduced below the modulus,
/// so it fits wherever the modulus came from.
pub(crate) fn mod_inv_i64(x: i64, modulus: i64) -> (r: Option<i64>)
    ensures
        r.is_some() <==> (x >= 1 && modulus >= 1 && is_gcd(1, x as int, modulus as int)),
        r matches Some(inv) ==> {
            &&& 0 <= inv < modulus
            &&& (x * inv) % (modulus as int) == 1int % (modulus as int)
        },
{
    let xb = big_from_i64(x);
    let mb = big_from_i64(modulus);
    match mod_inv_generic(&xb, &mb) {
        None => None,
        Some(ib) => {
            match big_to_i64(&ib) {
                Some(n) => Some(n),
                None => vstd::pervasive::unreached(),
            }
        },
    }
}

/// Pairs of a value and a modulus that share a divisor, so that no
/// modular inverse exists for them.
pub fn non_invertible_isize_test_cases() -> (r: Vec<(isize, isize)>)
    ensures
        r@.len() == 2,
        forall|i: int|
            0 <= i < r@.len() ==> !is_gcd(1, (#[trigger] r@[i]).0 as int, r@[i].1 as int),
{
    let mut v: Vec<(isize, isize)> = Vec::new();
    v.push((61, 17324));
    v.push((3404, 456458));
    proof {
        assert(17324 == 284 * 61);
        assert(61 == 1 * 61);
        assert(divides(61, 61) && divides(61, 17324));
        if is_gcd(1, 61, 17324) {
            lemma_divides_one_bound(61);
        }
        assert(3404 == 1702 * 2);
        assert(456458 == 228229 * 2);
        assert(divides(2, 3404) && divides(2, 456458));
        if is_gcd(1, 3404, 456458) {
            lemma_divides_one_bound(2);
        }
    }
    v
}

impl ModInv<num::BigInt> for num::BigInt {
    fn mod_inv(&self, modulus: &num::BigInt) -> (r: Option<num::BigInt>) {
        mod_inv_generic(self, modulus)
    }
}

impl ModInv<i8> for i8 {
    fn mod_inv(&self, modulus: &i8) -> (r: Option<i8>) {
        match mod_inv_i64(*self as i64, *modulus as i64) {
            Some(n) => Some(n as i8),
            None => None,
        }
    }
}

impl ModInv<i16> for i16 {
    fn mod_inv(&self, modulus: &i16) -> (r: Option<i16>) {
        match mod_inv_i64(*self as i64, *modulus as i64) {
            Some(n) => Some(n as i16),
            None => None,
        }
    }
}

impl ModInv<i32> for i32 {
    fn mod_inv(&self, modulus: &i32) -> (r: Option<i32>) {
        match mod_inv_i64(*self as i64, *modulus as i64) {
            Some(n) => Some(n as i32),
            None => None,
        }
    }
}

impl ModInv<i64> for i64 {
    fn mod_inv(&self, modulus: &i64) -> (r: Option<i64>) {
        mod_inv_i64(*self, *modulus)
    }
}

impl ModInv<isize> for isize {
    fn mod_inv(&self, modulus: &isize) -> (r: Option<isize>) {
        match mod_inv_i64(*self as i64, *modulus as i64) {
            Some(n) => Some(n as isize),
            None => None,
        }
    }
}

} // verus!
