//! Modular exponentiation by right-to-left binary square-and-multiply.

use vstd::prelude::*;
use vstd::arithmetic::power::pow;
use crate::intops::IntOps;
use crate::intops::IntValue;

verus! {

/// Trait for modular exponentiation.
///
/// The function `mod_exp` computes
/// ```text
/// b^e mod m
/// ```
/// where b is the base, e is the exponent, and m is the modulus.
///
/// The modulus must not be zero: no mathematically meaningful result
/// exists there, so that input is excluded outright. A modulus of one
/// collapses everything to zero, whatever the exponent; otherwise the
/// exponent must be non-negative, and the result is the mathematically
/// correct residue, always strictly below the modulus.
pub trait ModExp: IntValue + Sized {
    fn mod_exp(base: &Self, exponent: &Self, modulus: &Self) -> (r: Self)
        requires
            modulus.ival() >= 1,
            modulus.ival() == 1 || exponent.ival() >= 0,
        ensures
            modulus.ival() == 1 ==> r.ival() == 0,
            exponent.ival() >= 0 ==> r.ival() == pow(base.ival(), exponent.ival() as nat)
                % modulus.ival(),
            0 <= r.ival() < modulus.ival(),
    ;
}

/// Square-and-multiply over any integer type that can hold the square of
/// the largest residue: reduce the base once, then square it while
/// halving the exponent, multiplying the reduced result in whenever the
/// low bit of the exponent is set.
pub(crate) fn mod_exp_generic<T: IntOps>(base: &T, exponent: &T, modulus: &T) -> (r: T)
    requires
        modulus.ival() >= 1,
        modulus.ival() == 1 || exponent.ival() >= 0,
        forall|w: int|
            0 <= w <= (modulus.ival() - 1) * (modulus.ival() - 1) ==> T::in_range(w),
    ensures
        modulus.ival() == 1 ==> r.ival() == 0,
        exponent.ival() >= 0 ==> r.ival() == pow(base.ival(), exponent.ival() as nat)
            % modulus.ival(),
        0 <= r.ival() < modulus.ival(),
{
    let zero = T::zero();
    if modulus.is_one() {
        proof {
            if exponent.ival() >= 0 {
                vstd::arithmetic::div_mod::lemma_mod_division_less_than_divisor(
                    pow(base.ival(), exponent.ival() as nat), 1);
            }
        }
        return zero;
    }

    let mut result = T::one();
    let mut modded_base = base.mod_floor(modulus);
    let mut divided_exponent = exponent.clone_val();
    let ghost e0: int = exponent.ival();

    proof {
        vstd::arithmetic::div_mod::lemma_mod_division_less_than_divisor(
            base.ival(), modulus.ival());
        vstd::arithmetic::power::lemma_pow_mod_noop(base.ival(), e0 as nat, modulus.ival());
    }

    while !divided_exponent.leq(&zero)
        invariant
            forall|w: int|
                0 <= w <= (modulus.ival() - 1) * (modulus.ival() - 1) ==> T::in_range(w),
            modulus.ival() >= 2,
            zero.ival() == 0,
            e0 >= 0,
            divided_exponent.ival() >= 0,
            0 <= result.ival() < modulus.ival(),
            0 <= modded_base.ival() < modulus.ival(),
            (result.ival() * pow(modded_base.ival(), divided_exponent.ival() as nat))
                % modulus.ival() == pow(base.ival(), e0 as nat) % modulus.ival(),
        decreases divided_exponent.ival(),
    {
        let ghost ri = result.ival();
        let ghost bi = modded_base.ival();
        let ghost ei = divided_exponent.ival();
        let ghost mi = modulus.ival();
        let ghost k = ei / 2;

        proof {
            vstd::arithmetic::div_mod::lemma_fundamental_div_mod(ei, 2);
            vstd::arithmetic::mul::lemma_mul_nonnegative(ri, bi);
            vstd::arithmetic::mul::lemma_mul_upper_bound(ri, mi - 1, bi, mi - 1);
            vstd::arithmetic::mul::lemma_mul_nonnegative(bi, bi);
            vstd::arithmetic::mul::lemma_mul_upper_bound(bi, mi - 1, bi, mi - 1);
        }

        if !divided_exponent.is_even() {
            let t = result.times(&modded_base);
            result = t.mod_floor(modulus);
            proof {
                vstd::arithmetic::div_mod::lemma_mod_division_less_than_divisor(ri * bi, mi);
            }
        }
        divided_exponent = divided_exponent.half();
        let sq = modded_base.times(&modded_base);
        modded_base = sq.mod_floor(modulus);

        proof {
            vstd::arithmetic::div_mod::lemma_mod_division_less_than_divisor(bi * bi, mi);
            // pow(new base, k) reduces like pow(old base squared, k)
            vstd::arithmetic::power::lemma_pow_mod_noop(bi * bi, k as nat, mi);
            // old base squared to the k is the old base to the 2k
            vstd::arithmetic::power::lemma_square_is_pow2(bi);
            vstd::arithmetic::power::lemma_pow_multiplies(bi, 2, k as nat);
            let pw = pow(bi * bi, k as nat);
            assert(pw == pow(bi, (2 * k) as nat));
            if ei % 2 == 1 {
                // ei == 2k + 1: one multiplication keeps the running product
                vstd::arithmetic::power::lemma_pow_adds(bi, (2 * k) as nat, 1);
                vstd::arithmetic::power::lemma_pow1(bi);
                assert(pow(bi, ei as nat) == pw * bi);
                vstd::arithmetic::div_mod::lemma_mul_mod_noop_general(
                    ri * bi, pow(modded_base.ival(), k as nat), mi);
                vstd::arithmetic::div_mod::lemma_mul_mod_noop_general(ri * bi, pw, mi);
                assert((ri * bi) * pw == ri * pow(bi, ei as nat)) by (nonlinear_arith)
                    requires
                        pow(bi, ei as nat) == pw * bi,
                ;
                assert((result.ival() * pow(modded_base.ival(), k as nat)) % mi == (ri * pow(
                    bi,
                    ei as nat,
                )) % mi);
            } else {
                // ei == 2k: only the squaring advances the exponent
                assert(pow(bi, ei as nat) == pw);
                vstd::arithmetic::div_mod::lemma_mul_mod_noop_general(
                    ri, pow(modded_base.ival(), k as nat), mi);
                vstd::arithmetic::div_mod::lemma_mul_mod_noop_general(ri, pw, mi);
                assert((result.ival() * pow(modded_base.ival(), k as nat)) % mi == (ri * pow(
                    bi,
                    ei as nat,
                )) % mi);
            }
        }
    }

    proof {
        vstd::arithmetic::power::lemma_pow0(modded_base.ival());
        vstd::arithmetic::div_mod::lemma_small_mod(
            result.ival() as nat, modulus.ival() as nat);
    }
    result
}

impl ModExp for num::BigInt {
    fn mod_exp(base: &num::BigInt, exponent: &num::BigInt, modulus: &num::BigInt) -> (r:
        num::BigInt) {
        mod_exp_generic(base, exponent, modulus)
    }
}

/// The square of any residue of a modulus of at most sixty-four bits fits
/// the unsigned working width.
proof fn lemma_unsigned_square_fits(m: int)
    requires
        1 <= m <= u64::MAX as int + 1,
    ensures
        forall|w: int| 0 <= w <= (m - 1) * (m - 1) ==> <u128 as IntOps>::in_range(w),
{
    assert((m - 1) * (m - 1) <= u128::MAX) by (nonlinear_arith)
        requires
            1 <= m <= u64::MAX as int + 1,
    ;
}

/// The square of any residue of a modulus of at most sixty-three bits
/// fits the signed working width.
proof fn lemma_signed_square_fits(m: int)
    requires
        1 <= m <= i64::MAX as int + 1,
    ensures
        forall|w: int| 0 <= w <= (m - 1) * (m - 1) ==> <i128 as IntOps>::in_range(w),
{
    assert((m - 1) * (m - 1) <= i128::MAX) by (nonlinear_arith)
        requires
            1 <= m <= i64::MAX as int + 1,
    ;
}

impl ModExp for usize {
    fn mod_exp(base: &usize, exponent: &usize, modulus: &usize) -> (r: usize) {
        proof {
            lemma_unsigned_square_fits(modulus.ival());
        }
        mod_exp_generic(&(*base as u128), &(*exponent as u128), &(*modulus as u128)) as usize
    }
}

impl ModExp for u8 {
    fn mod_exp(base: &u8, exponent: &u8, modulus: &u8) -> (r: u8) {
        proof {
            lemma_unsigned_square_fits(modulus.ival());
        }
        mod_exp_generic(&(*base as u128), &(*exponent as u128), &(*modulus as u128)) as u8
    }
}

impl ModExp for u16 {
    fn mod_exp(base: &u16, exponent: &u16, modulus: &u16) -> (r: u16) {
        proof {
            lemma_unsigned_square_fits(modulus.ival());
        }
        mod_exp_generic(&(*base as u128), &(*exponent as u128), &(*modulus as u128)) as u16
    }
}

impl ModExp for u32 {
    fn mod_exp(base: &u32, exponent: &u32, modulus: &u32) -> (r: u32) {
        proof {
            lemma_unsigned_square_fits(modulus.ival());
        }
        mod_exp_generic(&(*base as u128), &(*exponent as u128), &(*modulus as u128)) as u32
    }
}

impl ModExp for u64 {
    fn mod_exp(base: &u64, exponent: &u64, modulus: &u64) -> (r: u64) {
        proof {
            lemma_unsigned_square_fits(modulus.ival());
        }
        mod_exp_generic(&(*base as u128), &(*exponent as u128), &(*modulus as u128)) as u64
    }
}

impl ModExp for isize {
    fn mod_exp(base: &isize, exponent: &isize, modulus: &isize) -> (r: isize) {
        proof {
            lemma_signed_square_fits(modulus.ival());
        }
        mod_exp_generic(&(*base as i128), &(*exponent as i128), &(*modulus as i128)) as isize
    }
}

impl ModExp for i8 {
    fn mod_exp(base: &i8, exponent: &i8, modulus: &i8) -> (r: i8) {
        proof {
            lemma_signed_square_fits(modulus.ival());
        }
        mod_exp_generic(&(*base as i128), &(*exponent as i128), &(*modulus as i128)) as i8
    }
}

impl ModExp for i16 {
    fn mod_exp(base: &i16, exponent: &i16, modulus: &i16) -> (r: i16) {
        proof {
            lemma_signed_square_fits(modulus.ival());
        }
        mod_exp_generic(&(*base as i128), &(*exponent as i128), &(*modulus as i128)) as i16
    }
}

impl ModExp for i32 {
    fn mod_exp(base: &i32, exponent: &i32, modulus: &i32) -> (r: i32) {
        proof {
            lemma_signed_square_fits(modulus.ival());
        }
        mod_exp_generic(&(*base as i128), &(*exponent as i128), &(*modulus as i128)) as i32
    }
}

impl ModExp for i64 {
    fn mod_exp(base: &i64, exponent: &i64, modulus: &i64) -> (r: i64) {
        proof {
            lemma_signed_square_fits(modulus.ival());
        }
        mod_exp_generic(&(*base as i128), &(*exponent as i128), &(*modulus as i128)) as i64
    }
}

} // verus!
