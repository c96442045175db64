//! Modular multiplication: a product followed by one floor-modulo
//! reduction, with a reduction-strategy switch for arbitrary-precision
//! operands.

use vstd::prelude::*;
use crate::arith::is_gcd;
use crate::arith::lemma_odd_coprime_montgomery_base;
use crate::intops::IntOps;
use crate::intops::IntValue;

verus! {

/// Computes the product of two integers modulo a modulus. The modulus
/// must be positive; the result is the floor remainder of the product,
/// in `[0, modulus)`.
pub trait ModMult: IntValue + Sized {
    fn mod_mult(self: &Self, other: &Self, modulus: &Self) -> (r: Self)
        requires
            modulus.ival() >= 1,
        ensures
            r.ival() == (self.ival() * other.ival()) % modulus.ival(),
            0 <= r.ival() < modulus.ival(),
    ;
}

/// The Montgomery-eligible path for an odd arbitrary-precision modulus.
///
/// A Montgomery reduction needs its power-of-two base to be coprime to
/// the modulus, which the precondition demands and an odd modulus always
/// grants. The reduction transform itself is not implemented: the product
/// is reduced by plain floor modulo, which computes the same residue.
fn montgomery_multiply(x: &num::BigInt, other_num: &num::BigInt, modulus: &num::BigInt) -> (r:
    num::BigInt)
    requires
        modulus.ival() >= 1,
        is_gcd(1, 256, modulus.ival()),
    ensures
        r.ival() == (x.ival() * other_num.ival()) % modulus.ival(),
        0 <= r.ival() < modulus.ival(),
{
    let p = x.times(other_num);
    let r = p.mod_floor(modulus);
    proof {
        vstd::arithmetic::div_mod::lemma_mod_division_less_than_divisor(
            p.ival(), modulus.ival());
    }
    r
}

/// The default path: multiply, then reduce by floor modulo.
fn default_multiply(x: &num::BigInt, other_num: &num::BigInt, modulus: &num::BigInt) -> (r:
    num::BigInt)
    requires
        modulus.ival() >= 1,
    ensures
        r.ival() == (x.ival() * other_num.ival()) % modulus.ival(),
        0 <= r.ival() < modulus.ival(),
{
    let p = x.times(other_num);
    let r = p.mod_floor(modulus);
    proof {
        vstd::arithmetic::div_mod::lemma_mod_division_less_than_divisor(
            p.ival(), modulus.ival());
    }
    r
}

pub(crate) fn mod_mult_u128(x: u128, y: u128, m: u128) -> (r: u128)
    requires
        m >= 1,
        x * y <= u128::MAX,
    ensures
        r as int == (x * y) % (m as int),
        r < m,
{
    let s = x * y;
    let t = s % m;
    proof {
        vstd::arithmetic::div_mod::lemma_mod_division_less_than_divisor(s as int, m as int);
    }
    t
}

pub(crate) fn mod_mult_i128(x: i128, y: i128, m: i128) -> (r: i128)
    requires
        m >= 1,
        i128::MIN <= x * y <= i128::MAX,
    ensures
        r as int == (x * y) % (m as int),
        0 <= r < m,
{
    let s = x * y;
    let t = IntOps::mod_floor(&s, &m);
    proof {
        vstd::arithmetic::div_mod::lemma_mod_division_less_than_divisor(s as int, m as int);
    }
    t
}

impl ModMult for num::BigInt {
    fn mod_mult(self: &num::BigInt, other: &num::BigInt, modulus: &num::BigInt) -> (r:
        num::BigInt) {
        if !modulus.is_even() {
            proof {
                lemma_odd_coprime_montgomery_base(modulus.ival());
            }
            montgomery_multiply(self, other, modulus)
        } else {
            default_multiply(self, other, modulus)
        }
    }
}

impl ModMult for u8 {
    fn mod_mult(self: &u8, other: &u8, modulus: &u8) -> (r: u8) {
        proof {
            vstd::arithmetic::mul::lemma_mul_upper_bound(
                *self as int, u64::MAX as int, *other as int, u64::MAX as int);
        }
        mod_mult_u128(*self as u128, *other as u128, *modulus as u128) as u8
    }
}

impl ModMult for u16 {
    fn mod_mult(self: &u16, other: &u16, modulus: &u16) -> (r: u16) {
        proof {
            vstd::arithmetic::mul::lemma_mul_upper_bound(
                *self as int, u64::MAX as int, *other as int, u64::MAX as int);
        }
        mod_mult_u128(*self as u128, *other as u128, *modulus as u128) as u16
    }
}

impl ModMult for u32 {
    fn mod_mult(self: &u32, other: &u32, modulus: &u32) -> (r: u32) {
        proof {
            vstd::arithmetic::mul::lemma_mul_upper_bound(
                *self as int, u64::MAX as int, *other as int, u64::MAX as int);
        }
        mod_mult_u128(*self as u128, *other as u128, *modulus as u128) as u32
    }
}

impl ModMult for u64 {
    fn mod_mult(self: &u64, other: &u64, modulus: &u64) -> (r: u64) {
        proof {
            vstd::arithmetic::mul::lemma_mul_upper_bound(
                *self as int, u64::MAX as int, *other as int, u64::MAX as int);
        }
        mod_mult_u128(*self as u128, *other as u128, *modulus as u128) as u64
    }
}

impl ModMult for usize {
    fn mod_mult(self: &usize, other: &usize, modulus: &usize) -> (r: usize) {
        proof {
            vstd::arithmetic::mul::lemma_mul_upper_bound(
                *self as int, u64::MAX as int, *other as int, u64::MAX as int);
        }
        mod_mult_u128(*self as u128, *other as u128, *modulus as u128) as usize
    }
}

impl ModMult for i8 {
    fn mod_mult(self: &i8, other: &i8, modulus: &i8) -> (r: i8) {
        proof {
            lemma_signed_product_fits(*self as int, *other as int);
        }
        mod_mult_i128(*self as i128, *other as i128, *modulus as i128) as i8
    }
}

impl ModMult for i16 {
    fn mod_mult(self: &i16, other: &i16, modulus: &i16) -> (r: i16) {
        proof {
            lemma_signed_product_fits(*self as int, *other as int);
        }
        mod_mult_i128(*self as i128, *other as i128, *modulus as i128) as i16
    }
}

impl ModMult for i32 {
    fn mod_mult(self: &i32, other: &i32, modulus: &i32) -> (r: i32) {
        proof {
            lemma_signed_product_fits(*self as int, *other as int);
        }
        mod_mult_i128(*self as i128, *other as i128, *modulus as i128) as i32
    }
}

impl ModMult for i64 {
    fn mod_mult(self: &i64, other: &i64, modulus: &i64) -> (r: i64) {
        proof {
            lemma_signed_product_fits(*self as int, *other as int);
        }
        mod_mult_i128(*self as i128, *other as i128, *modulus as i128) as i64
    }
}

impl ModMult for isize {
    fn mod_mult(self: &isize, other: &isize, modulus: &isize) -> (r: isize) {
        proof {
            lemma_signed_product_fits(*self as int, *other as int);
        }
        mod_mult_i128(*self as i128, *other as i128, *modulus as i128) as isize
    }
}

/// The product of two values of at most sixty-four signed bits fits the
/// signed working width.
proof fn lemma_signed_product_fits(x: int, y: int)
    requires
        i64::MIN <= x <= i64::MAX,
        i64::MIN <= y <= i64::MAX,
    ensures
        i128::MIN <= x * y <= i128::MAX,
{
    assert(i128::MIN <= x * y <= i128::MAX) by (nonlinear_arith)
        requires
            i64::MIN <= x <= i64::MAX,
            i64::MIN <= y <= i64::MAX,
    ;
}

} // verus!
