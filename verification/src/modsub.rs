//! Modular subtraction: a single floor-modulo reduction of a difference.

use vstd::prelude::*;
use crate::intops::IntOps;
use crate::intops::IntValue;

verus! {

/// The `ModSub` trait defines an interface for calculating the difference
/// of two integers modulo a modulus.
///
/// The function `mod_sub` computes
/// ```text
/// x - y (mod m)
/// ```
/// where x, y, and m are integers, and m is the modulus. The modulus must
/// be positive; the result is the floor remainder of the difference, in
/// `[0, modulus)`.
pub trait ModSub: IntValue + Sized {
    fn mod_sub(self: &Self, other: &Self, modulus: &Self) -> (r: Self)
        requires
            modulus.ival() >= 1,
        ensures
            r.ival() == (self.ival() - other.ival()) % modulus.ival(),
            0 <= r.ival() < modulus.ival(),
    ;
}

pub(crate) fn mod_sub_i128(x: i128, y: i128, m: i128) -> (r: i128)
    requires
        m >= 1,
        i128::MIN <= x - y <= i128::MAX,
    ensures
        r as int == (x - y) % (m as int),
        0 <= r < m,
{
    let s = x - y;
    let t = IntOps::mod_floor(&s, &m);
    proof {
        vstd::arithmetic::div_mod::lemma_mod_division_less_than_divisor(s as int, m as int);
    }
    t
}

impl ModSub for num::BigInt {
    fn mod_sub(self: &num::BigInt, other: &num::BigInt, modulus: &num::BigInt) -> (r:
        num::BigInt) {
        let s = self.minus(other);
        let r = s.mod_floor(modulus);
        proof {
            vstd::arithmetic::div_mod::lemma_mod_division_less_than_divisor(
                s.ival(), modulus.ival());
        }
        r
    }
}

impl ModSub for u8 {
    fn mod_sub(self: &u8, other: &u8, modulus: &u8) -> (r: u8) {
        mod_sub_i128(*self as i128, *other as i128, *modulus as i128) as u8
    }
}

impl ModSub for u16 {
    fn mod_sub(self: &u16, other: &u16, modulus: &u16) -> (r: u16) {
        mod_sub_i128(*self as i128, *other as i128, *modulus as i128) as u16
    }
}

impl ModSub for u32 {
    fn mod_sub(self: &u32, other: &u32, modulus: &u32) -> (r: u32) {
        mod_sub_i128(*self as i128, *other as i128, *modulus as i128) as u32
    }
}

impl ModSub for u64 {
    fn mod_sub(self: &u64, other: &u64, modulus: &u64) -> (r: u64) {
        mod_sub_i128(*self as i128, *other as i128, *modulus as i128) as u64
    }
}

impl ModSub for usize {
    fn mod_sub(self: &usize, other: &usize, modulus: &usize) -> (r: usize) {
        mod_sub_i128(*self as i128, *other as i128, *modulus as i128) as usize
    }
}

impl ModSub for i8 {
    fn mod_sub(self: &i8, other: &i8, modulus: &i8) -> (r: i8) {
        mod_sub_i128(*self as i128, *other as i128, *modulus as i128) as i8
    }
}

impl ModSub for i16 {
    fn mod_sub(self: &i16, other: &i16, modulus: &i16) -> (r: i16) {
        mod_sub_i128(*self as i128, *other as i128, *modulus as i128) as i16
    }
}

impl ModSub for i32 {
    fn mod_sub(self: &i32, other: &i32, modulus: &i32) -> (r: i32) {
        mod_sub_i128(*self as i128, *other as i128, *modulus as i128) as i32
    }
}

impl ModSub for i64 {
    fn mod_sub(self: &i64, other: &i64, modulus: &i64) -> (r: i64) {
        mod_sub_i128(*self as i128, *other as i128, *modulus as i128) as i64
    }
}

impl ModSub for isize {
    fn mod_sub(self: &isize, other: &isize, modulus: &isize) -> (r: isize) {
        mod_sub_i128(*self as i128, *other as i128, *modulus as i128) as isize
    }
}

} // verus!
