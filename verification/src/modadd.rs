//! Modular addition: a single floor-modulo reduction of a sum.

use vstd::prelude::*;
use crate::intops::IntOps;
use crate::intops::IntValue;

verus! {

/// The `ModAdd` trait defines an interface for calculating the sum of two
/// integers modulo a modulus. The modulus must be positive; the result is
/// the floor remainder of the sum, in `[0, modulus)`.
pub trait ModAdd: IntValue + Sized {
    fn mod_add(self: &Self, other: &Self, modulus: &Self) -> (r: Self)
        requires
            modulus.ival() >= 1,
        ensures
            r.ival() == (self.ival() + other.ival()) % modulus.ival(),
            0 <= r.ival() < modulus.ival(),
    ;
}

pub(crate) fn mod_add_u128(x: u128, y: u128, m: u128) -> (r: u128)
    requires
        m >= 1,
        x + y <= u128::MAX,
    ensures
        r as int == (x + y) % (m as int),
        r < m,
{
    let s = x + y;
    let t = s % m;
    proof {
        vstd::arithmetic::div_mod::lemma_mod_division_less_than_divisor(s as int, m as int);
    }
    t
}

pub(crate) fn mod_add_i128(x: i128, y: i128, m: i128) -> (r: i128)
    requires
        m >= 1,
        i128::MIN <= x + y <= i128::MAX,
    ensures
        r as int == (x + y) % (m as int),
        0 <= r < m,
{
    let s = x + y;
    let t = IntOps::mod_floor(&s, &m);
    proof {
        vstd::arithmetic::div_mod::lemma_mod_division_less_than_divisor(s as int, m as int);
    }
    t
}

impl ModAdd for num::BigInt {
    fn mod_add(self: &num::BigInt, other: &num::BigInt, modulus: &num::BigInt) -> (r:
        num::BigInt) {
        let s = self.plus(other);
        let r = s.mod_floor(modulus);
        proof {
            vstd::arithmetic::div_mod::lemma_mod_division_less_than_divisor(
                s.ival(), modulus.ival());
        }
        r
    }
}

impl ModAdd for u8 {
    fn mod_add(self: &u8, other: &u8, modulus: &u8) -> (r: u8) {
        mod_add_u128(*self as u128, *other as u128, *modulus as u128) as u8
    }
}

impl ModAdd for u16 {
    fn mod_add(self: &u16, other: &u16, modulus: &u16) -> (r: u16) {
        mod_add_u128(*self as u128, *other as u128, *modulus as u128) as u16
    }
}

impl ModAdd for u32 {
    fn mod_add(self: &u32, other: &u32, modulus: &u32) -> (r: u32) {
        mod_add_u128(*self as u128, *other as u128, *modulus as u128) as u32
    }
}

impl ModAdd for u64 {
    fn mod_add(self: &u64, other: &u64, modulus: &u64) -> (r: u64) {
        mod_add_u128(*self as u128, *other as u128, *modulus as u128) as u64
    }
}

impl ModAdd for usize {
    fn mod_add(self: &usize, other: &usize, modulus: &usize) -> (r: usize) {
        mod_add_u128(*self as u128, *other as u128, *modulus as u128) as usize
    }
}

impl ModAdd for i8 {
    fn mod_add(self: &i8, other: &i8, modulus: &i8) -> (r: i8) {
        mod_add_i128(*self as i128, *other as i128, *modulus as i128) as i8
    }
}

impl ModAdd for i16 {
    fn mod_add(self: &i16, other: &i16, modulus: &i16) -> (r: i16) {
        mod_add_i128(*self as i128, *other as i128, *modulus as i128) as i16
    }
}

impl ModAdd for i32 {
    fn mod_add(self: &i32, other: &i32, modulus: &i32) -> (r: i32) {
        mod_add_i128(*self as i128, *other as i128, *modulus as i128) as i32
    }
}

impl ModAdd for i64 {
    fn mod_add(self: &i64, other: &i64, modulus: &i64) -> (r: i64) {
        mod_add_i128(*self as i128, *other as i128, *modulus as i128) as i64
    }
}

impl ModAdd for isize {
    fn mod_add(self: &isize, other: &isize, modulus: &isize) -> (r: isize) {
        mod_add_i128(*self as i128, *other as i128, *modulus as i128) as isize
    }
}

} // verus!
