//! Modular exponentiation behind an associated-type interface.

use vstd::prelude::*;
use vstd::arithmetic::power::pow;
use crate::intops::IntValue;
use crate::modexp::mod_exp_generic;
use crate::modexp::ModExp;

verus! {

/// Modular exponentiation, exposed over an associated integer type. The
/// contract matches `ModExp`: a positive modulus, a non-negative exponent
/// unless the modulus is one, and the mathematically correct residue,
/// always strictly below the modulus.
pub trait ModPow: Sized {
    type IntType: IntValue;

    fn mod_pow(
        base: &Self::IntType,
        exponent: &Self::IntType,
        modulus: &Self::IntType,
    ) -> (r: Self::IntType)
        requires
            modulus.ival() >= 1,
            modulus.ival() == 1 || exponent.ival() >= 0,
        ensures
            modulus.ival() == 1 ==> r.ival() == 0,
            exponent.ival() >= 0 ==> r.ival() == pow(base.ival(), exponent.ival() as nat)
                % modulus.ival(),
            0 <= r.ival() < modulus.ival(),
    ;
}

impl ModPow for num::BigInt {
    type IntType = num::BigInt;

    fn mod_pow(base: &num::BigInt, exponent: &num::BigInt, modulus: &num::BigInt) -> (r:
        num::BigInt) {
        mod_exp_generic(base, exponent, modulus)
    }
}

impl ModPow for u8 {
    type IntType = u8;

    fn mod_pow(base: &u8, exponent: &u8, modulus: &u8) -> (r: u8) {
        <u8 as ModExp>::mod_exp(base, exponent, modulus)
    }
}

impl ModPow for u16 {
    type IntType = u16;

    fn mod_pow(base: &u16, exponent: &u16, modulus: &u16) -> (r: u16) {
        <u16 as ModExp>::mod_exp(base, exponent, modulus)
    }
}

impl ModPow for u32 {
    type IntType = u32;

    fn mod_pow(base: &u32, exponent: &u32, modulus: &u32) -> (r: u32) {
        <u32 as ModExp>::mod_exp(base, exponent, modulus)
    }
}

impl ModPow for u64 {
    type IntType = u64;

    fn mod_pow(base: &u64, exponent: &u64, modulus: &u64) -> (r: u64) {
        <u64 as ModExp>::mod_exp(base, exponent, modulus)
    }
}

impl ModPow for usize {
    type IntType = usize;

    fn mod_pow(base: &usize, exponent: &usize, modulus: &usize) -> (r: usize) {
        <usize as ModExp>::mod_exp(base, exponent, modulus)
    }
}

impl ModPow for i8 {
    type IntType = i8;

    fn mod_pow(base: &i8, exponent: &i8, modulus: &i8) -> (r: i8) {
        <i8 as ModExp>::mod_exp(base, exponent, modulus)
    }
}

impl ModPow for i16 {
    type IntType = i16;

    fn mod_pow(base: &i16, exponent: &i16, modulus: &i16) -> (r: i16) {
        <i16 as ModExp>::mod_exp(base, exponent, modulus)
    }
}

impl ModPow for i32 {
    type IntType = i32;

    fn mod_pow(base: &i32, exponent: &i32, modulus: &i32) -> (r: i32) {
        <i32 as ModExp>::mod_exp(base, exponent, modulus)
    }
}

impl ModPow for i64 {
    type IntType = i64;

    fn mod_pow(base: &i64, exponent: &i64, modulus: &i64) -> (r: i64) {
        <i64 as ModExp>::mod_exp(base, exponent, modulus)
    }
}

impl ModPow for isize {
    type IntType = isize;

    fn mod_pow(base: &isize, exponent: &isize, modulus: &isize) -> (r: isize) {
        <isize as ModExp>::mod_exp(base, exponent, modulus)
    }
}

} // verus!
