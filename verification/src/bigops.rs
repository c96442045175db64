//! Bindings for the arbitrary-precision integer type. The algorithms of
//! this crate treat `num::BigInt` as an opaque carrier of a mathematical
//! value, `big_val`; each binding below relies on one operation of the
//! `num` crate and states what it does to that value.

use vstd::prelude::*;
use crate::intops::IntOps;
use crate::intops::IntValue;

verus! {

#[verifier::external_type_specification]
#[verifier::external_body]
pub struct ExBigInt(num::BigInt);

/// The mathematical value an arbitrary-precision integer holds.
pub uninterp spec fn big_val(b: num::BigInt) -> int;

/// Relies on `num::BigInt: From<i64>`: the big integer holding the given value.
#[verifier::external_body]
pub(crate) fn big_from_i64(v: i64) -> (r: num::BigInt)
    ensures
        big_val(r) == v as int,
{
    num::BigInt::from(v)
}

/// Relies on `num::Zero::zero` for `BigInt`: the additive identity.
#[verifier::external_body]
pub(crate) fn big_zero() -> (r: num::BigInt)
    ensures
        big_val(r) == 0,
{
    <num::BigInt as num::Zero>::zero()
}

/// Relies on `num::One::one` for `BigInt`: the multiplicative identity.
#[verifier::external_body]
pub(crate) fn big_one() -> (r: num::BigInt)
    ensures
        big_val(r) == 1,
{
    <num::BigInt as num::One>::one()
}

/// Relies on `Clone::clone` for `BigInt`: an equal-valued copy.
#[verifier::external_body]
pub(crate) fn big_clone(a: &num::BigInt) -> (r: num::BigInt)
    ensures
        big_val(r) == big_val(*a),
{
    a.clone()
}

/// Relies on `Add` for `&BigInt`: exact integer addition.
#[verifier::external_body]
pub(crate) fn big_add(a: &num::BigInt, b: &num::BigInt) -> (r: num::BigInt)
    ensures
        big_val(r) == big_val(*a) + big_val(*b),
{
    a + b
}

/// Relies on `Sub` for `&BigInt`: exact integer subtraction.
#[verifier::external_body]
pub(crate) fn big_sub(a: &num::BigInt, b: &num::BigInt) -> (r: num::BigInt)
    ensures
        big_val(r) == big_val(*a) - big_val(*b),
{
    a - b
}

/// Relies on `Mul` for `&BigInt`: exact integer multiplication.
#[verifier::external_body]
pub(crate) fn big_mul(a: &num::BigInt, b: &num::BigInt) -> (r: num::BigInt)
    ensures
        big_val(r) == big_val(*a) * big_val(*b),
{
    a * b
}

/// Relies on `Shr<u32>` for `&BigInt`: a right shift by one bit rounds
/// towards negative infinity (floor division by two).
#[verifier::external_body]
pub(crate) fn big_shr1(a: &num::BigInt) -> (r: num::BigInt)
    ensures
        big_val(r) == big_val(*a) / 2,
{
    a >> 1u32
}

/// Relies on `Shl<u32>` for `&BigInt`: a left shift by one bit doubles.
#[verifier::external_body]
pub(crate) fn big_shl1(a: &num::BigInt) -> (r: num::BigInt)
    ensures
        big_val(r) == 2 * big_val(*a),
{
    a << 1u32
}

/// Relies on `num::Integer::mod_floor` for `BigInt`: for a positive
/// modulus the floor remainder, which lies in `[0, m)`.
#[verifier::external_body]
pub(crate) fn big_mod_floor(a: &num::BigInt, m: &num::BigInt) -> (r: num::BigInt)
    requires
        big_val(*m) >= 1,
    ensures
        big_val(r) == big_val(*a) % big_val(*m),
{
    num::Integer::mod_floor(a, m)
}

/// Relies on `num::Integer::div_floor` for `BigInt`: for a positive
/// divisor the floor quotient.
#[verifier::external_body]
pub(crate) fn big_div_floor(a: &num::BigInt, m: &num::BigInt) -> (r: num::BigInt)
    requires
        big_val(*m) >= 1,
    ensures
        big_val(r) == big_val(*a) / big_val(*m),
{
    num::Integer::div_floor(a, m)
}

/// Relies on `num::Integer::is_even` for `BigInt`: divisibility by two.
#[verifier::external_body]
pub(crate) fn big_is_even(a: &num::BigInt) -> (r: bool)
    ensures
        r == (big_val(*a) % 2 == 0),
{
    num::Integer::is_even(a)
}

/// Relies on `num::Zero::is_zero` for `BigInt`.
#[verifier::external_body]
pub(crate) fn big_is_zero(a: &num::BigInt) -> (r: bool)
    ensures
        r == (big_val(*a) == 0),
{
    <num::BigInt as num::Zero>::is_zero(a)
}

/// Relies on `num::One::is_one` for `BigInt`.
#[verifier::external_body]
pub(crate) fn big_is_one(a: &num::BigInt) -> (r: bool)
    ensures
        r == (big_val(*a) == 1),
{
    <num::BigInt as num::One>::is_one(a)
}

/// Relies on `num::ToPrimitive::to_i64` for `BigInt`: the value itself
/// when it fits a 64-bit signed integer, and nothing otherwise.
#[verifier::external_body]
pub(crate) fn big_to_i64(a: &num::BigInt) -> (r: Option<i64>)
    ensures
        r matches Some(v) ==> v as int == big_val(*a),
        r is None ==> !(i64::MIN <= big_val(*a) <= i64::MAX),
{
    num::ToPrimitive::to_i64(a)
}

/// A big integer known to be in 64-bit range, narrowed.
pub(crate) fn narrow_i64(b: &num::BigInt) -> (r: i64)
    requires
        i64::MIN <= big_val(*b) <= i64::MAX,
    ensures
        r as int == big_val(*b),
{
    match big_to_i64(b) {
        Some(n) => n,
        None => vstd::pervasive::unreached(),
    }
}

/// Relies on `PartialEq` for `BigInt`: equality agrees with the values.
#[verifier::external_body]
pub(crate) fn big_eq(a: &num::BigInt, b: &num::BigInt) -> (r: bool)
    ensures
        r == (big_val(*a) == big_val(*b)),
{
    a == b
}

/// Relies on `PartialOrd` for `BigInt`: order agrees with the values.
#[verifier::external_body]
pub(crate) fn big_le(a: &num::BigInt, b: &num::BigInt) -> (r: bool)
    ensures
        r == (big_val(*a) <= big_val(*b)),
{
    a <= b
}

impl IntValue for num::BigInt {
    open spec fn ival(&self) -> int {
        big_val(*self)
    }
}

impl IntOps for num::BigInt {
    open spec fn in_range(v: int) -> bool {
        true
    }

    proof fn lemma_val_in_range(&self) {
    }

    proof fn lemma_range_interval(a: int, b: int) {
    }

    fn zero() -> (r: Self) {
        big_zero()
    }

    fn one() -> (r: Self) {
        big_one()
    }

    fn clone_val(&self) -> (r: Self) {
        big_clone(self)
    }

    fn plus(&self, other: &Self) -> (r: Self) {
        big_add(self, other)
    }

    fn minus(&self, other: &Self) -> (r: Self) {
        big_sub(self, other)
    }

    fn times(&self, other: &Self) -> (r: Self) {
        big_mul(self, other)
    }

    fn half(&self) -> (r: Self) {
        big_shr1(self)
    }

    fn double(&self) -> (r: Self) {
        big_shl1(self)
    }

    fn mod_floor(&self, m: &Self) -> (r: Self) {
        big_mod_floor(self, m)
    }

    fn is_even(&self) -> (r: bool) {
        big_is_even(self)
    }

    fn is_zero(&self) -> (r: bool) {
        big_is_zero(self)
    }

    fn is_one(&self) -> (r: bool) {
        big_is_one(self)
    }

    fn leq(&self, other: &Self) -> (r: bool) {
        big_le(self, other)
    }
}

} // verus!
