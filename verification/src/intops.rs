//! The integer capability contract: the operations an integer type must
//! supply (identities, ring operations, floor modulo, halving, parity,
//! ordering) for the algorithms of this crate to run on it, each pinned to
//! the mathematical value of the operand.
//!
//! Fixed-width adapters are provided for `u128` and `i128`; the narrower
//! machine integers reach the algorithms by widening through these, and
//! the arbitrary-precision adapter lives beside the big-integer bindings.

use vstd::prelude::*;

verus! {

/// A type whose terms stand for mathematical integers. `ival` is the
/// value a term stands for; every contract of this crate speaks of it.
pub trait IntValue: Sized {
    /// The mathematical value of this term.
    spec fn ival(&self) -> int;
}

/// An integer type usable by the algorithms of this crate: the integer
/// capability contract of identities, ring operations, floor modulo,
/// halving, parity and ordering, each pinned to the value of the operand.
/// `in_range` is the set of values the type can hold.
pub trait IntOps: IntValue {
    /// Whether the type can hold the value `v`.
    spec fn in_range(v: int) -> bool;

    /// Every term of the type holds a representable value.
    proof fn lemma_val_in_range(&self)
        ensures
            Self::in_range(self.ival()),
    ;

    /// The representable values form an interval containing zero and one.
    proof fn lemma_range_interval(a: int, b: int)
        requires
            Self::in_range(a),
            Self::in_range(b),
        ensures
            Self::in_range(0),
            Self::in_range(1),
            forall|w: int| a <= w <= b ==> Self::in_range(w),
    ;

    fn zero() -> (r: Self)
        ensures
            r.ival() == 0,
    ;

    fn one() -> (r: Self)
        ensures
            r.ival() == 1,
    ;

    fn clone_val(&self) -> (r: Self)
        ensures
            r.ival() == self.ival(),
    ;

    fn plus(&self, other: &Self) -> (r: Self)
        requires
            Self::in_range(self.ival() + other.ival()),
        ensures
            r.ival() == self.ival() + other.ival(),
    ;

    fn minus(&self, other: &Self) -> (r: Self)
        requires
            Self::in_range(self.ival() - other.ival()),
        ensures
            r.ival() == self.ival() - other.ival(),
    ;

    fn times(&self, other: &Self) -> (r: Self)
        requires
            Self::in_range(self.ival() * other.ival()),
        ensures
            r.ival() == self.ival() * other.ival(),
    ;

    /// Halve, rounding towards negative infinity.
    fn half(&self) -> (r: Self)
        ensures
            r.ival() == self.ival() / 2,
    ;

    /// Double the value.
    fn double(&self) -> (r: Self)
        requires
            Self::in_range(2 * self.ival()),
        ensures
            r.ival() == 2 * self.ival(),
    ;

    /// Floor modulo by a positive modulus: the result lies in `[0, m)`.
    fn mod_floor(&self, m: &Self) -> (r: Self)
        requires
            m.ival() >= 1,
        ensures
            r.ival() == self.ival() % m.ival(),
    ;

    fn is_even(&self) -> (r: bool)
        ensures
            r == (self.ival() % 2 == 0),
    ;

    fn is_zero(&self) -> (r: bool)
        ensures
            r == (self.ival() == 0),
    ;

    fn is_one(&self) -> (r: bool)
        ensures
            r == (self.ival() == 1),
    ;

    fn leq(&self, other: &Self) -> (r: bool)
        ensures
            r == (self.ival() <= other.ival()),
    ;
}

impl IntValue for u8 {
    open spec fn ival(&self) -> int {
        *self as int
    }
}

impl IntValue for u16 {
    open spec fn ival(&self) -> int {
        *self as int
    }
}

impl IntValue for u32 {
    open spec fn ival(&self) -> int {
        *self as int
    }
}

impl IntValue for u64 {
    open spec fn ival(&self) -> int {
        *self as int
    }
}

impl IntValue for u128 {
    open spec fn ival(&self) -> int {
        *self as int
    }
}

impl IntValue for usize {
    open spec fn ival(&self) -> int {
        *self as int
    }
}

impl IntValue for i8 {
    open spec fn ival(&self) -> int {
        *self as int
    }
}

impl IntValue for i16 {
    open spec fn ival(&self) -> int {
        *self as int
    }
}

impl IntValue for i32 {
    open spec fn ival(&self) -> int {
        *self as int
    }
}

impl IntValue for i64 {
    open spec fn ival(&self) -> int {
        *self as int
    }
}

impl IntValue for i128 {
    open spec fn ival(&self) -> int {
        *self as int
    }
}

impl IntValue for isize {
    open spec fn ival(&self) -> int {
        *self as int
    }
}

impl IntOps for u128 {
    open spec fn in_range(v: int) -> bool {
        0 <= v <= u128::MAX
    }

    proof fn lemma_val_in_range(&self) {
    }

    proof fn lemma_range_interval(a: int, b: int) {
    }

    fn zero() -> (r: Self) {
        0
    }

    fn one() -> (r: Self) {
        1
    }

    fn clone_val(&self) -> (r: Self) {
        *self
    }

    fn plus(&self, other: &Self) -> (r: Self) {
        *self + *other
    }

    fn minus(&self, other: &Self) -> (r: Self) {
        *self - *other
    }

    fn times(&self, other: &Self) -> (r: Self) {
        *self * *other
    }

    fn half(&self) -> (r: Self) {
        *self / 2
    }

    fn double(&self) -> (r: Self) {
        *self * 2
    }

    fn mod_floor(&self, m: &Self) -> (r: Self) {
        *self % *m
    }

    fn is_even(&self) -> (r: bool) {
        *self % 2 == 0
    }

    fn is_zero(&self) -> (r: bool) {
        *self == 0
    }

    fn is_one(&self) -> (r: bool) {
        *self == 1
    }

    fn leq(&self, other: &Self) -> (r: bool) {
        *self <= *other
    }
}

impl IntOps for i128 {
    open spec fn in_range(v: int) -> bool {
        i128::MIN <= v <= i128::MAX
    }

    proof fn lemma_val_in_range(&self) {
    }

    proof fn lemma_range_interval(a: int, b: int) {
    }

    fn zero() -> (r: Self) {
        0
    }

    fn one() -> (r: Self) {
        1
    }

    fn clone_val(&self) -> (r: Self) {
        *self
    }

    fn plus(&self, other: &Self) -> (r: Self) {
        *self + *other
    }

    fn minus(&self, other: &Self) -> (r: Self) {
        *self - *other
    }

    fn times(&self, other: &Self) -> (r: Self) {
        *self * *other
    }

    fn half(&self) -> (r: Self) {
        let q: i128 = *self / 2;
        if *self < 0 && *self % 2 != 0 {
            q - 1
        } else {
            q
        }
    }

    fn double(&self) -> (r: Self) {
        *self * 2
    }

    fn mod_floor(&self, m: &Self) -> (r: Self) {
        let t: i128 = *self % *m;
        proof {
            if *self < 0 {
                let x = self.ival();
                let mi = m.ival();
                vstd::arithmetic::div_mod::lemma_fundamental_div_mod(-x, mi);
                vstd::arithmetic::div_mod::lemma_mod_division_less_than_divisor(-x, mi);
                let q = (-x) / mi;
                let rr = (-x) % mi;
                if rr == 0 {
                    assert(x == (-q) * mi + 0) by (nonlinear_arith)
                        requires
                            -x == q * mi + rr,
                            rr == 0,
                    ;
                    vstd::arithmetic::div_mod::lemma_fundamental_div_mod_converse_mod(
                        x, mi, -q, 0);
                } else {
                    assert(x == (-q - 1) * mi + (mi - rr)) by (nonlinear_arith)
                        requires
                            -x == q * mi + rr,
                    ;
                    vstd::arithmetic::div_mod::lemma_fundamental_div_mod_converse_mod(
                        x, mi, -q - 1, mi - rr);
                }
            }
        }
        if t < 0 {
            t + *m
        } else {
            t
        }
    }

    fn is_even(&self) -> (r: bool) {
        *self % 2 == 0
    }

    fn is_zero(&self) -> (r: bool) {
        *self == 0
    }

    fn is_one(&self) -> (r: bool) {
        *self == 1
    }

    fn leq(&self, other: &Self) -> (r: bool) {
        *self <= *other
    }
}

} // verus!
