//! The interface of a modular multiplication with a caller-chosen output
//! type. No implementation is provided yet; `ModMult` carries the
//! implemented operation.

use vstd::prelude::*;

verus! {

pub trait ModMul<T> {
    type Output;

    fn mod_mul(base: T, exponent: T, modulus: T) -> Self::Output;
}

} // verus!
