//! The interface of modular division. No implementation is provided yet;
//! dividing is multiplying by the inverse that `ModInv` computes, when it
//! exists.

use vstd::prelude::*;

verus! {

/// Computes the modular product of an integer and the inverse of another
/// integer, provided that the inverse exists.
pub trait ModDiv: Sized {
    fn mod_div(self: &Self, other: &Self, modulus: &Self) -> Option<Self>;
}

} // verus!
