//! A residue: a value paired with the modulus of the ring it lives in.

use vstd::prelude::*;
use crate::arith::is_gcd;
use crate::intops::IntOps;
use crate::modinv::ModInv;
use crate::modmult::ModMult;

verus! {

/// An element of the ring of integers modulo `modulus`. Construction
/// reduces the value, so a well-formed residue always satisfies
/// `0 <= value < modulus`. Two residues combine only when their moduli
/// are equal; combining residues of different rings is a programming
/// error and fails fatally.
#[derive(Clone, Debug)]
pub struct Mod<I> {
    value: I,
    modulus: I,
}

impl<I: IntOps + ModInv<I> + ModMult> Mod<I> {
    /// The value this residue stands for.
    pub closed spec fn value_spec(&self) -> int {
        self.value.ival()
    }

    /// The modulus of the ring this residue lives in.
    pub closed spec fn modulus_spec(&self) -> int {
        self.modulus.ival()
    }

    /// The residue invariant: the value is reduced below the modulus.
    pub open spec fn wf(&self) -> bool {
        0 <= self.value_spec() < self.modulus_spec()
    }

    /// A residue holding `value` reduced into `[0, modulus)`.
    pub fn new(value: &I, modulus: &I) -> (r: Mod<I>)
        requires
            modulus.ival() >= 1,
        ensures
            r.wf(),
            r.modulus_spec() == modulus.ival(),
            r.value_spec() == value.ival() % modulus.ival(),
    {
        let v = value.mod_floor(modulus);
        proof {
            vstd::arithmetic::div_mod::lemma_mod_division_less_than_divisor(
                value.ival(), modulus.ival());
        }
        Mod { value: v, modulus: modulus.clone_val() }
    }

    /// The reduced value, unwrapped from the ring.
    pub fn un_mod(&self) -> (r: I)
        ensures
            r.ival() == self.value_spec(),
    {
        self.value.clone_val()
    }

    /// The multiplicative inverse in the ring, when the value has one.
    pub fn inv(&self) -> (r: Option<Mod<I>>)
        requires
            self.wf(),
        ensures
            r.is_some() <==> (self.value_spec() >= 1 && is_gcd(
                1,
                self.value_spec(),
                self.modulus_spec(),
            )),
            r matches Some(res) ==> {
                &&& res.wf()
                &&& res.modulus_spec() == self.modulus_spec()
                &&& (self.value_spec() * res.value_spec()) % self.modulus_spec() == 1int
                    % self.modulus_spec()
            },
    {
        let result = self.value.mod_inv(&self.modulus);
        match result {
            Some(new_val) => {
                proof {
                    vstd::arithmetic::div_mod::lemma_small_mod(
                        new_val.ival() as nat, self.modulus.ival() as nat);
                }
                Some(Mod::new(&new_val, &self.modulus))
            },
            None => None,
        }
    }

    /// The additive identity of the ring.
    pub fn zero(modulus: &I) -> (r: Mod<I>)
        requires
            modulus.ival() >= 1,
        ensures
            r.wf(),
            r.modulus_spec() == modulus.ival(),
            r.value_spec() == 0,
    {
        proof {
            vstd::arithmetic::div_mod::lemma_small_mod(0, modulus.ival() as nat);
        }
        Mod::new(&I::zero(), modulus)
    }

    /// The multiplicative identity of the ring (zero in the trivial ring).
    pub fn one(modulus: &I) -> (r: Mod<I>)
        requires
            modulus.ival() >= 1,
        ensures
            r.wf(),
            r.modulus_spec() == modulus.ival(),
            r.value_spec() == 1int % modulus.ival(),
    {
        Mod::new(&I::one(), modulus)
    }

    /// Ring addition. The operands must live in the same ring; handing in
    /// residues of different moduli is a programming error that fails
    /// fatally rather than returning a value.
    pub fn plus(&self, rhs: &Mod<I>) -> (r: Mod<I>)
        requires
            self.wf(),
            rhs.wf(),
            self.modulus_spec() == rhs.modulus_spec(),
            I::in_range(self.value_spec() + rhs.value_spec()),
        ensures
            r.wf(),
            r.modulus_spec() == self.modulus_spec(),
            r.value_spec() == (self.value_spec() + rhs.value_spec()) % self.modulus_spec(),
    {
        if !(self.modulus.leq(&rhs.modulus) && rhs.modulus.leq(&self.modulus)) {
            vstd::pervasive::unreached()
        } else {
            let new_value = self.value.plus(&rhs.value);
            Mod::new(&new_value, &self.modulus)
        }
    }

    /// Ring multiplication, under the same same-modulus demand as `plus`.
    pub fn times(&self, rhs: &Mod<I>) -> (r: Mod<I>)
        requires
            self.wf(),
            rhs.wf(),
            self.modulus_spec() == rhs.modulus_spec(),
        ensures
            r.wf(),
            r.modulus_spec() == self.modulus_spec(),
            r.value_spec() == (self.value_spec() * rhs.value_spec()) % self.modulus_spec(),
    {
        if !(self.modulus.leq(&rhs.modulus) && rhs.modulus.leq(&self.modulus)) {
            vstd::pervasive::unreached()
        } else {
            let new_value = self.value.mod_mult(&rhs.value, &self.modulus);
            proof {
                vstd::arithmetic::div_mod::lemma_small_mod(
                    new_value.ival() as nat, self.modulus.ival() as nat);
            }
            Mod::new(&new_value, &self.modulus)
        }
    }
}

} // verus!
