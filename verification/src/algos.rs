//! Free-function entry points of the arbitrary-precision algorithms.

use vstd::prelude::*;
use crate::arith::common_pow2;
use crate::arith::is_gcd;
use crate::bigops::big_eq;
use crate::extended_gcd::binary_extended_gcd;
use crate::intops::IntOps;
use crate::intops::IntValue;
use crate::modinv::mod_inv_generic;

verus! {

/// The result of the extended binary gcd on arbitrary-precision operands:
/// the Bezout coefficients, the common power of two stripped during
/// preprocessing, and the greatest common divisor.
pub struct GcdResult {
    pub coef_x: num::BigInt,
    pub coef_y: num::BigInt,
    pub g: num::BigInt,
    pub gcd_xy: num::BigInt,
}

/// Implementation of the binary extended gcd algorithm.
///
/// Given strictly positive integers x and y, compute integers a and b such that
///
/// a*x + b*y = v where v = gcd(x, y).
///
/// Note that the coefficients found by the extended GCD algorithm are not
/// unique: there is more than one set of solutions to the diophantine
/// equation above.
///
/// Returns `None`, with no computation attempted, unless both operands
/// are strictly positive.
pub fn extended_gcd(x: &num::BigInt, y: &num::BigInt) -> (r: Option<GcdResult>)
    ensures
        r.is_some() <==> (x.ival() >= 1 && y.ival() >= 1),
        r matches Some(res) ==> {
            &&& res.coef_x.ival() * x.ival() + res.coef_y.ival() * y.ival()
                == res.gcd_xy.ival()
            &&& is_gcd(res.gcd_xy.ival(), x.ival(), y.ival())
            &&& res.g.ival() == common_pow2(x.ival(), y.ival())
        },
{
    let one = <num::BigInt as IntOps>::one();
    if one.leq(x) && one.leq(y) {
        let res = binary_extended_gcd(x, y);
        Some(GcdResult { coef_x: res.coef_x, coef_y: res.coef_y, g: res.g, gcd_xy: res.gcd_xy })
    } else {
        None
    }
}

/// Tests whether a pair of coefficients satisfies the Bezout equation
/// `coef_x * x + coef_y * y == gcd_xy`; any pair that does is as good as
/// the one the algorithm returned.
pub fn valid_solution(
    x: &num::BigInt,
    y: &num::BigInt,
    coef_x: &num::BigInt,
    coef_y: &num::BigInt,
    gcd_xy: &num::BigInt,
) -> (r: bool)
    ensures
        r == (coef_x.ival() * x.ival() + coef_y.ival() * y.ival() == gcd_xy.ival()),
{
    let t1 = IntOps::times(coef_x, x);
    let t2 = IntOps::times(coef_y, y);
    let lhs = t1.plus(&t2);
    big_eq(&lhs, gcd_xy)
}

/// The inverse of `x` modulo `modulus`, reduced into `[0, modulus)`: it
/// exists exactly when both arguments are strictly positive and coprime.
pub fn mod_inv(x: &num::BigInt, modulus: &num::BigInt) -> (r: Option<num::BigInt>)
    ensures
        r.is_some() <==> (x.ival() >= 1 && modulus.ival() >= 1 && is_gcd(
            1,
            x.ival(),
            modulus.ival(),
        )),
        r matches Some(inv) ==> {
            &&& 0 <= inv.ival() < modulus.ival()
            &&& (x.ival() * inv.ival()) % modulus.ival() == 1int % modulus.ival()
        },
{
    mod_inv_generic(x, modulus)
}

} // verus!
