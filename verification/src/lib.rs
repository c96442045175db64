//! Modular-arithmetic primitives over fixed-width and arbitrary-precision
//! integers: extended binary greatest common divisor, modular inverse,
//! modular exponentiation, and modular multiply/add/subtract, together with
//! a residue (ring element) wrapper type.

pub mod algos;
pub mod arith;
pub mod bigops;
pub mod extended_gcd;
pub mod intops;
pub mod modadd;
pub mod moddiv;
pub mod modexp;
pub mod modinv;
pub mod modmul;
pub mod modmult;
pub mod modpow;
pub mod modular;
pub mod modsub;

pub use algos::GcdResult;
pub use arith::divides;
pub use arith::is_gcd;
pub use intops::IntOps;
pub use intops::IntValue;
pub use extended_gcd::ExtendedGcd;
pub use extended_gcd::Gcd;
pub use modexp::ModExp;
pub use modinv::ModInv;
pub use modadd::ModAdd;
pub use modsub::ModSub;
pub use modmult::ModMult;
pub use modmul::ModMul;
pub use moddiv::ModDiv;
pub use modpow::ModPow;
pub use modular::Mod;
