//! Divisibility, the greatest-common-divisor characterisation, and the
//! arithmetic lemmas the verified algorithms rest on.

use vstd::prelude::*;

verus! {

/// `d` divides `n`: some integer multiple of `d` equals `n`.
pub open spec fn divides(d: int, n: int) -> bool {
    exists|k: int| n == #[trigger] (k * d)
}

/// `g` is the greatest common divisor of `x` and `y`, characterised by
/// divisibility: `g` is a positive common divisor that every common
/// divisor divides.
pub open spec fn is_gcd(g: int, x: int, y: int) -> bool {
    &&& g >= 1
    &&& divides(g, x)
    &&& divides(g, y)
    &&& forall|d: int| divides(d, x) && divides(d, y) ==> divides(d, g)
}

/// The largest power of two dividing both `x` and `y` (for positive `x`, `y`).
pub open spec fn common_pow2(x: int, y: int) -> int
    recommends
        x >= 1,
        y >= 1,
    decreases x,
        when x >= 1
{
    if x >= 1 && y >= 1 && x % 2 == 0 && y % 2 == 0 {
        2 * common_pow2(x / 2, y / 2)
    } else {
        1
    }
}

/// Halving an even number is exact.
pub proof fn lemma_even_half(n: int)
    requires
        n % 2 == 0,
    ensures
        2 * (n / 2) == n,
{
    vstd::arithmetic::div_mod::lemma_fundamental_div_mod(n, 2);
}

/// A divisor of `x` and of `y` divides every integer combination of them.
pub proof fn lemma_divides_combination(d: int, x: int, y: int, a: int, b: int)
    requires
        divides(d, x),
        divides(d, y),
    ensures
        divides(d, a * x + b * y),
{
    let kx = choose|k: int| x == #[trigger] (k * d);
    let ky = choose|k: int| y == #[trigger] (k * d);
    assert(a * x + b * y == (a * kx + b * ky) * d) by (nonlinear_arith)
        requires
            x == kx * d,
            y == ky * d,
    ;
}

proof fn lemma_divides_antisymmetric(g1: int, g2: int)
    requires
        g1 >= 1,
        g2 >= 1,
        divides(g1, g2),
        divides(g2, g1),
    ensures
        g1 == g2,
{
    let k1 = choose|k: int| g2 == #[trigger] (k * g1);
    let k2 = choose|k: int| g1 == #[trigger] (k * g2);
    assert(g1 == g2) by (nonlinear_arith)
        requires
            g1 >= 1,
            g2 >= 1,
            g2 == k1 * g1,
            g1 == k2 * g2,
    ;
}

/// The only positive divisor of one is one itself.
pub proof fn lemma_divides_one_bound(g: int)
    requires
        g >= 1,
        divides(g, 1),
    ensures
        g == 1,
{
    let k = choose|k: int| 1 == #[trigger] (k * g);
    assert(g == 1) by (nonlinear_arith)
        requires
            g >= 1,
            1 == k * g,
    ;
}

/// The greatest common divisor of a pair is unique: the algorithms may
/// return different coefficient pairs, but never different divisors.
pub proof fn lemma_is_gcd_unique(g1: int, g2: int, x: int, y: int)
    requires
        is_gcd(g1, x, y),
        is_gcd(g2, x, y),
    ensures
        g1 == g2,
{
    assert(divides(g1, g2));
    assert(divides(g2, g1));
    lemma_divides_antisymmetric(g1, g2);
}

/// Every common divisor of `x` and `y` divides any value with a Bezout
/// certificate `cx * x + cy * y == g`; with `g` itself a positive common
/// divisor, that certificate therefore pins `g` as the greatest one.
pub proof fn lemma_bezout_is_gcd(x: int, y: int, cx: int, cy: int, g: int)
    requires
        g >= 1,
        divides(g, x),
        divides(g, y),
        cx * x + cy * y == g,
    ensures
        is_gcd(g, x, y),
{
    assert forall|d: int| divides(d, x) && divides(d, y) implies divides(d, g) by {
        lemma_divides_combination(d, x, y, cx, cy);
    }
}

/// The common power of two of positive operands is positive and exceeds
/// neither of them.
pub proof fn lemma_common_pow2_bounds(x: int, y: int)
    requires
        x >= 1,
        y >= 1,
    ensures
        1 <= common_pow2(x, y) <= x,
        common_pow2(x, y) <= y,
    decreases x,
{
    if x % 2 == 0 && y % 2 == 0 {
        lemma_even_half(x);
        lemma_even_half(y);
        lemma_common_pow2_bounds(x / 2, y / 2);
    }
}

/// An odd divisor of a power of two divides one.
proof fn lemma_odd_divisor_of_pow2(e: nat, d: int)
    requires
        d % 2 == 1,
        divides(d, vstd::arithmetic::power2::pow2(e) as int),
    ensures
        divides(d, 1),
    decreases e,
{
    let pe = vstd::arithmetic::power2::pow2(e) as int;
    let k = choose|k: int| pe == #[trigger] (k * d);
    if e == 0 {
        assert(vstd::arithmetic::power2::pow2(0) == 1) by {
            vstd::arithmetic::power2::lemma2_to64();
        }
        assert(divides(d, 1));
    } else {
        vstd::arithmetic::power2::lemma_pow2_unfold(e);
        let pe1 = vstd::arithmetic::power2::pow2((e - 1) as nat) as int;
        assert(pe == 2 * pe1);
        vstd::arithmetic::div_mod::lemma_mod_multiples_basic(pe1, 2);
        vstd::arithmetic::div_mod::lemma_mul_mod_noop_general(k, d, 2);
        assert((k % 2) * (d % 2) % 2 == 0);
        assert(k % 2 == 0) by (nonlinear_arith)
            requires
                (k % 2) * (d % 2) % 2 == 0,
                d % 2 == 1,
                0 <= k % 2 < 2,
        ;
        lemma_even_half(k);
        assert(pe1 == (k / 2) * d) by (nonlinear_arith)
            requires
                pe == 2 * pe1,
                pe == k * d,
                2 * (k / 2) == k,
        ;
        lemma_odd_divisor_of_pow2((e - 1) as nat, d);
    }
}

/// An odd modulus is coprime to the power-of-two Montgomery base: the two
/// have no common divisor beyond a unit.
pub proof fn lemma_odd_coprime_montgomery_base(m: int)
    requires
        m % 2 == 1,
    ensures
        is_gcd(1, 256, m),
{
    assert(256 == 256 * 1);
    assert(m == m * 1);
    assert forall|d: int| divides(d, 256) && divides(d, m) implies divides(d, 1) by {
        let k = choose|k: int| m == #[trigger] (k * d);
        vstd::arithmetic::div_mod::lemma_mul_mod_noop_general(k, d, 2);
        if d % 2 == 0 {
            assert((k % 2) * 0 == 0) by (nonlinear_arith);
            assert(m % 2 == 0);
        }
        assert(d % 2 == 1);
        assert(vstd::arithmetic::power2::pow2(8) == 256) by {
            vstd::arithmetic::power2::lemma2_to64();
        }
        lemma_odd_divisor_of_pow2(8, d);
    }
}

/// The parity fact behind the halving-with-adjustment step of the binary
/// extended gcd: when `a * x + b * y` is even but `a`, `b` are not both
/// even and `x`, `y` are not both even, the adjusted coefficients
/// `a + y` and `b - x` are both even, so halving them is exact.
pub proof fn lemma_halving_parity(a: int, b: int, x: int, y: int)
    requires
        (a * x + b * y) % 2 == 0,
        !(a % 2 == 0 && b % 2 == 0),
        !(x % 2 == 0 && y % 2 == 0),
    ensures
        (a + y) % 2 == 0,
        (b - x) % 2 == 0,
{
    vstd::arithmetic::div_mod::lemma_mul_mod_noop_general(a, x, 2);
    vstd::arithmetic::div_mod::lemma_mul_mod_noop_general(b, y, 2);
    vstd::arithmetic::div_mod::lemma_add_mod_noop(a * x, b * y, 2);
    vstd::arithmetic::div_mod::lemma_add_mod_noop(a, y, 2);
    vstd::arithmetic::div_mod::lemma_sub_mod_noop(b, x, 2);
    let a0 = a % 2;
    let b0 = b % 2;
    let x0 = x % 2;
    let y0 = y % 2;
    assert(((a0 * x0) % 2 + (b0 * y0) % 2) % 2 == 0);
    assert(0 <= a0 < 2 && 0 <= b0 < 2 && 0 <= x0 < 2 && 0 <= y0 < 2);
    assert((a0 + y0) % 2 == 0 && (b0 - x0) % 2 == 0) by (nonlinear_arith)
        requires
            ((a0 * x0) % 2 + (b0 * y0) % 2) % 2 == 0,
            !(a0 == 0 && b0 == 0),
            !(x0 == 0 && y0 == 0),
            0 <= a0 < 2,
            0 <= b0 < 2,
            0 <= x0 < 2,
            0 <= y0 < 2,
    ;
    assert((a0 + y0) % 2 == ((a % 2) + (y % 2)) % 2);
}

/// Bezout coefficient pairs are not unique: shifting a valid pair by
/// `(y, -x)` yields a second, distinct valid pair for the same equation.
pub proof fn lemma_second_coefficient_pair(x: int, y: int, cx: int, cy: int, g: int)
    requires
        cx * x + cy * y == g,
    ensures
        (cx + y) * x + (cy - x) * y == g,
{
    assert((cx + y) * x + (cy - x) * y == cx * x + cy * y) by (nonlinear_arith);
}

} // verus!
