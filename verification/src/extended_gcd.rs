//! The extended binary greatest-common-divisor algorithm, written once
//! against the integer capability contract.

use vstd::prelude::*;
use crate::arith::common_pow2;
use crate::arith::divides;
use crate::arith::is_gcd;
use crate::arith::lemma_bezout_is_gcd;
use crate::arith::lemma_even_half;
use crate::arith::lemma_halving_parity;
use crate::arith::lemma_common_pow2_bounds;
use crate::bigops::big_add;
use crate::bigops::big_div_floor;
use crate::bigops::big_eq;
use crate::bigops::big_from_i64;
use crate::bigops::big_mod_floor;
use crate::bigops::big_mul;
use crate::bigops::big_sub;
use crate::bigops::narrow_i64;
use crate::intops::IntOps;
use crate::intops::IntValue;

verus! {

/// A data structure storing the results of computing the greatest common
/// divisor of two integers: the Bezout coefficients, the common power of
/// two stripped during preprocessing, and the greatest common divisor.
pub struct Gcd<T> {
    pub coef_x: T,
    pub coef_y: T,
    pub g: T,
    pub gcd_xy: T,
}

/// Extended Gcd Algorithm trait.
pub trait ExtendedGcd<T: IntValue>: IntValue + Sized {
    /// Implementation of the binary extended gcd algorithm.
    ///
    /// Given strictly positive integers x and y, compute integers a and b
    /// such that
    ///
    /// a*x + b*y = v where v = gcd(x, y).
    ///
    /// Note that the coefficients found by the extended GCD algorithm are
    /// not unique: there is more than one set of solutions to the
    /// diophantine equation above, and the contract pins only the
    /// equation, the divisor, and the stripped power of two.
    ///
    /// Returns `None`, with no computation attempted, unless both
    /// operands are strictly positive.
    fn extended_gcd(&self, y: &T) -> (r: Option<Gcd<T>>)
        ensures
            r.is_some() <==> (self.ival() >= 1 && y.ival() >= 1),
            r matches Some(res) ==> {
                &&& res.coef_x.ival() * self.ival() + res.coef_y.ival() * y.ival()
                    == res.gcd_xy.ival()
                &&& is_gcd(res.gcd_xy.ival(), self.ival(), y.ival())
                &&& res.g.ival() == common_pow2(self.ival(), y.ival())
            },
    ;

    /// Tests whether a pair of coefficients coef_x and coef_y are
    /// valid solutions to the equation
    /// ```text
    /// coef_x * x + coef_y * y = gcd_xy
    /// ```
    /// where
    /// ```text
    /// gcd_xy = gcd(x,y)
    /// ```
    fn valid_solution(x: &T, y: &T, coef_x: &T, coef_y: &T, gcd_xy: &T) -> (r: bool)
        ensures
            r == (coef_x.ival() * x.ival() + coef_y.ival() * y.ival() == gcd_xy.ival()),
    ;
}

/// The extended binary gcd of two strictly positive integers, over any
/// integer type whose range is unbounded.
///
/// The returned record carries the Bezout certificate
/// `coef_x * x + coef_y * y == gcd_xy`, the greatest common divisor
/// itself, and the largest common power of two `g` of the operands.
pub(crate) fn binary_extended_gcd<T: IntOps>(x: &T, y: &T) -> (r: Gcd<T>)
    requires
        x.ival() >= 1,
        y.ival() >= 1,
        forall|w: int| T::in_range(w),
    ensures
        r.coef_x.ival() * x.ival() + r.coef_y.ival() * y.ival() == r.gcd_xy.ival(),
        is_gcd(r.gcd_xy.ival(), x.ival(), y.ival()),
        r.g.ival() == common_pow2(x.ival(), y.ival()),
{
    let mut xx = x.clone_val();
    let mut yy = y.clone_val();
    let mut g = T::one();

    // Strip the common factors of two, accumulating them into g.
    while xx.is_even() && yy.is_even()
        invariant
            forall|w: int| T::in_range(w),
            xx.ival() >= 1,
            yy.ival() >= 1,
            g.ival() >= 1,
            g.ival() * xx.ival() == x.ival(),
            g.ival() * yy.ival() == y.ival(),
            common_pow2(x.ival(), y.ival()) == g.ival() * common_pow2(xx.ival(), yy.ival()),
        decreases xx.ival(),
    {
        proof {
            lemma_even_half(xx.ival());
            lemma_even_half(yy.ival());
            assert((2 * g.ival()) * (xx.ival() / 2) == g.ival() * xx.ival()
                && (2 * g.ival()) * (yy.ival() / 2) == g.ival() * yy.ival()
                && g.ival() * (2 * common_pow2(xx.ival() / 2, yy.ival() / 2))
                    == (2 * g.ival()) * common_pow2(xx.ival() / 2, yy.ival() / 2))
                by (nonlinear_arith)
                requires
                    2 * (xx.ival() / 2) == xx.ival(),
                    2 * (yy.ival() / 2) == yy.ival(),
            ;
        }
        xx = xx.half();
        yy = yy.half();
        g = g.double();
    }

    let mut u = xx.clone_val();
    let mut v = yy.clone_val();
    let mut a = T::one();
    let mut b = T::zero();
    let mut c = T::zero();
    let mut d = T::one();

    // The inverse certificate: xx and yy stay integer combinations of u
    // and v, which at termination shows that the result divides both.
    let ghost mut p: int = 1;
    let ghost mut q: int = 0;
    let ghost mut rr: int = 0;
    let ghost mut s: int = 1;

    while !u.is_zero()
        invariant
            forall|w: int| T::in_range(w),
            xx.ival() >= 1,
            yy.ival() >= 1,
            !(xx.ival() % 2 == 0 && yy.ival() % 2 == 0),
            u.ival() >= 0,
            v.ival() >= 1,
            a.ival() * xx.ival() + b.ival() * yy.ival() == u.ival(),
            c.ival() * xx.ival() + d.ival() * yy.ival() == v.ival(),
            xx.ival() == p * u.ival() + q * v.ival(),
            yy.ival() == rr * u.ival() + s * v.ival(),
        decreases u.ival() + v.ival(),
    {
        let ghost m0: int = u.ival() + v.ival();
        while u.is_even()
            invariant
                forall|w: int| T::in_range(w),
                xx.ival() >= 1,
                yy.ival() >= 1,
                !(xx.ival() % 2 == 0 && yy.ival() % 2 == 0),
                u.ival() >= 1,
                v.ival() >= 1,
                a.ival() * xx.ival() + b.ival() * yy.ival() == u.ival(),
                c.ival() * xx.ival() + d.ival() * yy.ival() == v.ival(),
                xx.ival() == p * u.ival() + q * v.ival(),
                yy.ival() == rr * u.ival() + s * v.ival(),
                u.ival() + v.ival() <= m0,
            decreases u.ival(),
        {
            proof {
                lemma_even_half(u.ival());
            }
            let ghost u0: int = u.ival();
            u = u.half();
            if a.is_even() && b.is_even() {
                proof {
                    lemma_even_half(a.ival());
                    lemma_even_half(b.ival());
                    assert((a.ival() / 2) * xx.ival() + (b.ival() / 2) * yy.ival()
                        == u.ival()) by (nonlinear_arith)
                        requires
                            2 * (a.ival() / 2) == a.ival(),
                            2 * (b.ival() / 2) == b.ival(),
                            2 * u.ival() == u0,
                            a.ival() * xx.ival() + b.ival() * yy.ival() == u0,
                    ;
                }
                a = a.half();
                b = b.half();
            } else {
                proof {
                    lemma_halving_parity(a.ival(), b.ival(), xx.ival(), yy.ival());
                    lemma_even_half(a.ival() + yy.ival());
                    lemma_even_half(b.ival() - xx.ival());
                    assert(((a.ival() + yy.ival()) / 2) * xx.ival()
                        + ((b.ival() - xx.ival()) / 2) * yy.ival() == u.ival())
                        by (nonlinear_arith)
                        requires
                            2 * ((a.ival() + yy.ival()) / 2) == a.ival() + yy.ival(),
                            2 * ((b.ival() - xx.ival()) / 2) == b.ival() - xx.ival(),
                            2 * u.ival() == u0,
                            a.ival() * xx.ival() + b.ival() * yy.ival() == u0,
                    ;
                }
                let an = a.plus(&yy);
                let bn = b.minus(&xx);
                a = an.half();
                b = bn.half();
            }
            proof {
                assert((2 * p) * u.ival() == p * u0 && (2 * rr) * u.ival() == rr * u0)
                    by (nonlinear_arith)
                    requires
                        2 * u.ival() == u0,
                ;
                p = 2 * p;
                rr = 2 * rr;
            }
        }

        while v.is_even()
            invariant
                forall|w: int| T::in_range(w),
                xx.ival() >= 1,
                yy.ival() >= 1,
                !(xx.ival() % 2 == 0 && yy.ival() % 2 == 0),
                u.ival() >= 1,
                v.ival() >= 1,
                a.ival() * xx.ival() + b.ival() * yy.ival() == u.ival(),
                c.ival() * xx.ival() + d.ival() * yy.ival() == v.ival(),
                xx.ival() == p * u.ival() + q * v.ival(),
                yy.ival() == rr * u.ival() + s * v.ival(),
                u.ival() + v.ival() <= m0,
            decreases v.ival(),
        {
            proof {
                lemma_even_half(v.ival());
            }
            let ghost v0: int = v.ival();
            v = v.half();
            if c.is_even() && d.is_even() {
                proof {
                    lemma_even_half(c.ival());
                    lemma_even_half(d.ival());
                    assert((c.ival() / 2) * xx.ival() + (d.ival() / 2) * yy.ival()
                        == v.ival()) by (nonlinear_arith)
                        requires
                            2 * (c.ival() / 2) == c.ival(),
                            2 * (d.ival() / 2) == d.ival(),
                            2 * v.ival() == v0,
                            c.ival() * xx.ival() + d.ival() * yy.ival() == v0,
                    ;
                }
                c = c.half();
                d = d.half();
            } else {
                proof {
                    lemma_halving_parity(c.ival(), d.ival(), xx.ival(), yy.ival());
                    lemma_even_half(c.ival() + yy.ival());
                    lemma_even_half(d.ival() - xx.ival());
                    assert(((c.ival() + yy.ival()) / 2) * xx.ival()
                        + ((d.ival() - xx.ival()) / 2) * yy.ival() == v.ival())
                        by (nonlinear_arith)
                        requires
                            2 * ((c.ival() + yy.ival()) / 2) == c.ival() + yy.ival(),
                            2 * ((d.ival() - xx.ival()) / 2) == d.ival() - xx.ival(),
                            2 * v.ival() == v0,
                            c.ival() * xx.ival() + d.ival() * yy.ival() == v0,
                    ;
                }
                let cn = c.plus(&yy);
                let dn = d.minus(&xx);
                c = cn.half();
                d = dn.half();
            }
            proof {
                assert((2 * q) * v.ival() == q * v0 && (2 * s) * v.ival() == s * v0)
                    by (nonlinear_arith)
                    requires
                        2 * v.ival() == v0,
                ;
                q = 2 * q;
                s = 2 * s;
            }
        }

        if v.leq(&u) {
            proof {
                assert(p * (u.ival() - v.ival()) + (q + p) * v.ival()
                    == p * u.ival() + q * v.ival()
                    && rr * (u.ival() - v.ival()) + (s + rr) * v.ival()
                        == rr * u.ival() + s * v.ival()
                    && (a.ival() - c.ival()) * xx.ival() + (b.ival() - d.ival()) * yy.ival()
                        == u.ival() - v.ival()) by (nonlinear_arith)
                    requires
                        a.ival() * xx.ival() + b.ival() * yy.ival() == u.ival(),
                        c.ival() * xx.ival() + d.ival() * yy.ival() == v.ival(),
                ;
            }
            u = u.minus(&v);
            a = a.minus(&c);
            b = b.minus(&d);
            proof {
                q = q + p;
                s = s + rr;
            }
        } else {
            proof {
                assert((p + q) * u.ival() + q * (v.ival() - u.ival())
                    == p * u.ival() + q * v.ival()
                    && (rr + s) * u.ival() + s * (v.ival() - u.ival())
                        == rr * u.ival() + s * v.ival()
                    && (c.ival() - a.ival()) * xx.ival() + (d.ival() - b.ival()) * yy.ival()
                        == v.ival() - u.ival()) by (nonlinear_arith)
                    requires
                        a.ival() * xx.ival() + b.ival() * yy.ival() == u.ival(),
                        c.ival() * xx.ival() + d.ival() * yy.ival() == v.ival(),
                ;
            }
            v = v.minus(&u);
            c = c.minus(&a);
            d = d.minus(&b);
            proof {
                p = p + q;
                rr = rr + s;
            }
        }
    }

    // u == 0: the divisor is v scaled back by the stripped power of two,
    // and (c, d) is the coefficient pair.
    let gcd_xy = g.times(&v);
    proof {
        assert(xx.ival() == q * v.ival() && yy.ival() == s * v.ival());
        assert(c.ival() * x.ival() + d.ival() * y.ival() == gcd_xy.ival()
            && gcd_xy.ival() >= 1
            && x.ival() == q * gcd_xy.ival()
            && y.ival() == s * gcd_xy.ival()) by (nonlinear_arith)
            requires
                g.ival() * xx.ival() == x.ival(),
                g.ival() * yy.ival() == y.ival(),
                c.ival() * xx.ival() + d.ival() * yy.ival() == v.ival(),
                xx.ival() == q * v.ival(),
                yy.ival() == s * v.ival(),
                gcd_xy.ival() == g.ival() * v.ival(),
                g.ival() >= 1,
                v.ival() >= 1,
        ;
        assert(divides(gcd_xy.ival(), x.ival()));
        assert(divides(gcd_xy.ival(), y.ival()));
        lemma_bezout_is_gcd(x.ival(), y.ival(), c.ival(), d.ival(), gcd_xy.ival());
    }
    Gcd { coef_x: c, coef_y: d, g, gcd_xy }
}

/// The extended gcd of 64-bit operands, computed at arbitrary precision.
/// Of the many valid coefficient pairs the canonical one is returned: the
/// coefficient of `x` reduced into `[0, y / gcd)`, which keeps both
/// coefficients within the range of the operands' type.
pub(crate) fn xgcd_i64(x: i64, y: i64) -> (r: Gcd<i64>)
    requires
        x >= 1,
        y >= 1,
    ensures
        r.coef_x * x + r.coef_y * y == r.gcd_xy,
        is_gcd(r.gcd_xy as int, x as int, y as int),
        r.g == common_pow2(x as int, y as int),
        0 <= r.coef_x <= y,
        -x <= r.coef_y <= 1,
        1 <= r.g <= x,
        1 <= r.gcd_xy <= x,
        r.gcd_xy <= y,
{
    let xb = big_from_i64(x);
    let yb = big_from_i64(y);
    let res = binary_extended_gcd(&xb, &yb);
    let ghost xv: int = x as int;
    let ghost yv: int = y as int;
    let ghost cx: int = res.coef_x.ival();
    let ghost cy: int = res.coef_y.ival();
    let ghost gg: int = res.gcd_xy.ival();
    let ghost kx: int = choose|k: int| xv == #[trigger] (k * gg);
    let ghost ky: int = choose|k: int| yv == #[trigger] (k * gg);
    proof {
        assert(divides(gg, xv) && divides(gg, yv));
        assert(kx >= 1 && ky >= 1 && gg <= xv && gg <= yv) by (nonlinear_arith)
            requires
                xv == kx * gg,
                yv == ky * gg,
                gg >= 1,
                xv >= 1,
                yv >= 1,
        ;
    }
    let w = big_div_floor(&yb, &res.gcd_xy);
    proof {
        vstd::arithmetic::div_mod::lemma_div_multiples_vanish(ky, gg);
        assert(yv == gg * ky) by (nonlinear_arith)
            requires
                yv == ky * gg,
        ;
        assert(w.ival() == ky);
        assert(ky <= yv) by (nonlinear_arith)
            requires
                yv == ky * gg,
                gg >= 1,
                ky >= 1,
        ;
    }
    let cxn = big_mod_floor(&res.coef_x, &w);
    proof {
        vstd::arithmetic::div_mod::lemma_mod_division_less_than_divisor(cx, ky);
        vstd::arithmetic::div_mod::lemma_fundamental_div_mod(cx, ky);
    }
    let ghost t: int = cx / ky;
    let prod = big_mul(&cxn, &xb);
    let numr = big_sub(&res.gcd_xy, &prod);
    proof {
        assert(numr.ival() == yv * (cy + t * kx)) by (nonlinear_arith)
            requires
                numr.ival() == gg - cxn.ival() * xv,
                cxn.ival() == cx - ky * t,
                cx * xv + cy * yv == gg,
                xv == kx * gg,
                yv == ky * gg,
        ;
        vstd::arithmetic::div_mod::lemma_div_multiples_vanish(cy + t * kx, yv);
    }
    let cyn = big_div_floor(&numr, &yb);
    proof {
        assert(cyn.ival() == cy + t * kx);
        assert(cxn.ival() * xv + cyn.ival() * yv == gg) by (nonlinear_arith)
            requires
                gg - cxn.ival() * xv == numr.ival(),
                numr.ival() == yv * cyn.ival(),
        ;
        assert(cyn.ival() <= 1) by (nonlinear_arith)
            requires
                cyn.ival() * yv == gg - cxn.ival() * xv,
                0 <= cxn.ival(),
                1 <= gg <= yv,
                xv >= 1,
                yv >= 1,
        ;
        assert(-xv <= cyn.ival()) by (nonlinear_arith)
            requires
                cyn.ival() * yv == gg - cxn.ival() * xv,
                0 <= cxn.ival() < ky,
                ky <= yv,
                1 <= gg,
                xv >= 1,
                yv >= 1,
        ;
        lemma_common_pow2_bounds(xv, yv);
    }
    let coef_x = narrow_i64(&cxn);
    let coef_y = narrow_i64(&cyn);
    let g = narrow_i64(&res.g);
    let gcd_xy = narrow_i64(&res.gcd_xy);
    proof {
        lemma_bezout_is_gcd(xv, yv, coef_x as int, coef_y as int, gcd_xy as int);
    }
    Gcd { coef_x, coef_y, g, gcd_xy }
}

/// Whether 64-bit coefficients solve the Bezout equation, decided at
/// arbitrary precision so that no product can wrap.
pub(crate) fn valid_solution_i64(x: i64, y: i64, coef_x: i64, coef_y: i64, gcd_xy: i64) -> (r:
    bool)
    ensures
        r == (coef_x * x + coef_y * y == gcd_xy),
{
    let t1 = big_mul(&big_from_i64(coef_x), &big_from_i64(x));
    let t2 = big_mul(&big_from_i64(coef_y), &big_from_i64(y));
    let lhs = big_add(&t1, &t2);
    let rhs = big_from_i64(gcd_xy);
    big_eq(&lhs, &rhs)
}

impl ExtendedGcd<num::BigInt> for num::BigInt {
    fn extended_gcd(&self, y: &num::BigInt) -> (r: Option<Gcd<num::BigInt>>) {
        let one = <num::BigInt as IntOps>::one();
        if one.leq(self) && one.leq(y) {
            Some(binary_extended_gcd(self, y))
        } else {
            None
        }
    }

    fn valid_solution(
        x: &num::BigInt,
        y: &num::BigInt,
        coef_x: &num::BigInt,
        coef_y: &num::BigInt,
        gcd_xy: &num::BigInt,
    ) -> (r: bool) {
        let t1 = IntOps::times(coef_x, x);
        let t2 = IntOps::times(coef_y, y);
        let lhs = t1.plus(&t2);
        big_eq(&lhs, gcd_xy)
    }
}

impl ExtendedGcd<i8> for i8 {
    fn extended_gcd(&self, y: &i8) -> (r: Option<Gcd<i8>>) {
        if *self >= 1 && *y >= 1 {
            let wide = xgcd_i64(*self as i64, *y as i64);
            Some(Gcd {
                coef_x: wide.coef_x as i8,
                coef_y: wide.coef_y as i8,
                g: wide.g as i8,
                gcd_xy: wide.gcd_xy as i8,
            })
        } else {
            None
        }
    }

    fn valid_solution(x: &i8, y: &i8, coef_x: &i8, coef_y: &i8, gcd_xy: &i8) -> (r: bool) {
        valid_solution_i64(*x as i64, *y as i64, *coef_x as i64, *coef_y as i64, *gcd_xy as i64)
    }
}

impl ExtendedGcd<i16> for i16 {
    fn extended_gcd(&self, y: &i16) -> (r: Option<Gcd<i16>>) {
        if *self >= 1 && *y >= 1 {
            let wide = xgcd_i64(*self as i64, *y as i64);
            Some(Gcd {
                coef_x: wide.coef_x as i16,
                coef_y: wide.coef_y as i16,
                g: wide.g as i16,
                gcd_xy: wide.gcd_xy as i16,
            })
        } else {
            None
        }
    }

    fn valid_solution(x: &i16, y: &i16, coef_x: &i16, coef_y: &i16, gcd_xy: &i16) -> (r: bool) {
        valid_solution_i64(*x as i64, *y as i64, *coef_x as i64, *coef_y as i64, *gcd_xy as i64)
    }
}

impl ExtendedGcd<i32> for i32 {
    fn extended_gcd(&self, y: &i32) -> (r: Option<Gcd<i32>>) {
        if *self >= 1 && *y >= 1 {
            let wide = xgcd_i64(*self as i64, *y as i64);
            Some(Gcd {
                coef_x: wide.coef_x as i32,
                coef_y: wide.coef_y as i32,
                g: wide.g as i32,
                gcd_xy: wide.gcd_xy as i32,
            })
        } else {
            None
        }
    }

    fn valid_solution(x: &i32, y: &i32, coef_x: &i32, coef_y: &i32, gcd_xy: &i32) -> (r: bool) {
        valid_solution_i64(*x as i64, *y as i64, *coef_x as i64, *coef_y as i64, *gcd_xy as i64)
    }
}

impl ExtendedGcd<isize> for isize {
    fn extended_gcd(&self, y: &isize) -> (r: Option<Gcd<isize>>) {
        if *self >= 1 && *y >= 1 {
            let wide = xgcd_i64(*self as i64, *y as i64);
            Some(Gcd {
                coef_x: wide.coef_x as isize,
                coef_y: wide.coef_y as isize,
                g: wide.g as isize,
                gcd_xy: wide.gcd_xy as isize,
            })
        } else {
            None
        }
    }

    fn valid_solution(x: &isize, y: &isize, coef_x: &isize, coef_y: &isize, gcd_xy: &isize) -> (r: bool) {
        valid_solution_i64(*x as i64, *y as i64, *coef_x as i64, *coef_y as i64, *gcd_xy as i64)
    }
}

impl ExtendedGcd<i64> for i64 {
    fn extended_gcd(&self, y: &i64) -> (r: Option<Gcd<i64>>) {
        if *self >= 1 && *y >= 1 {
            Some(xgcd_i64(*self, *y))
        } else {
            None
        }
    }

    fn valid_solution(x: &i64, y: &i64, coef_x: &i64, coef_y: &i64, gcd_xy: &i64) -> (r: bool) {
        valid_solution_i64(*x, *y, *coef_x, *coef_y, *gcd_xy)
    }
}

} // verus!
