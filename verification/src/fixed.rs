//! Decimal numbers with six fractional digits, and exact rounded ratios.
//!
//! Parameter values, frame rates and fractional frame numbers are kept as
//! whole counts of millionths. Every quotient in this crate is the exact
//! rational quotient rounded to the nearest whole number, halves away from
//! zero, and clamped to the range of the result type.

use vstd::prelude::*;

verus! {

/// How many millionths make one.
pub const MICROS_PER_UNIT: i64 = 1_000_000;

/// A decimal number, held as a count of millionths.
#[derive(Clone, Copy, Debug, PartialEq, Eq, Structural, Hash)]
pub struct Fixed {
    pub micros: i64,
}

/// `n / d` rounded to the nearest whole number, halves away from zero, for
/// a positive `d`.
pub open spec fn round_div(n: int, d: int) -> int {
    if n >= 0 {
        (2 * n + d) / (2 * d)
    } else {
        -((2 * (-n) + d) / (2 * d))
    }
}

/// `n / d` rounded as `round_div` does, for any `d`. Dividing by zero gives
/// the far end of the number line on the side of `n`, and zero for `0 / 0`.
pub open spec fn ratio(n: int, d: int) -> int {
    if d > 0 {
        round_div(n, d)
    } else if d < 0 {
        round_div(-n, -d)
    } else if n > 0 {
        i64::MAX as int + 1
    } else if n < 0 {
        i64::MIN as int - 1
    } else {
        0
    }
}

/// `x` clamped to the range of `i64`.
pub open spec fn saturate(x: int) -> i64 {
    if x > i64::MAX {
        i64::MAX
    } else if x < i64::MIN {
        i64::MIN
    } else {
        x as i64
    }
}

/// `x` clamped to the range of `i32`.
pub open spec fn saturate32(x: int) -> i32 {
    if x > i32::MAX {
        i32::MAX
    } else if x < i32::MIN {
        i32::MIN
    } else {
        x as i32
    }
}

/// The absolute value of `x`.
pub open spec fn magnitude(x: int) -> int {
    if x >= 0 {
        x
    } else {
        -x
    }
}

/// Rounding to nearest is one comparison of the remainder away from the
/// truncated quotient.
pub proof fn lemma_round_step(p: int, d: int, q: int, r: int)
    requires
        d > 0,
        0 <= r < d,
        p == q * d + r,
    ensures
        (2 * p + d) / (2 * d) == if 2 * r >= d {
            q + 1
        } else {
            q
        },
{
    let e: int = if 2 * r >= d {
        1
    } else {
        0
    };
    let rest: int = if 2 * r >= d {
        2 * r - d
    } else {
        2 * r + d
    };
    assert(2 * p + d == (q + e) * (2 * d) + rest) by (nonlinear_arith)
        requires
            p == q * d + r,
            (e == 1 && rest == 2 * r - d) || (e == 0 && rest == 2 * r + d),
    ;
    vstd::arithmetic::div_mod::lemma_fundamental_div_mod_converse(2 * p + d, 2 * d, q + e, rest);
}

/// A rounded quotient grows with its numerator.
pub proof fn lemma_round_div_monotonic(a: int, b: int, d: int)
    requires
        d > 0,
        0 <= a <= b,
    ensures
        0 <= round_div(a, d) <= round_div(b, d),
{
    vstd::arithmetic::div_mod::lemma_div_is_ordered(2 * a + d, 2 * b + d, 2 * d);
    vstd::arithmetic::div_mod::lemma_div_pos_is_pos(2 * a + d, 2 * d);
}

/// A whole multiple divides without a remainder.
pub proof fn lemma_round_div_multiple(k: int, d: int)
    requires
        d > 0,
        k >= 0,
    ensures
        round_div(k * d, d) == k,
{
    assert(k * d >= 0) by (nonlinear_arith)
        requires
            k >= 0,
            d > 0,
    ;
    lemma_round_step(k * d, d, k, 0);
}

/// The magnitude of a 64-bit number.
pub fn abs64(x: i64) -> (m: u64)
    ensures
        m == magnitude(x as int),
{
    if x >= 0 {
        x as u64
    } else {
        let above: i64 = x + 1;
        let below: i64 = -above;
        (below as u64) + 1
    }
}

/// `p / d` rounded to the nearest whole number, halves up.
pub fn div_round(p: u128, d: u128) -> (q: u128)
    requires
        d > 0,
    ensures
        q == round_div(p as int, d as int),
{
    let q0: u128 = p / d;
    let r: u128 = p % d;
    proof {
        vstd::arithmetic::div_mod::lemma_fundamental_div_mod(p as int, d as int);
        assert(p as int == q0 as int * d as int + r as int) by (nonlinear_arith)
            requires
                p as int == d as int * (p as int / d as int) + (p as int % d as int),
                q0 as int == p as int / d as int,
                r as int == p as int % d as int,
        ;
        lemma_round_step(p as int, d as int, q0 as int, r as int);
    }
    if r >= d - r {
        proof {
            assert(d >= 2);
            assert(q0 as int * 2 <= p as int) by (nonlinear_arith)
                requires
                    p as int == q0 as int * d as int + r as int,
                    d as int >= 2,
                    r as int >= 0,
                    q0 as int >= 0,
            ;
        }
        q0 + 1
    } else {
        q0
    }
}

/// The number with magnitude `m` and the sign given, clamped to `i64`.
pub fn signed_saturated(negative: bool, m: u128) -> (x: i64)
    ensures
        x == saturate(
            if negative {
                -(m as int)
            } else {
                m as int
            },
        ),
{
    if negative {
        if m > 0x7fff_ffff_ffff_ffff {
            i64::MIN
        } else {
            let v: i64 = m as i64;
            -v
        }
    } else {
        if m > 0x7fff_ffff_ffff_ffff {
            i64::MAX
        } else {
            m as i64
        }
    }
}

/// `a * b / d`, rounded and clamped: the one quotient every conversion in
/// this crate is made of.
pub fn mul_div(a: i64, b: i64, d: i64) -> (x: i64)
    ensures
        x == saturate(ratio(a as int * b as int, d as int)),
{
    let ma: u64 = abs64(a);
    let mb: u64 = abs64(b);
    let md: u64 = abs64(d);
    let negative_product: bool = (a < 0) != (b < 0);
    proof {
        let ai: int = a as int;
        let bi: int = b as int;
        let mai: int = ma as int;
        let mbi: int = mb as int;
        assert(mai * mbi <= 0x8000_0000_0000_0000 * 0x8000_0000_0000_0000) by (nonlinear_arith)
            requires
                0 <= mai <= 0x8000_0000_0000_0000,
                0 <= mbi <= 0x8000_0000_0000_0000,
        ;
        assert(magnitude(ai * bi) == mai * mbi && (negative_product ==> ai * bi <= 0) && (
        !negative_product ==> ai * bi >= 0)) by (nonlinear_arith)
            requires
                mai == magnitude(ai),
                mbi == magnitude(bi),
                negative_product == ((ai < 0) != (bi < 0)),
        ;
    }
    let p: u128 = (ma as u128) * (mb as u128);
    if md == 0 {
        if p == 0 {
            0
        } else if negative_product {
            i64::MIN
        } else {
            i64::MAX
        }
    } else {
        let q: u128 = div_round(p, md as u128);
        let negative: bool = negative_product != (d < 0);
        proof {
            if p == 0 {
                lemma_round_step(0, md as int, 0, 0);
            }
        }
        signed_saturated(negative, q)
    }
}

/// The count `n` as a decimal number, clamped.
pub open spec fn whole(n: int) -> Fixed {
    Fixed { micros: saturate(n * 1_000_000) }
}

/// The whole part of `x` as a count: zero for a negative number.
pub open spec fn whole_part(x: Fixed) -> int {
    if x.micros <= 0 {
        0
    } else {
        x.micros as int / 1_000_000
    }
}

impl Fixed {
    /// The count `n` as a decimal number, clamped.
    pub fn from_count(n: usize) -> (x: Fixed)
        ensures
            x == whole(n as int),
    {
        let wide: u64 = n as u64;
        if wide > 9_223_372_036_854 {
            Fixed { micros: i64::MAX }
        } else {
            Fixed { micros: (wide as i64) * 1_000_000 }
        }
    }

    /// The whole number `n` as a decimal number, clamped.
    pub fn from_whole(n: i64) -> (x: Fixed)
        ensures
            x == whole(n as int),
    {
        if n > 9_223_372_036_854 {
            Fixed { micros: i64::MAX }
        } else if n < -9_223_372_036_854 {
            Fixed { micros: i64::MIN }
        } else {
            Fixed { micros: n * 1_000_000 }
        }
    }

    /// The whole part of this number as a count: zero for a negative
    /// number, and the largest count for a number beyond it.
    pub fn to_count(self) -> (n: usize)
        ensures
            n == if whole_part(self) > usize::MAX {
                usize::MAX as int
            } else {
                whole_part(self)
            },
    {
        if self.micros <= 0 {
            0
        } else {
            let units: u64 = (self.micros / 1_000_000) as u64;
            if units > usize::MAX as u64 {
                usize::MAX
            } else {
                units as usize
            }
        }
    }

    /// This number divided by `divisor`, to the nearest millionth.
    pub fn divided_by(self, divisor: i64) -> (x: Fixed)
        ensures
            x.micros == saturate(ratio(self.micros as int, divisor as int)),
    {
        assert(self.micros as int * 1 == self.micros as int);
        Fixed { micros: mul_div(self.micros, 1, divisor) }
    }

    /// This number multiplied by the whole number `factor`, clamped.
    pub fn times(self, factor: i64) -> (x: Fixed)
        ensures
            x.micros == saturate(self.micros as int * factor as int),
    {
        proof {
            let n = self.micros as int * factor as int;
            if n >= 0 {
                lemma_round_step(n, 1, n, 0);
            } else {
                lemma_round_step(-n, 1, -n, 0);
            }
        }
        Fixed { micros: mul_div(self.micros, factor, 1) }
    }

    /// The larger of this number and `floor`.
    pub fn at_least(self, floor: Fixed) -> (x: Fixed)
        ensures
            x.micros == if self.micros >= floor.micros {
                self.micros
            } else {
                floor.micros
            },
    {
        if self.micros >= floor.micros {
            self
        } else {
            floor
        }
    }

    /// The smaller of this number and `ceiling`.
    pub fn at_most(self, ceiling: Fixed) -> (x: Fixed)
        ensures
            x.micros == if self.micros <= ceiling.micros {
                self.micros
            } else {
                ceiling.micros
            },
    {
        if self.micros <= ceiling.micros {
            self
        } else {
            ceiling
        }
    }
}

} // verus!
