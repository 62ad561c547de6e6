//! Fitting a frame of one aspect ratio into a frame of another.

use crate::fixed::{div_round, lemma_round_step, round_div, Fixed};
use vstd::prelude::*;

verus! {

/// Whether a frame of `width` by `height` is wider than the ratio `ratio`
/// by more than a tenth, or narrower by more than a tenth. A frame without
/// height is wider than any ratio, unless it has no width either.
pub open spec fn ratio_differs(width: int, height: int, ratio: Fixed) -> bool {
    if height == 0 {
        width > 0
    } else {
        width * 1_000_000 - ratio.micros * height > 100_000 * height || ratio.micros * height
            - width * 1_000_000 > 100_000 * height
    }
}

/// Whether a frame of `width` by `height` is wider than the ratio `ratio`.
pub open spec fn is_wider(width: int, height: int, ratio: Fixed) -> bool {
    width * 1_000_000 > ratio.micros * height
}

/// The width of the rectangle of ratio `ratio` that is as high as `height`.
pub open spec fn fitted_width(height: int, ratio: Fixed) -> int {
    if ratio.micros <= 0 {
        0
    } else {
        round_div(height * ratio.micros, 1_000_000)
    }
}

/// The height of the rectangle of the positive ratio `ratio` that is as
/// wide as `width`.
pub open spec fn fitted_height(width: int, ratio: Fixed) -> int {
    round_div(width * 1_000_000, ratio.micros as int)
}

/// The rectangle of the ratio `ratio` in the middle of a frame of `width`
/// by `height`, as left, top, width and height. A frame whose own ratio is
/// within a tenth of `ratio` is taken whole. Else the rectangle is as high
/// as a frame that is too wide, and as wide as a frame that is too narrow.
pub open spec fn center_rect(width: int, height: int, ratio: Fixed) -> (int, int, int, int) {
    if !ratio_differs(width, height, ratio) {
        (0, 0, width, height)
    } else if is_wider(width, height, ratio) {
        ((width - fitted_width(height, ratio)) / 2, 0, fitted_width(height, ratio), height)
    } else {
        (0, (height - fitted_height(width, ratio)) / 2, width, fitted_height(width, ratio))
    }
}

/// A rounded quotient of a numerator below a multiple of the divisor stays
/// at or below the factor.
pub proof fn lemma_round_below(n: int, d: int, bound: int)
    requires
        d > 0,
        0 <= n < bound * d,
    ensures
        0 <= round_div(n, d) <= bound,
{
    let q = n / d;
    let r = n % d;
    vstd::arithmetic::div_mod::lemma_fundamental_div_mod(n, d);
    vstd::arithmetic::div_mod::lemma_div_pos_is_pos(n, d);
    assert(n == q * d + r) by (nonlinear_arith)
        requires
            n == d * q + r,
    ;
    lemma_round_step(n, d, q, r);
    assert(q < bound) by (nonlinear_arith)
        requires
            n == q * d + r,
            0 <= r,
            n < bound * d,
            d > 0,
    ;
}

/// The rectangle of the ratio `org_ratio` in the middle of a frame of
/// `width` by `height`, as left, top, width and height.
pub fn get_center_rect(width: usize, height: usize, org_ratio: Fixed) -> (rect: (
    usize,
    usize,
    usize,
    usize,
))
    ensures
        (rect.0 as int, rect.1 as int, rect.2 as int, rect.3 as int) == center_rect(
            width as int,
            height as int,
            org_ratio,
        ),
        rect.0 + rect.2 <= width,
        rect.1 + rect.3 <= height,
{
    let w: u128 = (width as u128) * 1_000_000;
    let tenth: u128 = (height as u128) * 100_000;
    let positive: bool = org_ratio.micros > 0;
    let r: u128 = if positive {
        org_ratio.micros as u128
    } else {
        (-(org_ratio.micros as i128)) as u128
    };
    proof {
        let ri: int = r as int;
        let hi: int = height as int;
        assert(ri * hi <= 0x8000_0000_0000_0000 * 0xffff_ffff_ffff_ffff) by (nonlinear_arith)
            requires
                0 <= ri <= 0x8000_0000_0000_0000,
                0 <= hi <= 0xffff_ffff_ffff_ffff,
        ;
    }
    let rh: u128 = r * (height as u128);
    proof {
        let ri: int = r as int;
        let hi: int = height as int;
        let rhi: int = rh as int;
        let oi: int = org_ratio.micros as int;
        assert(oi * hi == if positive {
            rhi
        } else {
            -rhi
        }) by (nonlinear_arith)
            requires
                rhi == ri * hi,
                ri == if positive {
                    oi
                } else {
                    -oi
                },
        ;
        assert(hi == 0 ==> rhi == 0) by (nonlinear_arith)
            requires
                rhi == ri * hi,
        ;
    }
    let wider: bool = if positive {
        w > rh
    } else {
        w > 0 || rh > 0
    };
    let differs: bool = if height == 0 {
        width > 0
    } else if positive {
        (w > rh && w - rh > tenth) || (rh > w && rh - w > tenth)
    } else {
        w + rh > tenth
    };
    if !differs {
        (0, 0, width, height)
    } else if wider {
        let fitted: usize = if positive {
            proof {
                lemma_round_below(rh as int, 1_000_000, width as int);
            }
            div_round(rh, 1_000_000) as usize
        } else {
            0
        };
        ((width - fitted) / 2, 0, fitted, height)
    } else {
        proof {
            assert(positive);
            assert(height > 0);
            assert(rh > w);
            let wi: int = w as int;
            let ri: int = r as int;
            let hi: int = height as int;
            let rhi: int = rh as int;
            assert(wi < hi * ri) by (nonlinear_arith)
                requires
                    rhi == ri * hi,
                    wi < rhi,
            ;
            lemma_round_below(wi, ri, hi);
        }
        let fitted: usize = div_round(w, r) as usize;
        (0, (height - fitted) / 2, width, fitted)
    }
}

} // verus!
