//! What the hosts compute about frames: sizes, rectangles, trims and times.

use crate::chars::{replace_all, replaced};
use crate::fixed::{mul_div, ratio, saturate, Fixed};
use crate::geometry::{center_rect, get_center_rect};
use vstd::prelude::*;

verus! {

/// `x` clamped to the range of `i32`.
pub open spec fn clamp32(x: i64) -> i32 {
    if x > i32::MAX {
        i32::MAX
    } else if x < i32::MIN {
        i32::MIN
    } else {
        x as i32
    }
}

/// `x` clamped to the range of `u32`.
pub open spec fn clamp_u32(x: i64) -> u32 {
    if x > u32::MAX {
        u32::MAX
    } else if x < 0 {
        0
    } else {
        x as u32
    }
}

fn to_i32(x: i64) -> (y: i32)
    ensures
        y == clamp32(x),
{
    if x > 0x7fff_ffff {
        0x7fff_ffff
    } else if x < -0x8000_0000 {
        -0x8000_0000
    } else {
        x as i32
    }
}

/// The size of the output in pixels for a host that renders at a scale:
/// the length `length` times the scale `scale`, to the nearest pixel.
pub fn scaled_length(length: Fixed, scale: Fixed) -> (pixels: u32)
    ensures
        pixels == clamp_u32(
            saturate(ratio(length.micros as int * scale.micros as int, 1_000_000_000_000)),
        ),
{
    let wide: i64 = mul_div(length.micros, scale.micros, 1_000_000_000_000);
    if wide > 0xffff_ffff {
        0xffff_ffff
    } else if wide < 0 {
        0
    } else {
        wide as u32
    }
}

/// Twice the distance, in millionths, between the edge of a reference frame
/// of `reference` pixels and an output of `length` that is centred in it.
pub open spec fn double_margin(reference: i32, length: Fixed) -> i64 {
    saturate(reference as int * 1_000_000 - length.micros)
}

/// An edge of the result rectangle at the scale `scale`: the position that
/// lies `double_offset` half millionths from the edge of the reference
/// frame, to the nearest pixel.
pub open spec fn scaled_edge(double_offset: i64, scale: Fixed) -> i32 {
    clamp32(saturate(ratio(double_offset as int * scale.micros as int, 2_000_000_000_000)))
}

/// The rectangle of the result, as left, top, right and bottom, for an
/// output of `width` by `height` that is centred in a reference frame of
/// `ref_width` by `ref_height`, all scaled by `scale_x` and `scale_y`.
pub fn result_rect(
    ref_width: i32,
    ref_height: i32,
    width: Fixed,
    height: Fixed,
    scale_x: Fixed,
    scale_y: Fixed,
) -> (rect: (i32, i32, i32, i32))
    ensures
        rect.0 == scaled_edge(double_margin(ref_width, width), scale_x),
        rect.1 == scaled_edge(double_margin(ref_height, height), scale_y),
        rect.2 == scaled_edge(
            saturate(double_margin(ref_width, width) + 2 * width.micros),
            scale_x,
        ),
        rect.3 == scaled_edge(
            saturate(double_margin(ref_height, height) + 2 * height.micros),
            scale_y,
        ),
{
    let x2: i64 = double_margin_of(ref_width, width);
    let y2: i64 = double_margin_of(ref_height, height);
    let right2: i64 = add_twice(x2, width.micros);
    let bottom2: i64 = add_twice(y2, height.micros);
    (
        to_i32(mul_div(x2, scale_x.micros, 2_000_000_000_000)),
        to_i32(mul_div(y2, scale_y.micros, 2_000_000_000_000)),
        to_i32(mul_div(right2, scale_x.micros, 2_000_000_000_000)),
        to_i32(mul_div(bottom2, scale_y.micros, 2_000_000_000_000)),
    )
}

fn double_margin_of(reference: i32, length: Fixed) -> (margin: i64)
    ensures
        margin == double_margin(reference, length),
{
    let wide: i128 = (reference as i128) * 1_000_000 - (length.micros as i128);
    if wide > 0x7fff_ffff_ffff_ffff {
        i64::MAX
    } else if wide < -0x8000_0000_0000_0000 {
        i64::MIN
    } else {
        wide as i64
    }
}

fn add_twice(base: i64, length: i64) -> (sum: i64)
    ensures
        sum == saturate(base + 2 * length),
{
    let wide: i128 = (base as i128) + 2 * (length as i128);
    if wide > 0x7fff_ffff_ffff_ffff {
        i64::MAX
    } else if wide < -0x8000_0000_0000_0000 {
        i64::MIN
    } else {
        wide as i64
    }
}

/// A span of a clip in whole milliseconds, from fractions of its duration.
pub open spec fn span_ms(span: (Fixed, Fixed), duration_ms: Fixed) -> (i64, i64) {
    (
        saturate(ratio(span.0.micros as int * duration_ms.micros as int, 1_000_000_000_000)),
        saturate(ratio(span.1.micros as int * duration_ms.micros as int, 1_000_000_000_000)),
    )
}

/// A span in whole milliseconds, from seconds.
pub open spec fn seconds_ms(span: (Fixed, Fixed)) -> (i64, i64) {
    (
        saturate(ratio(span.0.micros as int * 1000, 1_000_000)),
        saturate(ratio(span.1.micros as int * 1000, 1_000_000)),
    )
}

/// The span that the host shows of a clip, in seconds: its trim if it has
/// one, else the whole clip.
pub open spec fn shown_span(trim: Option<(Fixed, Fixed)>, duration_ms: Fixed) -> (Fixed, Fixed) {
    match trim {
        Some(span) => span,
        None => (
            Fixed { micros: 0 },
            Fixed { micros: saturate(ratio(duration_ms.micros as int, 1000)) },
        ),
    }
}

/// A span in seconds as fractions of the duration of the clip.
pub open spec fn as_fractions(span: (Fixed, Fixed), duration_ms: Fixed) -> (Fixed, Fixed) {
    (
        Fixed {
            micros: saturate(
                ratio(span.0.micros as int * 1_000_000_000, duration_ms.micros as int),
            ),
        },
        Fixed {
            micros: saturate(
                ratio(span.1.micros as int * 1_000_000_000, duration_ms.micros as int),
            ),
        },
    )
}

/// The trim that the engine is to take over, as fractions of the duration,
/// or nothing if the trim it has is the one the host shows. The engine's
/// trim is `current`, as fractions, the whole clip if it has none; the
/// host's is `trim`, in seconds. The two are compared in whole
/// milliseconds.
pub fn trim_update(current: Option<(Fixed, Fixed)>, trim: Option<(Fixed, Fixed)>, duration_ms: Fixed) -> (update:
    Option<(Fixed, Fixed)>)
    ensures
        update == {
            let had = match current {
                Some(span) => span,
                None => (Fixed { micros: 0 }, Fixed { micros: 1_000_000 }),
            };
            let shown = shown_span(trim, duration_ms);
            if span_ms(had, duration_ms) != seconds_ms(shown) {
                Some(as_fractions(shown, duration_ms))
            } else {
                None
            }
        },
{
    let had = match current {
        Some(span) => span,
        None => (Fixed { micros: 0 }, Fixed { micros: 1_000_000 }),
    };
    let shown = match trim {
        Some(span) => span,
        None => {
            assert(duration_ms.micros as int * 1 == duration_ms.micros as int);
            (Fixed { micros: 0 }, Fixed { micros: mul_div(duration_ms.micros, 1, 1000) })
        },
    };
    let old0 = mul_div(had.0.micros, duration_ms.micros, 1_000_000_000_000);
    let old1 = mul_div(had.1.micros, duration_ms.micros, 1_000_000_000_000);
    let new0 = mul_div(shown.0.micros, 1000, 1_000_000);
    let new1 = mul_div(shown.1.micros, 1000, 1_000_000);
    if old0 != new0 || old1 != new1 {
        Some(
            (
                Fixed { micros: mul_div(shown.0.micros, 1_000_000_000, duration_ms.micros) },
                Fixed { micros: mul_div(shown.1.micros, 1_000_000_000, duration_ms.micros) },
            ),
        )
    } else {
        None
    }
}

/// The bytes of one line of an image of `width` pixels when the host does
/// not tell: four channels of four bytes each.
pub fn stride_or_default(stride: usize, width: usize) -> (bytes: usize)
    requires
        width * 16 <= usize::MAX,
    ensures
        bytes == if stride == 0 {
            width * 16
        } else {
            stride as int
        },
{
    if stride == 0 {
        width * 4 * 4
    } else {
        stride
    }
}

/// The ratio of `width` to `height` as a decimal number; the ratio of a
/// frame without height is beyond every number, and zero if it has no width
/// either.
pub open spec fn aspect(width: int, height: int) -> Fixed {
    Fixed { micros: saturate(ratio(width * 1_000_000, height)) }
}

/// The ratio of `width` to `height`.
pub fn aspect_ratio(width: usize, height: usize) -> (r: Fixed)
    ensures
        r == aspect(width as int, height as int),
{
    let p: u128 = (width as u128) * 1_000_000;
    if height == 0 {
        if p == 0 {
            Fixed { micros: 0 }
        } else {
            Fixed { micros: i64::MAX }
        }
    } else {
        let q: u128 = crate::fixed::div_round(p, height as u128);
        Fixed { micros: crate::fixed::signed_saturated(false, q) }
    }
}

/// Where the image is drawn when it is to stay inside the source clip: the
/// rectangle of the output's ratio in the middle of the source rectangle
/// `source`, given as left, top, width and height.
pub fn inside_rect(source: (usize, usize, usize, usize), out_width: usize, out_height: usize) -> (rect:
    (usize, usize, usize, usize))
    requires
        source.0 + source.2 <= usize::MAX,
        source.1 + source.3 <= usize::MAX,
    ensures
        ({
            let inner = center_rect(
                source.2 as int,
                source.3 as int,
                aspect(out_width as int, out_height as int),
            );
            (rect.0 as int, rect.1 as int, rect.2 as int, rect.3 as int) == (
                inner.0 + source.0,
                inner.1 + source.1,
                inner.2,
                inner.3,
            )
        }),
        rect.0 + rect.2 <= source.0 + source.2,
        rect.1 + rect.3 <= source.1 + source.3,
{
    let inner = get_center_rect(source.2, source.3, aspect_ratio(out_width, out_height));
    (inner.0 + source.0, inner.1 + source.1, inner.2, inner.3)
}

/// Where the image is drawn when the host renders at a scale: at the
/// bottom of the output, because the host counts lines from there. Nothing
/// when the scaled image is as high as the output or higher.
pub fn scaled_rect(out_width: usize, out_height: usize, scale_x: Fixed, scale_y: Fixed) -> (rect:
    Option<(usize, usize, usize, usize)>)
    ensures
        ({
            let w = scaled_count(out_width as int, scale_x);
            let h = scaled_count(out_height as int, scale_y);
            rect == if out_height > h {
                Some((0usize, (out_height - h) as usize, w as usize, h as usize))
            } else {
                None
            }
        }),
{
    let w = scale_count(out_width, scale_x);
    let h = scale_count(out_height, scale_y);
    if out_height > h {
        Some((0, out_height - h, w, h))
    } else {
        None
    }
}

/// The count `count` times `scale`, to the nearest whole number, and zero
/// for a negative scale.
pub open spec fn scaled_count(count: int, scale: Fixed) -> int {
    if scale.micros <= 0 {
        0
    } else if crate::fixed::round_div(count * scale.micros, 1_000_000) > usize::MAX {
        usize::MAX as int
    } else {
        crate::fixed::round_div(count * scale.micros, 1_000_000)
    }
}

/// The count `count` times `scale`, to the nearest whole number.
pub fn scale_count(count: usize, scale: Fixed) -> (scaled: usize)
    ensures
        scaled == scaled_count(count as int, scale),
{
    if scale.micros <= 0 {
        return 0;
    }
    let s: u128 = scale.micros as u128;
    proof {
        let ci: int = count as int;
        let si: int = s as int;
        assert(0 <= ci * si <= 0xffff_ffff_ffff_ffff * 0x8000_0000_0000_0000) by (nonlinear_arith)
            requires
                0 <= ci <= 0xffff_ffff_ffff_ffff,
                0 <= si <= 0x8000_0000_0000_0000,
        ;
    }
    let q: u128 = crate::fixed::div_round((count as u128) * s, 1_000_000);
    if q > usize::MAX as u128 {
        usize::MAX
    } else {
        q as usize
    }
}

/// The path that a host without path separators hands over, with its
/// separators put back.
pub open spec fn unescaped(raw: Seq<char>) -> Seq<char> {
    replaced(replaced(raw, "_DRIVE_SEP_"@, ":/"@), "_DIR_SEP_"@, "/"@)
}

/// The path that a host without path separators hands over, with its
/// separators put back.
pub fn unescape_path(raw: &str) -> (path: String)
    ensures
        path@ == unescaped(raw@),
{
    let drive = replace_all(raw, "_DRIVE_SEP_", ":/");
    replace_all(drive.as_str(), "_DIR_SEP_", "/")
}

/// Whether a number moved by more than `threshold` either way.
pub fn moved_by_more_than(from: Fixed, to: Fixed, threshold: Fixed) -> (moved: bool)
    ensures
        moved == (to.micros - from.micros > threshold.micros || from.micros - to.micros
            > threshold.micros),
{
    let gap: i128 = (to.micros as i128) - (from.micros as i128);
    let limit: i128 = threshold.micros as i128;
    gap > limit || -gap > limit
}

/// The timestamp in microseconds of a time in seconds at the time scale
/// `time_scale`.
pub fn scaled_timestamp_us(time_s: Fixed, time_scale: Fixed) -> (us: i64)
    ensures
        us == saturate(ratio(time_s.micros as int * time_scale.micros as int, 1_000_000)),
{
    mul_div(time_s.micros, time_scale.micros, 1_000_000)
}

} // verus!
