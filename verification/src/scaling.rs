//! The integer-scaling presentation policy.
//!
//! Low-resolution content is upscaled only by whole-number ratios: the scale
//! factor is `floor(min(out.w / win.w, out.h / win.h))`, clamped to a minimum
//! of 1, the scaled content is centered on the output with whole-pixel
//! offsets, and every destination pixel samples the single source texel
//! `floor(dest / scale)` — nearest neighbor, never a blend of two texels.

use vstd::arithmetic::div_mod::{lemma_fundamental_div_mod, lemma_fundamental_div_mod_converse};
use vstd::prelude::*;

use crate::geometry::{Point, Rect, Size};

verus! {

/// Where and how large the primary window's content is drawn on an output:
/// the chosen whole-number scale and the destination rectangle.
#[derive(Clone, Copy, PartialEq, Eq, Structural, Debug)]
pub struct ScaledPlacement {
    pub scale: i32,
    pub rect: Rect,
}

/// The whole-number scale factor for a window of size `win` presented on an
/// output of size `out`: the largest integer ratio that still fits on both
/// axes, and never less than 1.
pub open spec fn spec_scale_factor(out: Size, win: Size) -> int
    recommends
        win.positive(),
{
    let sx = out.w as int / win.w as int;
    let sy = out.h as int / win.h as int;
    let m = if sx <= sy {
        sx
    } else {
        sy
    };
    if m < 1 {
        1
    } else {
        m
    }
}

/// The left or top margin that centers content of extent `content` inside an
/// output extent `out`, rounded down to a whole pixel.
pub open spec fn spec_center_offset(out: int, content: int) -> int {
    (out - content) / 2
}

/// The full letterboxed placement for a window of size `win` on an output
/// of size `out`: content scaled by the integer factor, centered with
/// whole-pixel offsets.
pub open spec fn spec_letterbox(out: Size, win: Size) -> ScaledPlacement
    recommends
        out.positive(),
        win.positive(),
{
    let s = spec_scale_factor(out, win);
    let sw = win.w * s;
    let sh = win.h * s;
    ScaledPlacement {
        scale: s as i32,
        rect: Rect {
            pos: Point {
                x: spec_center_offset(out.w as int, sw) as i32,
                y: spec_center_offset(out.h as int, sh) as i32,
            },
            size: Size { w: sw as i32, h: sh as i32 },
        },
    }
}

/// The source texel sampled for destination pixel `dest` at scale `scale`.
pub open spec fn spec_source_texel(dest: int, scale: int) -> int
    recommends
        scale >= 1,
{
    dest / scale
}

/// A multiple bounded by a flooring quotient stays below the dividend.
proof fn lemma_mul_le_of_le_div(a: int, b: int, s: int)
    by (nonlinear_arith)
    requires
        b >= 1,
        0 <= s,
        s <= a / b,
    ensures
        b * s <= a,
{
}

/// Dividing the larger of two positive values by the smaller yields at least 1.
proof fn lemma_div_at_least_one(a: int, b: int)
    by (nonlinear_arith)
    requires
        1 <= b <= a,
    ensures
        a / b >= 1,
{
}

/// Compute the integer scale factor for presenting `win` on `out`.
pub fn integer_scale_factor(out: Size, win: Size) -> (s: i32)
    requires
        out.positive(),
        win.positive(),
    ensures
        s == spec_scale_factor(out, win),
        1 <= s,
{
    let sx = out.w / win.w;
    let sy = out.h / win.h;
    let m = if sx <= sy {
        sx
    } else {
        sy
    };
    if m < 1 {
        1
    } else {
        m
    }
}

/// Compute the centering margin for content of extent `content` on an output
/// extent `out`. The result is negative when the content overhangs the output.
fn center_offset(out: i32, content: i32) -> (r: i32)
    requires
        1 <= out,
        1 <= content,
    ensures
        r == spec_center_offset(out as int, content as int),
{
    if content <= out {
        (out - content) / 2
    } else {
        let n = content - out;
        let half = n / 2;
        let rem = n % 2;
        proof {
            lemma_fundamental_div_mod(n as int, 2);
            if rem == 0 {
                lemma_fundamental_div_mod_converse(out - content, 2, 0 - half, 0);
            } else {
                lemma_fundamental_div_mod_converse(out - content, 2, 0 - half - 1, 1);
            }
        }
        if rem == 0 {
            0 - half
        } else {
            0 - half - 1
        }
    }
}

/// Choose the scale factor and the centered destination rectangle for the
/// primary window: size exactly `win * scale`, margins split evenly with
/// whole-pixel offsets.
pub fn letterbox(out: Size, win: Size) -> (p: ScaledPlacement)
    requires
        out.positive(),
        win.positive(),
    ensures
        p == spec_letterbox(out, win),
        p.scale == spec_scale_factor(out, win),
        p.rect.size.w == win.w * p.scale,
        p.rect.size.h == win.h * p.scale,
        p.rect.pos.x == spec_center_offset(out.w as int, p.rect.size.w as int),
        p.rect.pos.y == spec_center_offset(out.h as int, p.rect.size.h as int),
{
    let s = integer_scale_factor(out, win);
    proof {
        if spec_scale_factor(out, win) > 1 {
            lemma_mul_le_of_le_div(out.w as int, win.w as int, s as int);
            lemma_mul_le_of_le_div(out.h as int, win.h as int, s as int);
        } else {
            assert(win.w * s == win.w && win.h * s == win.h) by (nonlinear_arith)
                requires
                    s == 1,
            ;
        }
        assert(win.w <= win.w * s && win.h <= win.h * s) by (nonlinear_arith)
            requires
                1 <= s,
                1 <= win.w,
                1 <= win.h,
        ;
    }
    let sw = win.w * s;
    let sh = win.h * s;
    let ox = center_offset(out.w, sw);
    let oy = center_offset(out.h, sh);
    ScaledPlacement { scale: s, rect: Rect { pos: Point { x: ox, y: oy }, size: Size { w: sw, h: sh } } }
}

/// Map one destination pixel of the scaled rectangle to its source texel.
pub fn source_texel(dest: i32, scale: i32) -> (s: i32)
    requires
        0 <= dest,
        1 <= scale,
    ensures
        s == spec_source_texel(dest as int, scale as int),
        0 <= s <= dest,
{
    dest / scale
}

/// A window that fits the output is scaled up, never down, and its scaled
/// extent still fits: the content rectangle has size exactly `win * scale`,
/// both centering offsets are whole nonnegative pixels, the rectangle lies
/// inside the output, and the left/top margin differs from the right/bottom
/// margin by at most the one pixel lost to flooring.
pub proof fn lemma_letterbox_centered(out: Size, win: Size)
    requires
        out.positive(),
        win.positive(),
        win.w <= out.w,
        win.h <= out.h,
    ensures
        ({
            let s = spec_scale_factor(out, win);
            let sw = win.w * s;
            let sh = win.h * s;
            let ox = spec_center_offset(out.w as int, sw);
            let oy = spec_center_offset(out.h as int, sh);
            &&& 1 <= s
            &&& win.w <= sw <= out.w
            &&& win.h <= sh <= out.h
            &&& 0 <= ox
            &&& 0 <= oy
            &&& ox + sw <= out.w
            &&& oy + sh <= out.h
            &&& 0 <= (out.w - (ox + sw)) - ox <= 1
            &&& 0 <= (out.h - (oy + sh)) - oy <= 1
        }),
{
    let s = spec_scale_factor(out, win);
    lemma_div_at_least_one(out.w as int, win.w as int);
    lemma_div_at_least_one(out.h as int, win.h as int);
    lemma_mul_le_of_le_div(out.w as int, win.w as int, s);
    lemma_mul_le_of_le_div(out.h as int, win.h as int, s);
    let sw = win.w * s;
    let sh = win.h * s;
    assert(win.w <= sw && win.h <= sh) by (nonlinear_arith)
        requires
            1 <= s,
            1 <= win.w,
            1 <= win.h,
            sw == win.w * s,
            sh == win.h * s,
    ;
    lemma_fundamental_div_mod(out.w - sw, 2);
    lemma_fundamental_div_mod(out.h - sh, 2);
}

/// One more than a flooring quotient, multiplied back, exceeds the dividend.
proof fn lemma_mul_div_plus_one_exceeds(a: int, b: int)
    by (nonlinear_arith)
    requires
        b >= 1,
        0 <= a,
    ensures
        b * (a / b + 1) > a,
{
}

/// The chosen factor is the largest whole ratio that fits: scaling a window
/// that fits the output by one step more would overflow the output on at
/// least one axis.
pub proof fn lemma_scale_factor_maximal(out: Size, win: Size)
    requires
        out.positive(),
        win.positive(),
        win.w <= out.w,
        win.h <= out.h,
    ensures
        ({
            let s = spec_scale_factor(out, win);
            win.w * (s + 1) > out.w || win.h * (s + 1) > out.h
        }),
{
    let s = spec_scale_factor(out, win);
    lemma_div_at_least_one(out.w as int, win.w as int);
    lemma_div_at_least_one(out.h as int, win.h as int);
    lemma_mul_div_plus_one_exceeds(out.w as int, win.w as int);
    lemma_mul_div_plus_one_exceeds(out.h as int, win.h as int);
    if s == out.w as int / win.w as int {
        assert(win.w * (s + 1) > out.w);
    } else {
        assert(win.h * (s + 1) > out.h);
    }
}

/// Source pixel `s` owns exactly the destination block
/// `[s * scale, (s + 1) * scale)`: every destination pixel samples the texel
/// whose block it lies in, so blocks are uniform and no sample ever crosses a
/// block boundary.
pub proof fn lemma_texel_block(dest: int, scale: int, s: int)
    requires
        0 <= dest,
        1 <= scale,
        0 <= s,
    ensures
        spec_source_texel(dest, scale) == s <==> s * scale <= dest < (s + 1) * scale,
{
    lemma_fundamental_div_mod(dest, scale);
    if s * scale <= dest < (s + 1) * scale {
        assert((s + 1) * scale == s * scale + scale) by (nonlinear_arith);
        lemma_fundamental_div_mod_converse(dest, scale, s, dest - s * scale);
    } else {
        if spec_source_texel(dest, scale) == s {
            assert(s * scale <= dest < (s + 1) * scale) by (nonlinear_arith)
                requires
                    1 <= scale,
                    dest == scale * (dest / scale) + dest % scale,
                    0 <= dest % scale < scale,
                    dest / scale == s,
            ;
        }
    }
}

/// Two adjacent destination pixels sample the same texel unless a new block
/// starts between them, and then the texel advances by exactly one: there is
/// no interpolation across block boundaries.
pub proof fn lemma_adjacent_texels(dest: int, scale: int)
    requires
        0 <= dest,
        1 <= scale,
    ensures
        (dest + 1) % scale != 0 ==> spec_source_texel(dest + 1, scale) == spec_source_texel(
            dest,
            scale,
        ),
        (dest + 1) % scale == 0 ==> spec_source_texel(dest + 1, scale) == spec_source_texel(
            dest,
            scale,
        ) + 1,
{
    lemma_fundamental_div_mod(dest, scale);
    let q = dest / scale;
    let r = dest % scale;
    assert(q * scale == scale * q && (q + 1) * scale == scale * q + scale) by (nonlinear_arith);
    if r + 1 < scale {
        lemma_fundamental_div_mod_converse(dest + 1, scale, q, r + 1);
    } else {
        lemma_fundamental_div_mod_converse(dest + 1, scale, q + 1, 0);
    }
}

} // verus!

