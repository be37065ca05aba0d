use vstd::prelude::*;
use vstd::arithmetic::div_mod::{lemma_fundamental_div_mod, lemma_mod_pos_bound};

verus! {

/// `v` capped at the largest 16-bit value.
pub open spec fn sat16(v: int) -> int {
    if v > 65535 { 65535 } else { v }
}

/// `a / b` rounded to the nearest integer, halves rounded up (for `a >= 0`, `b > 0`).
pub open spec fn round_div(a: int, b: int) -> int {
    (2 * a + b) / (2 * b)
}

/// Character-grid size for an `iw` x `ih` image that fits in `mw` x `mh`
/// characters, for terminal characters twice as tall as wide. The grid is
/// first fitted to the full width (height `round(mw * ih / (2 iw))`); when that
/// height does not fit, it is fitted to the full height (width
/// `round(2 mh iw / ih)`, capped at `mw`), and never smaller than 1x1.
pub open spec fn spec_dimensions(iw: int, ih: int, mw: int, mh: int) -> (int, int) {
    if iw == 0 || ih == 0 || mw == 0 || mh == 0 {
        (0, 0)
    } else {
        let h1 = sat16(round_div(mw * ih, 2 * iw));
        if h1 <= mh && h1 > 0 {
            (mw, h1)
        } else {
            let w2 = sat16(round_div(2 * mh * iw, ih));
            let w3 = if w2 > mw { mw } else { w2 };
            (if w3 < 1 { 1 } else { w3 }, mh)
        }
    }
}

/// Output dimensions that keep the image's aspect ratio on a terminal whose
/// characters are about twice as tall as wide, within `max_char_width` x
/// `max_char_height`. The ratio arithmetic is exact.
pub fn calculate_dimensions(img_width: u32, img_height: u32, max_char_width: u16, max_char_height: u16) -> (r: (
    u16,
    u16,
))
    ensures
        (r.0 as int, r.1 as int) == spec_dimensions(
            img_width as int,
            img_height as int,
            max_char_width as int,
            max_char_height as int,
        ),
{
    if img_width == 0 || img_height == 0 || max_char_width == 0 || max_char_height == 0 {
        return (0, 0);
    }
    let iw = img_width as u128;
    let ih = img_height as u128;
    let mw = max_char_width as u128;
    let mh = max_char_height as u128;
    assert(mw * ih <= 0x1_0000 * 0x1_0000_0000) by (nonlinear_arith)
        requires
            mw <= 0xFFFF,
            ih <= 0xFFFF_FFFF,
    ;
    assert(mh * iw <= 0x1_0000 * 0x1_0000_0000) by (nonlinear_arith)
        requires
            mh <= 0xFFFF,
            iw <= 0xFFFF_FFFF,
    ;
    let h1 = (2 * (mw * ih) + 2 * iw) / (4 * iw);
    let h1 = if h1 > 65535 { 65535 } else { h1 };
    if h1 <= mh && h1 > 0 {
        (max_char_width, h1 as u16)
    } else {
        let w2 = (4 * (mh * iw) + ih) / (2 * ih);
        assert(4 * (mh * iw) == 2 * (2 * mh * iw)) by (nonlinear_arith);
        let w2 = if w2 > 65535 { 65535 } else { w2 };
        let w3 = if w2 > mw { mw } else { w2 };
        let w4 = if w3 < 1 { 1 } else { w3 };
        (w4 as u16, max_char_height)
    }
}

/// Whenever the image and the limits are non-empty, the grid is at least 1x1
/// and fits within the limits.
pub proof fn dimensions_fit_limits(iw: int, ih: int, mw: int, mh: int)
    requires
        iw > 0,
        ih > 0,
        0 < mw <= 65535,
        0 < mh <= 65535,
    ensures
        1 <= spec_dimensions(iw, ih, mw, mh).0 <= mw,
        1 <= spec_dimensions(iw, ih, mw, mh).1 <= mh,
{
}

/// `q = (2a + b) / (2b)` is the integer nearest to `a / b`, halves up:
/// `2b q <= 2a + b < 2b (q + 1)`.
proof fn lemma_round_div_bounds(a: int, b: int)
    requires
        a >= 0,
        b > 0,
    ensures
        2 * b * round_div(a, b) <= 2 * a + b < 2 * b * (round_div(a, b) + 1),
        round_div(a, b) >= 0,
{
    lemma_fundamental_div_mod(2 * a + b, 2 * b);
    lemma_mod_pos_bound(2 * a + b, 2 * b);
    let q = (2 * a + b) / (2 * b);
    let r = (2 * a + b) % (2 * b);
    assert(2 * b * q <= 2 * a + b < 2 * b * (q + 1)) by (nonlinear_arith)
        requires
            2 * a + b == 2 * b * q + r,
            0 <= r < 2 * b,
    ;
    assert(q >= 0) by (nonlinear_arith)
        requires
            2 * b * q <= 2 * a + b,
            2 * a + b < 2 * b * (q + 1),
            a >= 0,
            b > 0,
    ;
}

/// The grid keeps the image's shape on characters twice as tall as wide.
/// Let `n` be the integer nearest to `mw * ih / (2 iw)`, the height that the
/// full width `mw` calls for. When `1 <= n <= mh` (or the height limit is the
/// 16-bit maximum), the grid is `mw` wide and `n` high (capped at the 16-bit
/// maximum). Otherwise it is `mh` high and as wide as the integer nearest to
/// `2 mh iw / ih`, kept within `1..=mw`. Nearest means, halves up,
/// `2 d n <= 2 a + d < 2 d (n + 1)` for `a / d`.
pub proof fn dimensions_keep_aspect_ratio(iw: int, ih: int, mw: int, mh: int)
    requires
        0 < iw <= 0xFFFF_FFFF,
        0 < ih <= 0xFFFF_FFFF,
        0 < mw <= 65535,
        0 < mh <= 65535,
    ensures
        ({
            let w = spec_dimensions(iw, ih, mw, mh).0;
            let h = spec_dimensions(iw, ih, mw, mh).1;
            let width_fits = 4 * iw <= 2 * (mw * ih) + 2 * iw && (2 * (mw * ih) + 2 * iw < 4 * iw * (mh + 1)
                || mh == 65535);
            &&& width_fits ==> {
                &&& w == mw
                &&& 4 * iw * h <= 2 * (mw * ih) + 2 * iw
                &&& (h == 65535 || 2 * (mw * ih) + 2 * iw < 4 * iw * (h + 1))
            }
            &&& !width_fits ==> {
                &&& h == mh
                &&& {
                    ||| (w == mw && 2 * ih * mw <= 4 * (mh * iw) + ih)
                    ||| (w == 1 && 4 * (mh * iw) + ih < 4 * ih)
                    ||| (2 * ih * w <= 4 * (mh * iw) + ih && 4 * (mh * iw) + ih < 2 * ih * (w + 1))
                }
            }
        }),
{
    let a = mw * ih;
    let b = mh * iw;
    assert(a >= 0 && b >= 0) by (nonlinear_arith)
        requires
            a == mw * ih,
            b == mh * iw,
            mw > 0,
            ih > 0,
            mh > 0,
            iw > 0,
    ;
    lemma_round_div_bounds(a, 2 * iw);
    assert(2 * mh * iw == 2 * b) by (nonlinear_arith)
        requires
            b == mh * iw,
    ;
    lemma_round_div_bounds(2 * b, ih);
    let n = round_div(a, 2 * iw);
    let k = round_div(2 * b, ih);
    assert(4 * iw * n <= 2 * a + 2 * iw < 4 * iw * (n + 1)) by (nonlinear_arith)
        requires
            2 * (2 * iw) * n <= 2 * a + 2 * iw < 2 * (2 * iw) * (n + 1),
    ;
    assert(2 * ih * k <= 4 * b + ih < 2 * ih * (k + 1)) by (nonlinear_arith)
        requires
            2 * ih * k <= 2 * (2 * b) + ih < 2 * ih * (k + 1),
    ;
    // n >= 1 exactly when 4 iw <= 2a + 2 iw; n <= m exactly when 2a + 2 iw < 4 iw (m + 1).
    assert(n >= 1 <==> 4 * iw <= 2 * a + 2 * iw) by (nonlinear_arith)
        requires
            4 * iw * n <= 2 * a + 2 * iw < 4 * iw * (n + 1),
            iw > 0,
    ;
    assert(n <= mh <==> 2 * a + 2 * iw < 4 * iw * (mh + 1)) by (nonlinear_arith)
        requires
            4 * iw * n <= 2 * a + 2 * iw < 4 * iw * (n + 1),
            iw > 0,
    ;
    if k >= mw {
        assert(2 * ih * mw <= 4 * b + ih) by (nonlinear_arith)
            requires
                2 * ih * k <= 4 * b + ih,
                k >= mw,
                ih > 0,
        ;
    }
    if k == 0 {
        assert(4 * b + ih < 4 * ih) by (nonlinear_arith)
            requires
                4 * b + ih < 2 * ih * (k + 1),
                k == 0,
                ih > 0,
        ;
    }
    if n > 65535 {
        assert(4 * iw * 65535 <= 2 * a + 2 * iw) by (nonlinear_arith)
            requires
                4 * iw * n <= 2 * a + 2 * iw,
                n > 65535,
                iw > 0,
        ;
    }
}

} // verus!
