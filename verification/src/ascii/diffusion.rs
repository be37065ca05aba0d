use vstd::prelude::*;
use vstd::arithmetic::div_mod::{lemma_fundamental_div_mod, lemma_fundamental_div_mod_converse};
use crate::ascii::mapping::{level_of, lemma_level_in_range};
use crate::ascii::dither::{tdiv, prepared, clamp_byte, prepare};

verus! {

/// Ramp level of a (possibly out-of-range) working value: the value is first
/// clamped to 0..255.
pub open spec fn quant_level(v: int, levels: int) -> int {
    level_of(clamp_byte(v), levels)
}

/// Brightness that the chosen ramp level stands for.
pub open spec fn quant_value(v: int, levels: int) -> int {
    quant_level(v, levels) * 255 / (levels - 1)
}

/// Quantisation error that Floyd-Steinberg diffusion spreads to the neighbours.
pub open spec fn quant_error(v: int, levels: int) -> int {
    v - quant_value(v, levels)
}

pub open spec fn add_at(s: Seq<int>, j: int, d: int) -> Seq<int> {
    if 0 <= j < s.len() {
        s.update(j, s[j] + d)
    } else {
        s
    }
}

/// One diffusion step at cell `k` of a `w` x `h` grid: 7/16 of the error goes
/// right, 3/16 down-left, 5/16 down and 1/16 down-right (each rounded toward zero).
pub open spec fn fs_step(buf: Seq<int>, k: int, w: int, h: int, levels: int) -> Seq<int> {
    let x = k % w;
    let y = k / w;
    let e = quant_error(buf[k], levels);
    let b1 = if x + 1 < w { add_at(buf, k + 1, tdiv(e * 7, 16)) } else { buf };
    let b2 = if y + 1 < h && x > 0 { add_at(b1, k + w - 1, tdiv(e * 3, 16)) } else { b1 };
    let b3 = if y + 1 < h { add_at(b2, k + w, tdiv(e * 5, 16)) } else { b2 };
    if y + 1 < h && x + 1 < w { add_at(b3, k + w + 1, tdiv(e, 16)) } else { b3 }
}

/// Working values after the first `k` cells have been processed.
pub open spec fn fs_buf(init: Seq<int>, w: int, h: int, levels: int, k: nat) -> Seq<int>
    decreases k,
{
    if k == 0 {
        init
    } else {
        fs_step(fs_buf(init, w, h, levels, (k - 1) as nat), k - 1, w, h, levels)
    }
}

/// Rows of a grid of `n` values laid out in rows of `w`; the last row may be
/// partial.
pub open spec fn grid_rows(n: int, w: int) -> int {
    n / w + if n % w == 0 { 0int } else { 1int }
}

/// Working values of a grid of `w` x `rows` cells: the prepared brightness
/// values, then zeros filling the last row.
pub open spec fn padded_init(brightness: Seq<u8>, invert: bool, use_gamma: bool, cells: int) -> Seq<int> {
    Seq::new(
        cells as nat,
        |i: int|
            if i < brightness.len() {
                prepared(brightness[i], invert, use_gamma) as int
            } else {
                0int
            },
    )
}

/// Floyd-Steinberg dithered mapping: one character per brightness value.
/// The values are laid out in rows of `width` (the last row may be partial);
/// each cell's quantisation error goes to its right and lower neighbours, so
/// a cell depends only on the cells before it. An empty ramp, or a zero
/// width or height, renders spaces; a ramp of one character renders that
/// character everywhere.
pub open spec fn spec_dithered(
    brightness: Seq<u8>,
    width: int,
    height: int,
    charset: Seq<char>,
    invert: bool,
    use_gamma: bool,
) -> Seq<char> {
    if charset.len() == 0 || width == 0 || height == 0 {
        Seq::new(brightness.len(), |i: int| ' ')
    } else if charset.len() == 1 {
        Seq::new(brightness.len(), |i: int| charset[0])
    } else {
        let rows = grid_rows(brightness.len() as int, width);
        let init = padded_init(brightness, invert, use_gamma, width * rows);
        Seq::new(
            brightness.len(),
            |k: int|
                charset[quant_level(
                    fs_buf(init, width, rows, charset.len() as int, k as nat)[k],
                    charset.len() as int,
                )],
        )
    }
}

proof fn lemma_grid_rows(n: int, w: int)
    requires
        n > 0,
        w > 0,
    ensures
        grid_rows(n, w) >= 1,
        n <= w * grid_rows(n, w),
        w * grid_rows(n, w) <= n + w - 1,
{
    lemma_fundamental_div_mod(n, w);
    let q = n / w;
    let r = n % w;
    assert(n == w * q + r);
    if r == 0 {
        assert(q >= 1) by (nonlinear_arith)
            requires
                n == w * q,
                n > 0,
                w > 0,
        ;
    } else {
        assert(w * (q + 1) == w * q + w) by (nonlinear_arith);
        assert(q >= 0) by (nonlinear_arith)
            requires
                n == w * q + r,
                0 <= r < w,
                n > 0,
                w > 0,
        ;
    }
}

/// Total diffusion weight (out of 16) that cell `j` has received once the
/// cells before `k` are processed.
pub open spec fn received(j: int, k: int, w: int) -> int {
    let xj = j % w;
    (if j - 1 < k && xj != 0 { 7int } else { 0int }) + (if j - w + 1 < k && j >= w && xj != w - 1 {
        3int
    } else {
        0int
    }) + (if j - w < k && j >= w { 5int } else { 0int }) + (if j - w - 1 < k && j >= w && xj != 0 {
        1int
    } else {
        0int
    })
}

/// Weight that processing cell `k` adds to cell `j`.
pub open spec fn added(j: int, k: int, w: int, h: int) -> int {
    let x = k % w;
    let y = k / w;
    (if j == k + 1 && x + 1 < w { 7int } else { 0int }) + (if j == k + w - 1 && y + 1 < h && x > 0 {
        3int
    } else {
        0int
    }) + (if j == k + w && y + 1 < h { 5int } else { 0int }) + (if j == k + w + 1 && y + 1 < h && x
        + 1 < w {
        1int
    } else {
        0int
    })
}

proof fn lemma_mod_shift(k: int, w: int, d: int)
    requires
        w > 0,
        0 <= k,
        0 <= k % w + d < w,
    ensures
        (k + d) % w == k % w + d,
        (k + d) / w == k / w,
        (k + w + d) % w == k % w + d,
        (k + w + d) / w == k / w + 1,
{
    lemma_fundamental_div_mod(k, w);
    let x = k % w;
    let y = k / w;
    assert(k + d == y * w + (x + d));
    lemma_fundamental_div_mod_converse(k + d, w, y, x + d);
    assert(k + w + d == (y + 1) * w + (x + d)) by (nonlinear_arith)
        requires
            k + d == y * w + (x + d),
    ;
    lemma_fundamental_div_mod_converse(k + w + d, w, y + 1, x + d);
}

proof fn lemma_received_step(j: int, k: int, w: int, h: int)
    requires
        w > 0,
        h > 0,
        0 <= k < j < w * h,
    ensures
        received(j, k + 1, w) == received(j, k, w) + added(j, k, w, h),
        0 <= received(j, k, w) <= 16,
{
    lemma_fundamental_div_mod(k, w);
    lemma_fundamental_div_mod(j, w);
    let x = k % w;
    let y = k / w;
    assert(k == y * w + x) by (nonlinear_arith)
        requires
            k == w * y + x,
    ;
    // The cell below the grid's last row does not exist.
    if y + 1 >= h {
        assert(y * w + x + w >= w * h) by (nonlinear_arith)
            requires
                y + 1 >= h,
                x >= 0,
                w > 0,
        ;
        assert(x >= 1 ==> y * w + x + w - 1 >= w * h) by (nonlinear_arith)
            requires
                y + 1 >= h,
                w > 0,
        ;
    }
    if j == k + 1 {
        if x + 1 < w {
            lemma_mod_shift(k, w, 1);
        } else {
            lemma_mod_shift(k, w, 0);
            assert(k + 1 == (y + 1) * w + 0) by (nonlinear_arith)
                requires
                    k == y * w + x,
                    x + 1 == w,
            ;
            lemma_fundamental_div_mod_converse(k + 1, w, y + 1, 0);
        }
    }
    if j == k + w - 1 {
        if x > 0 {
            lemma_mod_shift(k, w, -1);
        } else {
            assert(k + w - 1 == y * w + (w - 1)) by (nonlinear_arith)
                requires
                    k == y * w + x,
                    x == 0,
            ;
            lemma_fundamental_div_mod_converse(k + w - 1, w, y, w - 1);
        }
    }
    if j == k + w {
        lemma_mod_shift(k, w, 0);
    }
    if j == k + w + 1 {
        if x + 1 < w {
            lemma_mod_shift(k, w, 1);
        } else {
            assert(k + w + 1 == (y + 2) * w + 0) by (nonlinear_arith)
                requires
                    k == y * w + x,
                    x + 1 == w,
            ;
            lemma_fundamental_div_mod_converse(k + w + 1, w, y + 2, 0);
        }
    }
}


/// Change that the diffusion step at cell `k` (with error `e`) makes to cell `j`.
pub open spec fn step_delta(j: int, k: int, w: int, h: int, e: int) -> int {
    let x = k % w;
    let y = k / w;
    (if j == k + 1 && x + 1 < w { tdiv(e * 7, 16) } else { 0int }) + (if j == k + w - 1 && y + 1 < h
        && x > 0 {
        tdiv(e * 3, 16)
    } else {
        0int
    }) + (if j == k + w && y + 1 < h { tdiv(e * 5, 16) } else { 0int }) + (if j == k + w + 1 && y + 1
        < h && x + 1 < w {
        tdiv(e, 16)
    } else {
        0int
    })
}

proof fn lemma_tdiv_bound(a: int, c: int)
    requires
        c > 0,
    ensures
        16 * tdiv(a, 16) <= (if a >= 0 { a } else { -a }),
        -16 * tdiv(a, 16) <= (if a >= 0 { a } else { -a }),
{
}

proof fn lemma_step_shape(buf: Seq<int>, k: int, w: int, h: int, levels: int)
    requires
        w > 0,
        0 <= k < buf.len(),
    ensures
        fs_step(buf, k, w, h, levels).len() == buf.len(),
        forall|j: int|
            0 <= j < buf.len() ==> #[trigger] fs_step(buf, k, w, h, levels)[j] == buf[j] + step_delta(
                j,
                k,
                w,
                h,
                quant_error(buf[k], levels),
            ),
{
}

proof fn lemma_fs_buf_len(init: Seq<int>, w: int, h: int, levels: int, k: nat)
    requires
        w > 0,
        k <= init.len(),
    ensures
        fs_buf(init, w, h, levels, k).len() == init.len(),
    decreases k,
{
    if k > 0 {
        lemma_fs_buf_len(init, w, h, levels, (k - 1) as nat);
        lemma_step_shape(fs_buf(init, w, h, levels, (k - 1) as nat), k - 1, w, h, levels);
    }
}

/// Working values stay within reach of their start: a cell that has received
/// weight `r` (of 16) differs from its initial value by at most `255 * r / 16`.
pub open spec fn deviation_bounded(buf: Seq<int>, init: Seq<int>, k: int, w: int, h: int) -> bool {
    forall|j: int|
        k <= j < w * h ==> 16 * (#[trigger] buf[j] - init[j]) <= 255 * received(j, k, w) && -16 * (
        buf[j] - init[j]) <= 255 * received(j, k, w)
}

proof fn lemma_error_bound(v: int, init_v: int, levels: int)
    requires
        levels >= 2,
        0 <= init_v <= 255,
        -255 <= v - init_v <= 255,
    ensures
        -255 <= quant_error(v, levels) <= 255,
        0 <= quant_level(v, levels) < levels,
        0 <= quant_value(v, levels) <= 255,
{
    let c = clamp_byte(v);
    lemma_level_in_range(c, levels);
    let l = quant_level(v, levels);
    assert(l * 255 <= (levels - 1) * 255) by (nonlinear_arith)
        requires
            0 <= l <= levels - 1,
    ;
    assert(l * 255 / (levels - 1) <= 255) by (nonlinear_arith)
        requires
            l * 255 <= (levels - 1) * 255,
            levels >= 2,
    ;
    assert(0 <= l * 255 / (levels - 1)) by (nonlinear_arith)
        requires
            0 <= l,
            levels >= 2,
    ;
    if v > 255 {
        assert(level_of(255, levels) == levels - 1) by (nonlinear_arith)
            requires
                levels >= 2,
        ;
        assert((levels - 1) * 255 / (levels - 1) == 255) by (nonlinear_arith)
            requires
                levels >= 2,
        ;
    }
}

proof fn lemma_step_preserves_bound(
    buf: Seq<int>,
    init: Seq<int>,
    k: int,
    w: int,
    h: int,
    levels: int,
)
    requires
        w > 0,
        h > 0,
        levels >= 2,
        0 <= k < w * h,
        w * h <= buf.len(),
        buf.len() == init.len(),
        forall|j: int| 0 <= j < init.len() ==> 0 <= #[trigger] init[j] <= 255,
        deviation_bounded(buf, init, k, w, h),
    ensures
        deviation_bounded(fs_step(buf, k, w, h, levels), init, k + 1, w, h),
        -255 <= quant_error(buf[k], levels) <= 255,
{
    assert(16 * (buf[k] - init[k]) <= 255 * received(k, k, w));
    assert(received(k, k, w) <= 16);
    lemma_error_bound(buf[k], init[k], levels);
    let e = quant_error(buf[k], levels);
    lemma_step_shape(buf, k, w, h, levels);
    let nb = fs_step(buf, k, w, h, levels);
    assert forall|j: int| k + 1 <= j < w * h implies 16 * (#[trigger] nb[j] - init[j]) <= 255
        * received(j, k + 1, w) && -16 * (nb[j] - init[j]) <= 255 * received(j, k + 1, w) by {
        lemma_received_step(j, k, w, h);
        assert(nb[j] == buf[j] + step_delta(j, k, w, h, e));
        let ae = if e >= 0 { e } else { -e };
        lemma_tdiv_bound(e * 7, 7);
        lemma_tdiv_bound(e * 3, 3);
        lemma_tdiv_bound(e * 5, 5);
        lemma_tdiv_bound(e, 1);
        assert((if e * 7 >= 0 { e * 7 } else { -(e * 7) }) == 7 * ae);
        assert((if e * 3 >= 0 { e * 3 } else { -(e * 3) }) == 3 * ae);
        assert((if e * 5 >= 0 { e * 5 } else { -(e * 5) }) == 5 * ae);
        let x = k % w;
        let y = k / w;
        if j == k + 1 && x + 1 < w {
            assert(step_delta(j, k, w, h, e) == tdiv(e * 7, 16));
            assert(added(j, k, w, h) == 7);
            assert(-16 * tdiv(e * 7, 16) <= 7 * ae);
            assert(16 * tdiv(e * 7, 16) <= 7 * ae);
            let ad = added(j, k, w, h);
            assert(ae * ad == 7 * ae) by (nonlinear_arith)
                requires
                    ad == 7,
            ;
        } else if j == k + w - 1 && y + 1 < h && x > 0 {
            assert(step_delta(j, k, w, h, e) == tdiv(e * 3, 16));
            assert(added(j, k, w, h) == 3);
            assert(-16 * tdiv(e * 3, 16) <= 3 * ae);
            assert(16 * tdiv(e * 3, 16) <= 3 * ae);
            let ad = added(j, k, w, h);
            assert(ae * ad == 3 * ae) by (nonlinear_arith)
                requires
                    ad == 3,
            ;
        } else if j == k + w && y + 1 < h {
            assert(step_delta(j, k, w, h, e) == tdiv(e * 5, 16));
            assert(added(j, k, w, h) == 5);
            assert(-16 * tdiv(e * 5, 16) <= 5 * ae);
            assert(16 * tdiv(e * 5, 16) <= 5 * ae);
            let ad = added(j, k, w, h);
            assert(ae * ad == 5 * ae) by (nonlinear_arith)
                requires
                    ad == 5,
            ;
        } else if j == k + w + 1 && y + 1 < h && x + 1 < w {
            assert(step_delta(j, k, w, h, e) == tdiv(e, 16));
            assert(added(j, k, w, h) == 1);
            assert(-16 * tdiv(e, 16) <= 1 * ae);
            assert(16 * tdiv(e, 16) <= 1 * ae);
            let ad = added(j, k, w, h);
            assert(ae * ad == 1 * ae) by (nonlinear_arith)
                requires
                    ad == 1,
            ;
        } else {
            assert(step_delta(j, k, w, h, e) == 0);
            assert(added(j, k, w, h) == 0);
        }
        assert(16 * step_delta(j, k, w, h, e) <= ae * added(j, k, w, h));
        assert(-16 * step_delta(j, k, w, h, e) <= ae * added(j, k, w, h));
        assert(ae * added(j, k, w, h) <= 255 * added(j, k, w, h)) by (nonlinear_arith)
            requires
                0 <= ae <= 255,
                0 <= added(j, k, w, h),
        ;
    }
}

proof fn lemma_targets_in_grid(k: int, w: int, h: int)
    requires
        w > 0,
        h > 0,
        0 <= k < w * h,
    ensures
        0 <= k / w < h,
        0 <= k % w < w,
        k % w + 1 < w ==> k + 1 < w * h,
        k / w + 1 < h ==> k + w < w * h,
        k / w + 1 < h && k % w + 1 < w ==> k + w + 1 < w * h,
        k % w > 0 ==> k >= 1,
{
    lemma_fundamental_div_mod(k, w);
    let x = k % w;
    let y = k / w;
    assert(k == y * w + x) by (nonlinear_arith)
        requires
            k == w * y + x,
    ;
    assert(y < h) by (nonlinear_arith)
        requires
            k == y * w + x,
            0 <= x,
            k < w * h,
            w > 0,
    ;
    assert(0 <= y) by (nonlinear_arith)
        requires
            k == y * w + x,
            x < w,
            k >= 0,
            w > 0,
    ;
    assert(x + 1 < w ==> k + 1 < w * h) by (nonlinear_arith)
        requires
            k == y * w + x,
            y < h,
            w > 0,
    ;
    assert(y + 1 < h ==> k + w < w * h) by (nonlinear_arith)
        requires
            k == y * w + x,
            x < w,
            w > 0,
    ;
    assert(y + 1 < h && x + 1 < w ==> k + w + 1 < w * h) by (nonlinear_arith)
        requires
            k == y * w + x,
            w > 0,
    ;
}

/// Diffusion contribution `e * num / 16`, rounded toward zero.
fn share(e: i16, num: i16) -> (r: i16)
    requires
        -255 <= e <= 255,
        1 <= num <= 7,
    ensures
        r == tdiv(e * num, 16),
        -112 <= r <= 112,
{
    assert(-1785 <= (e as int) * (num as int) <= 1785) by (nonlinear_arith)
        requires
            -255 <= e <= 255,
            1 <= num <= 7,
    ;
    let p: i16 = e * num;
    if p >= 0 { p / 16 } else { -((-p) / 16) }
}

/// Map brightness values to characters with Floyd-Steinberg error
/// diffusion, one character per value; see `spec_dithered`. The values fill
/// rows of `width` characters.
pub fn map_to_chars_dithered(
    brightness: &[u8],
    width: u16,
    height: u16,
    charset: &[char],
    invert: bool,
    use_gamma: bool,
) -> (r: Vec<char>)
    requires
        brightness@.len() + width <= usize::MAX,
    ensures
        r@ == spec_dithered(brightness@, width as int, height as int, charset@, invert, use_gamma),
        r@.len() == brightness@.len(),
{
    let n = brightness.len();
    if charset.len() == 0 || width == 0 || height == 0 || charset.len() == 1 {
        let c = if charset.len() == 1 && width != 0 && height != 0 { charset[0] } else { ' ' };
        let mut out: Vec<char> = Vec::new();
        let mut i: usize = 0;
        while i < n
            invariant
                i <= n,
                out@ =~= Seq::new(i as nat, |j: int| c),
            decreases n - i,
        {
            out.push(c);
            i = i + 1;
        }
        proof {
            assert(out@ =~= spec_dithered(brightness@, width as int, height as int, charset@, invert, use_gamma));
        }
        return out;
    }
    if n == 0 {
        let out: Vec<char> = Vec::new();
        assert(out@ =~= spec_dithered(brightness@, width as int, height as int, charset@, invert, use_gamma));
        return out;
    }
    let w = width as usize;
    let rows = n / w + if n % w == 0 { 0 } else { 1 };
    proof {
        lemma_grid_rows(n as int, w as int);
    }
    assert(rows as int == grid_rows(n as int, w as int));
    let total = w * rows;
    let levels = charset.len();
    let ghost init = padded_init(brightness@, invert, use_gamma, total as int);
    let ghost wi = w as int;
    let ghost hi = rows as int;
    let ghost li = levels as int;
    let mut buffer: Vec<i16> = Vec::new();
    let mut i: usize = 0;
    while i < total
        invariant
            n == brightness@.len(),
            n <= total,
            i <= total,
            init == padded_init(brightness@, invert, use_gamma, total as int),
            buffer@.len() == i,
            forall|j: int| 0 <= j < i ==> #[trigger] buffer@[j] as int == init[j],
        decreases total - i,
    {
        if i < n {
            let v = prepare(brightness[i], invert, use_gamma);
            buffer.push(v as i16);
        } else {
            buffer.push(0);
        }
        i = i + 1;
    }
    let mut result: Vec<char> = Vec::new();
    let mut k: usize = 0;
    proof {
        assert(fs_buf(init, wi, hi, li, 0) == init);
        assert forall|j: int| 0 <= j < init.len() implies 0 <= #[trigger] init[j] <= 255 by {}
    }
    while k < n
        invariant
            n == brightness@.len(),
            w == width,
            wi == w,
            hi == rows,
            li == levels,
            levels == charset@.len(),
            levels >= 2,
            w > 0,
            rows > 0,
            total == w * rows,
            n <= total,
            k <= n,
            init == padded_init(brightness@, invert, use_gamma, total as int),
            init.len() == total,
            forall|j: int| 0 <= j < init.len() ==> 0 <= #[trigger] init[j] <= 255,
            buffer@.len() == total,
            fs_buf(init, wi, hi, li, k as nat).len() == total,
            forall|j: int|
                0 <= j < total ==> #[trigger] buffer@[j] as int == fs_buf(init, wi, hi, li, k as nat)[j],
            deviation_bounded(fs_buf(init, wi, hi, li, k as nat), init, k as int, wi, hi),
            result@.len() == k,
            forall|j: int|
                0 <= j < k ==> #[trigger] result@[j] == charset@[quant_level(
                    fs_buf(init, wi, hi, li, j as nat)[j],
                    li,
                )],
        decreases n - k,
    {
        let ghost cur = fs_buf(init, wi, hi, li, k as nat);
        proof {
            lemma_step_preserves_bound(cur, init, k as int, wi, hi, li);
            lemma_step_shape(cur, k as int, wi, hi, li);
            assert(16 * (cur[k as int] - init[k as int]) <= 255 * received(k as int, k as int, wi));
            lemma_error_bound(cur[k as int], init[k as int], li);
            lemma_targets_in_grid(k as int, wi, hi);
        }
        let ghost nb = fs_step(cur, k as int, wi, hi, li);
        let ghost ee = quant_error(cur[k as int], li);
        proof {
            assert forall|j: int| k < j < total implies -255 <= #[trigger] nb[j] - init[j] <= 255 by {
                assert(received(j, k as int + 1, wi) <= 16);
            }
        }
        let x = k % w;
        let y = k / w;
        let v: i16 = buffer[k];
        let clamped: i16 = if v < 0 { 0 } else if v > 255 { 255 } else { v };
        let ci = ((clamped as u128) * ((levels - 1) as u128) / 255) as usize;
        proof {
            lemma_level_in_range(clamped as int, li);
            assert((clamped as int) * (levels - 1) <= 255 * (u64::MAX as int)) by (nonlinear_arith)
                requires
                    0 <= clamped <= 255,
                    levels - 1 <= u64::MAX,
            ;
        }
        result.push(charset[ci]);
        let new_val = ((ci as u128) * 255 / ((levels - 1) as u128)) as i16;
        let e: i16 = v - new_val;
        assert(e == quant_error(cur[k as int], li));
        if x + 1 < w {
            let d = share(e, 7);
            let t = buffer[k + 1];
            buffer.set(k + 1, t + d);
        }
        if y + 1 < rows && x > 0 {
            let d = share(e, 3);
            let t = buffer[k + w - 1];
            buffer.set(k + w - 1, t + d);
        }
        if y + 1 < rows {
            let d = share(e, 5);
            let t = buffer[k + w];
            buffer.set(k + w, t + d);
        }
        if y + 1 < rows && x + 1 < w {
            let d = share(e, 1);
            let t = buffer[k + w + 1];
            buffer.set(k + w + 1, t + d);
        }
        k = k + 1;
        proof {
            assert(fs_buf(init, wi, hi, li, k as nat) == fs_step(cur, k - 1, wi, hi, li));
        }
    }
    assert(result@ =~= spec_dithered(brightness@, width as int, height as int, charset@, invert, use_gamma));
    result
}

/// Floyd-Steinberg dithering with inversion renders each brightness `b` as
/// dithering without inversion renders `255 - b`.
pub proof fn dithering_inverts_brightness(
    brightness: Seq<u8>,
    width: int,
    height: int,
    charset: Seq<char>,
    use_gamma: bool,
)
    ensures
        spec_dithered(brightness, width, height, charset, true, use_gamma) == spec_dithered(
            brightness.map_values(|b: u8| (255 - b) as u8),
            width,
            height,
            charset,
            false,
            use_gamma,
        ),
{
    let flipped = brightness.map_values(|b: u8| (255 - b) as u8);
    let rows = grid_rows(brightness.len() as int, width);
    assert(padded_init(brightness, true, use_gamma, width * rows) =~= padded_init(
        flipped,
        false,
        use_gamma,
        width * rows,
    ));
    assert(spec_dithered(brightness, width, height, charset, true, use_gamma) =~= spec_dithered(
        flipped,
        width,
        height,
        charset,
        false,
        use_gamma,
    ));
}

} // verus!

