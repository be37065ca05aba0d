use vstd::prelude::*;
use crate::camera::Frame;

verus! {

/// First pixel coordinate covered by cell `c` when `img` pixels are split into
/// `chars` cells: `floor(c * img / chars)`, computed exactly in integers.
///
/// This is the exact floor. A single-precision computation of
/// `c * (img / chars)` truncated to an integer can fall one pixel short
/// wherever the product rounds just below a whole number: with 320 pixels
/// split into 92 cells, cell 69 starts at pixel 240 here and at pixel 239 in
/// single precision. Every cell grid of this module uses these exact bounds.
pub open spec fn cell_lo(c: int, img: int, chars: int) -> int {
    c * img / chars
}

/// Whether pixel number `p` (row-major) is fully present in `data`, with
/// `stride` bytes per pixel.
pub open spec fn sample_ok(data: Seq<u8>, p: int, stride: int) -> bool {
    0 <= p && p * stride + stride - 1 < data.len()
}

/// Channel `chan` of pixel `p`, or 0 when the pixel is missing.
pub open spec fn sample(data: Seq<u8>, p: int, stride: int, chan: int) -> int {
    if sample_ok(data, p, stride) {
        data[p * stride + chan] as int
    } else {
        0
    }
}

/// Sum of channel `chan` over pixels `base + x0 .. base + x1`.
pub open spec fn row_sum(data: Seq<u8>, stride: int, chan: int, base: int, x0: int, x1: int) -> int
    decreases x1 - x0,
{
    if x1 <= x0 {
        0
    } else {
        row_sum(data, stride, chan, base, x0, x1 - 1) + sample(data, base + x1 - 1, stride, chan)
    }
}

/// Number of present pixels among `base + x0 .. base + x1`.
pub open spec fn row_count(data: Seq<u8>, stride: int, base: int, x0: int, x1: int) -> int
    decreases x1 - x0,
{
    if x1 <= x0 {
        0
    } else {
        row_count(data, stride, base, x0, x1 - 1) + (if sample_ok(data, base + x1 - 1, stride) {
            1int
        } else {
            0int
        })
    }
}

/// Sum of channel `chan` over the rectangle of rows `y0..y1` and columns
/// `x0..x1` of an image `iw` pixels wide.
pub open spec fn rect_sum(
    data: Seq<u8>,
    stride: int,
    chan: int,
    iw: int,
    y0: int,
    y1: int,
    x0: int,
    x1: int,
) -> int
    decreases y1 - y0,
{
    if y1 <= y0 {
        0
    } else {
        rect_sum(data, stride, chan, iw, y0, y1 - 1, x0, x1) + row_sum(
            data,
            stride,
            chan,
            (y1 - 1) * iw,
            x0,
            x1,
        )
    }
}

/// Number of present pixels in the rectangle of rows `y0..y1`, columns `x0..x1`.
pub open spec fn rect_count(data: Seq<u8>, stride: int, iw: int, y0: int, y1: int, x0: int, x1: int) -> int
    decreases y1 - y0,
{
    if y1 <= y0 {
        0
    } else {
        rect_count(data, stride, iw, y0, y1 - 1, x0, x1) + row_count(data, stride, (y1 - 1) * iw, x0, x1)
    }
}

/// Average of channel `chan` over the pixels of cell (`cx`, `cy`) of a
/// `cw` x `ch` grid laid over an `iw` x `ih` image; 0 when no pixel is present.
pub open spec fn cell_average(
    data: Seq<u8>,
    stride: int,
    chan: int,
    iw: int,
    ih: int,
    cw: int,
    ch: int,
    cx: int,
    cy: int,
) -> int {
    let x0 = cell_lo(cx, iw, cw);
    let x1 = cell_lo(cx + 1, iw, cw);
    let y0 = cell_lo(cy, ih, ch);
    let y1 = cell_lo(cy + 1, ih, ch);
    let n = rect_count(data, stride, iw, y0, y1, x0, x1);
    if n > 0 {
        rect_sum(data, stride, chan, iw, y0, y1, x0, x1) / n
    } else {
        0
    }
}

/// Brightness of each cell of a `cw` x `ch` grid over a grayscale image:
/// the average of the pixels the cell covers, row-major.
pub open spec fn spec_downsample(gray: Seq<u8>, iw: int, ih: int, cw: int, ch: int) -> Seq<u8> {
    if cw == 0 || ch == 0 || iw == 0 || ih == 0 || gray.len() == 0 {
        Seq::empty()
    } else {
        Seq::new((cw * ch) as nat, |i: int| cell_average(gray, 1, 0, iw, ih, cw, ch, i % cw, i / cw) as u8)
    }
}

/// Average RGB color of a cell.
#[derive(Debug, Clone, Copy, PartialEq, Eq, Structural)]
pub struct CellColor {
    pub r: u8,
    pub g: u8,
    pub b: u8,
}

impl Default for CellColor {
    fn default() -> (c: CellColor)
        ensures
            c.r == 0 && c.g == 0 && c.b == 0,
    {
        CellColor { r: 0, g: 0, b: 0 }
    }
}

/// Average color of each cell of a `cw` x `ch` grid over an RGB frame.
pub open spec fn spec_downsample_colors(data: Seq<u8>, iw: int, ih: int, cw: int, ch: int) -> Seq<CellColor> {
    if cw == 0 || ch == 0 || iw == 0 || ih == 0 || data.len() == 0 {
        Seq::empty()
    } else {
        Seq::new(
            (cw * ch) as nat,
            |i: int|
                CellColor {
                    r: cell_average(data, 3, 0, iw, ih, cw, ch, i % cw, i / cw) as u8,
                    g: cell_average(data, 3, 1, iw, ih, cw, ch, i % cw, i / cw) as u8,
                    b: cell_average(data, 3, 2, iw, ih, cw, ch, i % cw, i / cw) as u8,
                },
        )
    }
}

proof fn lemma_row_bounds(data: Seq<u8>, stride: int, chan: int, base: int, x0: int, x1: int)
    ensures
        0 <= row_count(data, stride, base, x0, x1) <= (if x1 > x0 { x1 - x0 } else { 0 }),
        0 <= row_sum(data, stride, chan, base, x0, x1) <= 255 * row_count(data, stride, base, x0, x1),
    decreases x1 - x0,
{
    if x1 > x0 {
        lemma_row_bounds(data, stride, chan, base, x0, x1 - 1);
    }
}

pub(crate) proof fn lemma_cell_lo_bounds(c: int, img: int, chars: int)
    requires
        0 <= c < chars,
        0 <= img,
    ensures
        0 <= cell_lo(c, img, chars) <= cell_lo(c + 1, img, chars) <= img,
{
    assert(0 <= c * img <= (c + 1) * img <= chars * img) by (nonlinear_arith)
        requires
            0 <= c < chars,
            0 <= img,
    ;
    assert(c * img / chars <= (c + 1) * img / chars) by (nonlinear_arith)
        requires
            c * img <= (c + 1) * img,
            chars > 0,
    ;
    assert((c + 1) * img / chars <= img) by (nonlinear_arith)
        requires
            (c + 1) * img <= chars * img,
            chars > 0,
    ;
}

pub(crate) proof fn lemma_average_fits(s: int, n: int)
    requires
        0 <= s <= 255 * n,
        n > 0,
    ensures
        0 <= s / n <= 255,
{
    assert(s / n <= 255) by (nonlinear_arith)
        requires
            0 <= s <= 255 * n,
            n > 0,
    ;
}

/// Sum and count of channel `chan` over a rectangle of pixels.
pub(crate) fn rect_stats(
    data: &[u8],
    stride: u64,
    chan: u64,
    iw: u64,
    y0: u64,
    y1: u64,
    x0: u64,
    x1: u64,
) -> (r: (u128, u128))
    requires
        1 <= stride <= 3,
        chan < stride,
        iw <= u32::MAX,
        y1 <= u32::MAX,
        x0 <= x1 <= iw,
        y0 <= y1,
    ensures
        r.0 == rect_sum(data@, stride as int, chan as int, iw as int, y0 as int, y1 as int, x0 as int, x1 as int),
        r.1 == rect_count(data@, stride as int, iw as int, y0 as int, y1 as int, x0 as int, x1 as int),
        r.0 <= 255 * r.1,
{
    let len = data.len() as u64;
    let mut sum: u128 = 0;
    let mut cnt: u128 = 0;
    let mut py = y0;
    while py < y1
        invariant
            len == data@.len(),
            1 <= stride <= 3,
            chan < stride,
            iw <= u32::MAX,
            y1 <= u32::MAX,
            x0 <= x1 <= iw,
            y0 <= py <= y1,
            sum == rect_sum(data@, stride as int, chan as int, iw as int, y0 as int, py as int, x0 as int, x1 as int),
            cnt == rect_count(data@, stride as int, iw as int, y0 as int, py as int, x0 as int, x1 as int),
            cnt <= (py - y0) * 0x1_0000_0000,
            sum <= 255 * cnt,
        decreases y1 - py,
    {
        assert((py as int) * (iw as int) <= 0xFFFF_FFFF * 0xFFFF_FFFF) by (nonlinear_arith)
            requires
                py <= 0xFFFF_FFFF,
                iw <= 0xFFFF_FFFF,
        ;
        let base: u64 = py * iw;
        let mut rsum: u128 = 0;
        let mut rcnt: u128 = 0;
        let mut px = x0;
        while px < x1
            invariant
                len == data@.len(),
                1 <= stride <= 3,
                chan < stride,
                iw <= u32::MAX,
                x0 <= px <= x1,
                x1 <= iw,
                base == py * iw,
                base <= 0xFFFF_FFFF * 0xFFFF_FFFF,
                rsum == row_sum(data@, stride as int, chan as int, base as int, x0 as int, px as int),
                rcnt == row_count(data@, stride as int, base as int, x0 as int, px as int),
                rcnt <= px - x0,
                rsum <= 255 * rcnt,
            decreases x1 - px,
        {
            let p: u128 = (base as u128) + (px as u128);
            assert((p as int) * (stride as int) <= 3 * 0x1_0000_0000_0000_0000) by (nonlinear_arith)
                requires
                    p <= 0xFFFF_FFFF * 0xFFFF_FFFF + 0xFFFF_FFFF,
                    stride <= 3,
            ;
            let last: u128 = p * (stride as u128) + (stride as u128) - 1;
            if last < (len as u128) {
                let v = data[(p * (stride as u128) + (chan as u128)) as usize];
                rsum = rsum + (v as u128);
                rcnt = rcnt + 1;
            }
            px = px + 1;
        }
        proof {
            lemma_row_bounds(data@, stride as int, chan as int, base as int, x0 as int, x1 as int);
        }
        sum = sum + rsum;
        cnt = cnt + rcnt;
        py = py + 1;
    }
    (sum, cnt)
}

/// Average of channel `chan` over cell (`cx`, `cy`).
fn cell_value(
    data: &[u8],
    stride: u64,
    chan: u64,
    iw: u32,
    ih: u32,
    cw: u16,
    ch: u16,
    cx: u16,
    cy: u16,
) -> (v: u8)
    requires
        1 <= stride <= 3,
        chan < stride,
        cx < cw,
        cy < ch,
    ensures
        v == cell_average(
            data@,
            stride as int,
            chan as int,
            iw as int,
            ih as int,
            cw as int,
            ch as int,
            cx as int,
            cy as int,
        ),
{
    proof {
        lemma_cell_lo_bounds(cx as int, iw as int, cw as int);
        lemma_cell_lo_bounds(cy as int, ih as int, ch as int);
    }
    assert(((cx as int) + 1) * (iw as int) <= 0x1_0000 * 0x1_0000_0000) by (nonlinear_arith)
        requires
            cx < 0xFFFF,
            iw <= 0xFFFF_FFFF,
    ;
    assert(((cy as int) + 1) * (ih as int) <= 0x1_0000 * 0x1_0000_0000) by (nonlinear_arith)
        requires
            cy < 0xFFFF,
            ih <= 0xFFFF_FFFF,
    ;
    assert((cx as int) * (iw as int) <= ((cx as int) + 1) * (iw as int)) by (nonlinear_arith);
    assert((cy as int) * (ih as int) <= ((cy as int) + 1) * (ih as int)) by (nonlinear_arith);
    let x0 = (cx as u64) * (iw as u64) / (cw as u64);
    let x1 = ((cx as u64) + 1) * (iw as u64) / (cw as u64);
    let y0 = (cy as u64) * (ih as u64) / (ch as u64);
    let y1 = ((cy as u64) + 1) * (ih as u64) / (ch as u64);
    let (s, n) = rect_stats(data, stride, chan, iw as u64, y0, y1, x0, x1);
    if n > 0 {
        proof {
            lemma_average_fits(s as int, n as int);
        }
        (s / n) as u8
    } else {
        0
    }
}

proof fn lemma_grid_index(cy: int, cx: int, cw: int)
    requires
        0 <= cx < cw,
        0 <= cy,
    ensures
        (cy * cw + cx) / cw == cy,
        (cy * cw + cx) % cw == cx,
{
    vstd::arithmetic::div_mod::lemma_fundamental_div_mod_converse(cy * cw + cx, cw, cy, cx);
}

/// Downsample a grayscale image (one byte per pixel, row-major) to a
/// `char_width` x `char_height` grid of cell averages.
///
/// Cell bounds are the exact integer floors of `cell_lo`, which can differ by
/// one pixel from single-precision bounds (320 pixels into 92 cells: cell 69
/// starts at 240, not 239).
pub fn downsample(gray: &[u8], img_width: u32, img_height: u32, char_width: u16, char_height: u16) -> (r: Vec<u8>)
    ensures
        r@ == spec_downsample(gray@, img_width as int, img_height as int, char_width as int, char_height as int),
{
    let mut out: Vec<u8> = Vec::new();
    downsample_into(gray, img_width, img_height, char_width, char_height, &mut out);
    out
}

/// `downsample` into a reused buffer; returns the number of cells written.
///
/// Cell bounds are the exact integer floors of `cell_lo` (320 pixels into 92
/// cells: cell 69 starts at 240, where single precision gives 239).
pub fn downsample_into(
    gray: &[u8],
    img_width: u32,
    img_height: u32,
    char_width: u16,
    char_height: u16,
    buffer: &mut Vec<u8>,
) -> (n: usize)
    ensures
        final(buffer)@ == spec_downsample(
            gray@,
            img_width as int,
            img_height as int,
            char_width as int,
            char_height as int,
        ),
        n == final(buffer)@.len(),
{
    buffer.clear();
    if char_width == 0 || char_height == 0 || img_width == 0 || img_height == 0 || gray.len() == 0 {
        return 0;
    }
    let ghost cwi = char_width as int;
    let mut cy: u16 = 0;
    while cy < char_height
        invariant
            char_width > 0,
            cwi == char_width,
            cy <= char_height,
            buffer@.len() == cy * cwi,
            forall|i: int|
                0 <= i < cy * cwi ==> #[trigger] buffer@[i] == cell_average(
                    gray@,
                    1,
                    0,
                    img_width as int,
                    img_height as int,
                    char_width as int,
                    char_height as int,
                    i % cwi,
                    i / cwi,
                ) as u8,
        decreases char_height - cy,
    {
        let mut cx: u16 = 0;
        while cx < char_width
            invariant
                char_width > 0,
                cwi == char_width,
                cy < char_height,
                cx <= char_width,
                buffer@.len() == cy * cwi + cx,
                forall|i: int|
                    0 <= i < cy * cwi + cx ==> #[trigger] buffer@[i] == cell_average(
                        gray@,
                        1,
                        0,
                        img_width as int,
                        img_height as int,
                        char_width as int,
                        char_height as int,
                        i % cwi,
                        i / cwi,
                    ) as u8,
            decreases char_width - cx,
        {
            let v = cell_value(gray, 1, 0, img_width, img_height, char_width, char_height, cx, cy);
            proof {
                lemma_grid_index(cy as int, cx as int, cwi);
            }
            buffer.push(v);
            cx = cx + 1;
        }
        assert(cy * cwi + cwi == (cy + 1) * cwi) by (nonlinear_arith);
        cy = cy + 1;
    }
    assert(cwi * (char_height as int) == (char_height as int) * cwi) by (nonlinear_arith);
    assert(buffer@ =~= spec_downsample(
        gray@,
        img_width as int,
        img_height as int,
        char_width as int,
        char_height as int,
    ));
    buffer.len()
}

/// Average RGB color of each cell of a `char_width` x `char_height` grid over
/// an RGB frame, into a reused buffer; returns the number of cells written.
///
/// Cell bounds are the exact integer floors of `cell_lo` (320 pixels into 92
/// cells: cell 69 starts at 240, where single precision gives 239).
pub fn downsample_colors_into(frame: &Frame, char_width: u16, char_height: u16, buffer: &mut Vec<CellColor>) -> (n:
    usize)
    ensures
        final(buffer)@ == spec_downsample_colors(
            frame.data@,
            frame.width as int,
            frame.height as int,
            char_width as int,
            char_height as int,
        ),
        n == final(buffer)@.len(),
{
    buffer.clear();
    let img_width = frame.width;
    let img_height = frame.height;
    let data = frame.data.as_slice();
    if char_width == 0 || char_height == 0 || img_width == 0 || img_height == 0 || data.len() == 0 {
        return 0;
    }
    let ghost cwi = char_width as int;
    let ghost iw = img_width as int;
    let ghost ih = img_height as int;
    let mut cy: u16 = 0;
    while cy < char_height
        invariant
            char_width > 0,
            cwi == char_width,
            iw == img_width,
            ih == img_height,
            data@ == frame.data@,
            cy <= char_height,
            buffer@.len() == cy * cwi,
            forall|i: int|
                0 <= i < cy * cwi ==> #[trigger] buffer@[i] == (CellColor {
                    r: cell_average(data@, 3, 0, iw, ih, cwi, char_height as int, i % cwi, i / cwi) as u8,
                    g: cell_average(data@, 3, 1, iw, ih, cwi, char_height as int, i % cwi, i / cwi) as u8,
                    b: cell_average(data@, 3, 2, iw, ih, cwi, char_height as int, i % cwi, i / cwi) as u8,
                }),
        decreases char_height - cy,
    {
        let mut cx: u16 = 0;
        while cx < char_width
            invariant
                char_width > 0,
                cwi == char_width,
                iw == img_width,
                ih == img_height,
                cy < char_height,
                cx <= char_width,
                buffer@.len() == cy * cwi + cx,
                forall|i: int|
                    0 <= i < cy * cwi + cx ==> #[trigger] buffer@[i] == (CellColor {
                        r: cell_average(data@, 3, 0, iw, ih, cwi, char_height as int, i % cwi, i / cwi) as u8,
                        g: cell_average(data@, 3, 1, iw, ih, cwi, char_height as int, i % cwi, i / cwi) as u8,
                        b: cell_average(data@, 3, 2, iw, ih, cwi, char_height as int, i % cwi, i / cwi) as u8,
                    }),
            decreases char_width - cx,
        {
            let r = cell_value(data, 3, 0, img_width, img_height, char_width, char_height, cx, cy);
            let g = cell_value(data, 3, 1, img_width, img_height, char_width, char_height, cx, cy);
            let b = cell_value(data, 3, 2, img_width, img_height, char_width, char_height, cx, cy);
            proof {
                lemma_grid_index(cy as int, cx as int, cwi);
            }
            buffer.push(CellColor { r, g, b });
            cx = cx + 1;
        }
        assert(cy * cwi + cwi == (cy + 1) * cwi) by (nonlinear_arith);
        cy = cy + 1;
    }
    assert(cwi * (char_height as int) == (char_height as int) * cwi) by (nonlinear_arith);
    assert(buffer@ =~= spec_downsample_colors(data@, iw, ih, cwi, char_height as int));
    buffer.len()
}

} // verus!
