//! Sobel edge detection and structure-aware character selection.
use vstd::prelude::*;
use vstd::arithmetic::div_mod::{lemma_fundamental_div_mod, lemma_fundamental_div_mod_converse};
use crate::ascii::mapping::{gamma_correct, spec_gamma};
use crate::ascii::dither::tdiv;
use crate::ascii::downsample::{
    cell_lo, rect_sum, rect_count, rect_stats, lemma_cell_lo_bounds, lemma_average_fits,
};

verus! {

/// Whether pixel `j` of a `w` x `h` image lies off the one-pixel border.
pub open spec fn is_interior(j: int, w: int, h: int) -> bool {
    0 <= j < w * h && 1 <= j % w <= w - 2 && 1 <= j / w <= h - 2
}

/// Horizontal Sobel response at interior pixel `j` (kernel
/// `[-1 0 1; -2 0 2; -1 0 1]`).
pub open spec fn sobel_x(g: Seq<u8>, j: int, w: int) -> int {
    (g[j - w + 1] + 2 * g[j + 1] + g[j + w + 1]) - (g[j - w - 1] + 2 * g[j - 1] + g[j + w - 1])
}

/// Vertical Sobel response at interior pixel `j` (kernel
/// `[-1 -2 -1; 0 0 0; 1 2 1]`).
pub open spec fn sobel_y(g: Seq<u8>, j: int, w: int) -> int {
    (g[j + w - 1] + 2 * g[j + w] + g[j + w + 1]) - (g[j - w - 1] + 2 * g[j - w] + g[j - w + 1])
}

pub open spec fn abs(v: int) -> int {
    if v < 0 { -v } else { v }
}

/// Edge magnitude `min(|gx| + |gy|, 255)` at interior pixel `j`.
pub open spec fn sobel_magnitude(g: Seq<u8>, j: int, w: int) -> int {
    let m = abs(sobel_x(g, j, w)) + abs(sobel_y(g, j, w));
    if m > 255 { 255 } else { m }
}

/// Edge map of a `w` x `h` grayscale image: the Sobel magnitude at interior
/// pixels and 0 on the border; images smaller than 3x3, or with fewer than
/// `w * h` pixels, are returned unchanged.
pub open spec fn spec_edges(g: Seq<u8>, w: int, h: int) -> Seq<u8> {
    if w < 3 || h < 3 || g.len() < w * h {
        g
    } else {
        Seq::new(
            g.len(),
            |j: int|
                if is_interior(j, w, h) {
                    sobel_magnitude(g, j, w) as u8
                } else {
                    0u8
                },
        )
    }
}

proof fn lemma_interior_neighbours(j: int, w: int, h: int)
    requires
        w >= 3,
        h >= 3,
        is_interior(j, w, h),
    ensures
        j - w - 1 >= 0,
        j + w + 1 < w * h,
{
    lemma_fundamental_div_mod(j, w);
    let x = j % w;
    let y = j / w;
    assert(j == y * w + x) by (nonlinear_arith)
        requires
            j == w * y + x,
    ;
    assert(j - w - 1 >= 0) by (nonlinear_arith)
        requires
            j == y * w + x,
            y >= 1,
            x >= 1,
            w >= 3,
    ;
    assert(j + w + 1 < w * h) by (nonlinear_arith)
        requires
            j == y * w + x,
            y <= h - 2,
            x <= w - 2,
            w >= 3,
    ;
}

/// Gray value at column `x`, row `y` of an image `w` pixels wide.
pub open spec fn pixel_at(g: Seq<u8>, w: int, x: int, y: int) -> int {
    g[y * w + x] as int
}

proof fn lemma_pixel_index(w: int, h: int, x: int, y: int)
    requires
        w >= 3,
        h >= 3,
        0 <= x < w,
        0 <= y < h,
    ensures
        0 <= y * w + x < w * h,
        (y * w + x) % w == x,
        (y * w + x) / w == y,
        (y - 1) * w + x == y * w + x - w,
        (y + 1) * w + x == y * w + x + w,
{
    lemma_fundamental_div_mod_converse(y * w + x, w, y, x);
    assert(0 <= y * w + x < w * h) by (nonlinear_arith)
        requires
            w >= 3,
            0 <= x < w,
            0 <= y < h,
    ;
    assert((y - 1) * w + x == y * w + x - w) by (nonlinear_arith);
    assert((y + 1) * w + x == y * w + x + w) by (nonlinear_arith);
}

/// At every pixel off the border of a `w` x `h` image (`w, h >= 3`), the edge
/// map holds `min(|Gx| + |Gy|, 255)`, where `Gx` is the horizontal Sobel
/// response (right column minus left column, middle row weighted 2) and `Gy`
/// the vertical one (row below minus row above, middle column weighted 2).
/// Border pixels are 0, and the map has as many pixels as the image.
pub proof fn edge_map_is_sobel_magnitude(g: Seq<u8>, w: int, h: int, x: int, y: int)
    requires
        w >= 3,
        h >= 3,
        g.len() >= w * h,
        0 <= x < w,
        0 <= y < h,
    ensures
        spec_edges(g, w, h).len() == g.len(),
        ({
            let gx = (pixel_at(g, w, x + 1, y - 1) + 2 * pixel_at(g, w, x + 1, y) + pixel_at(g, w, x + 1, y + 1))
                - (pixel_at(g, w, x - 1, y - 1) + 2 * pixel_at(g, w, x - 1, y) + pixel_at(g, w, x - 1, y + 1));
            let gy = (pixel_at(g, w, x - 1, y + 1) + 2 * pixel_at(g, w, x, y + 1) + pixel_at(g, w, x + 1, y + 1))
                - (pixel_at(g, w, x - 1, y - 1) + 2 * pixel_at(g, w, x, y - 1) + pixel_at(g, w, x + 1, y - 1));
            let m = (if gx < 0 { -gx } else { gx }) + (if gy < 0 { -gy } else { gy });
            1 <= x <= w - 2 && 1 <= y <= h - 2 ==> spec_edges(g, w, h)[y * w + x] == (if m > 255 { 255 } else { m })
        }),
        (x == 0 || x == w - 1 || y == 0 || y == h - 1) ==> spec_edges(g, w, h)[y * w + x] == 0,
{
    lemma_pixel_index(w, h, x, y);
    if 1 <= x <= w - 2 && 1 <= y <= h - 2 {
        lemma_pixel_index(w, h, x, y - 1);
        lemma_pixel_index(w, h, x, y + 1);
    }
}

/// Sobel edge magnitudes of a grayscale image (same size as the input).
pub fn apply_edge_detection(gray: &[u8], width: u32, height: u32) -> (r: Vec<u8>)
    ensures
        r@ == spec_edges(gray@, width as int, height as int),
{
    let len = gray.len();
    let w = width as u64;
    let h = height as u64;
    assert((w as int) * (h as int) <= 0xFFFF_FFFF * 0xFFFF_FFFF) by (nonlinear_arith)
        requires
            w <= 0xFFFF_FFFF,
            h <= 0xFFFF_FFFF,
    ;
    if width < 3 || height < 3 || (len as u64) < w * h {
        let mut copy: Vec<u8> = Vec::new();
        let mut i: usize = 0;
        while i < len
            invariant
                len == gray@.len(),
                i <= len,
                copy@ =~= gray@.take(i as int),
            decreases len - i,
        {
            copy.push(gray[i]);
            i = i + 1;
        }
        assert(copy@ =~= gray@);
        return copy;
    }
    let total = (w * h) as usize;
    let wu = width as usize;
    let mut out: Vec<u8> = Vec::new();
    let mut j: usize = 0;
    while j < len
        invariant
            len == gray@.len(),
            wu == width,
            w == width,
            h == height,
            width >= 3,
            height >= 3,
            total == w * h,
            total <= len,
            j <= len,
            out@.len() == j,
            forall|k: int|
                0 <= k < j ==> #[trigger] out@[k] == spec_edges(gray@, width as int, height as int)[k],
        decreases len - j,
    {
        let x = (j as u64) % w;
        let y = (j as u64) / w;
        if j < total && 1 <= x && x <= w - 2 && 1 <= y && y <= h - 2 {
            proof {
                lemma_interior_neighbours(j as int, w as int, h as int);
            }
            let a00 = gray[j - wu - 1] as i32;
            let a01 = gray[j - wu] as i32;
            let a02 = gray[j - wu + 1] as i32;
            let a10 = gray[j - 1] as i32;
            let a12 = gray[j + 1] as i32;
            let a20 = gray[j + wu - 1] as i32;
            let a21 = gray[j + wu] as i32;
            let a22 = gray[j + wu + 1] as i32;
            let gx = (a02 + 2 * a12 + a22) - (a00 + 2 * a10 + a20);
            let gy = (a20 + 2 * a21 + a22) - (a00 + 2 * a01 + a02);
            let ax = if gx < 0 { -gx } else { gx };
            let ay = if gy < 0 { -gy } else { gy };
            let m = ax + ay;
            let m = if m > 255 { 255 } else { m };
            out.push(m as u8);
        } else {
            out.push(0);
        }
        j = j + 1;
    }
    assert(out@ =~= spec_edges(gray@, width as int, height as int));
    out
}

/// Edge direction found by gradient analysis.
#[derive(Debug, Clone, Copy, PartialEq, Eq, Structural)]
pub enum EdgeDirection {
    /// No significant edge (smooth area)
    NoEdge,
    /// Horizontal edge
    Horizontal,
    /// Vertical edge
    Vertical,
    /// Diagonal from top-left to bottom-right
    DiagonalDown,
    /// Diagonal from bottom-left to top-right
    DiagonalUp,
}

/// Characters for structure-aware rendering, by brightness level (0-4) and
/// edge direction.
pub struct StructureCharset {
    /// Characters for smooth areas (no edge)
    pub smooth: [char; 5],
    /// Characters for horizontal edges
    pub horizontal: [char; 5],
    /// Characters for vertical edges
    pub vertical: [char; 5],
    /// Characters for diagonal-down edges
    pub diagonal_down: [char; 5],
    /// Characters for diagonal-up edges
    pub diagonal_up: [char; 5],
}

/// Default structure-aware character set (uses Unicode line and block characters).
pub fn structure_charset() -> (c: StructureCharset)
    ensures
        c.smooth@ == seq![' ', '.', '+', '#', '@'],
        c.horizontal@ == seq![' ', '-', '=', '≡', '▬'],
        c.vertical@ == seq![' ', ':', '|', '║', '█'],
        c.diagonal_down@ == seq![' ', '.', '\\', '╲', '▓'],
        c.diagonal_up@ == seq![' ', '.', '/', '╱', '▓'],
{
    let c = StructureCharset {
        smooth: [' ', '.', '+', '#', '@'],
        horizontal: [' ', '-', '=', '≡', '▬'],
        vertical: [' ', ':', '|', '║', '█'],
        diagonal_down: [' ', '.', '\\', '╲', '▓'],
        diagonal_up: [' ', '.', '/', '╱', '▓'],
    };
    assert(c.smooth@ =~= seq![' ', '.', '+', '#', '@']);
    assert(c.horizontal@ =~= seq![' ', '-', '=', '≡', '▬']);
    assert(c.vertical@ =~= seq![' ', ':', '|', '║', '█']);
    assert(c.diagonal_down@ =~= seq![' ', '.', '\\', '╲', '▓']);
    assert(c.diagonal_up@ =~= seq![' ', '.', '/', '╱', '▓']);
    c
}

/// Structure-aware character set made of ASCII characters only.
pub fn structure_charset_ascii() -> (c: StructureCharset)
    ensures
        c.smooth@ == seq![' ', '.', '+', '#', '@'],
        c.horizontal@ == seq![' ', '-', '=', '=', '#'],
        c.vertical@ == seq![' ', ':', '|', '|', '#'],
        c.diagonal_down@ == seq![' ', '.', '\\', '\\', '#'],
        c.diagonal_up@ == seq![' ', '.', '/', '/', '#'],
{
    let c = StructureCharset {
        smooth: [' ', '.', '+', '#', '@'],
        horizontal: [' ', '-', '=', '=', '#'],
        vertical: [' ', ':', '|', '|', '#'],
        diagonal_down: [' ', '.', '\\', '\\', '#'],
        diagonal_up: [' ', '.', '/', '/', '#'],
    };
    assert(c.smooth@ =~= seq![' ', '.', '+', '#', '@']);
    assert(c.horizontal@ =~= seq![' ', '-', '=', '=', '#']);
    assert(c.vertical@ =~= seq![' ', ':', '|', '|', '#']);
    assert(c.diagonal_down@ =~= seq![' ', '.', '\\', '\\', '#']);
    assert(c.diagonal_up@ =~= seq![' ', '.', '/', '/', '#']);
    c
}

/// Edge strength `min((|gx| + |gy|) / 2, 255)` of an average gradient.
pub open spec fn gradient_magnitude(gx: int, gy: int) -> int {
    let m = (abs(gx) + abs(gy)) / 2;
    if m > 255 { 255 } else { m }
}

/// Dominant edge orientation of a gradient: none below a threshold of 30 on
/// both axes; vertical when the horizontal gradient is more than twice the
/// vertical one, horizontal in the opposite case, otherwise diagonal by sign.
pub open spec fn gradient_direction(gx: int, gy: int) -> EdgeDirection {
    if abs(gx) < 30 && abs(gy) < 30 {
        EdgeDirection::NoEdge
    } else if abs(gx) > abs(gy) * 2 {
        EdgeDirection::Vertical
    } else if abs(gy) > abs(gx) * 2 {
        EdgeDirection::Horizontal
    } else if (gx > 0) == (gy > 0) {
        EdgeDirection::DiagonalDown
    } else {
        EdgeDirection::DiagonalUp
    }
}

fn analyze_gradient(gx: i32, gy: i32) -> (r: (u8, EdgeDirection))
    requires
        -0x1000_0000 <= gx <= 0x1000_0000,
        -0x1000_0000 <= gy <= 0x1000_0000,
    ensures
        r.0 == gradient_magnitude(gx as int, gy as int),
        r.1 == gradient_direction(gx as int, gy as int),
{
    let ax = if gx < 0 { -gx } else { gx };
    let ay = if gy < 0 { -gy } else { gy };
    let m = (ax + ay) / 2;
    let magnitude = if m > 255 { 255u8 } else { m as u8 };
    if ax < 30 && ay < 30 {
        return (magnitude, EdgeDirection::NoEdge);
    }
    let dir = if ax > ay * 2 {
        EdgeDirection::Vertical
    } else if ay > ax * 2 {
        EdgeDirection::Horizontal
    } else if (gx > 0) == (gy > 0) {
        EdgeDirection::DiagonalDown
    } else {
        EdgeDirection::DiagonalUp
    };
    (magnitude, dir)
}

/// Brightness level 0-4 used to index a structure character row.
pub open spec fn structure_level(b: u8) -> int {
    let l = (b as int) * 4 / 255;
    if l > 4 { 4 } else { l }
}

/// Structure-aware character: the smooth character of the brightness level
/// for weak edges (strength below 50), otherwise the character for the edge
/// direction.
pub open spec fn structure_char(b: u8, dir: EdgeDirection, strength: u8, cs: StructureCharset) -> char {
    let l = structure_level(b);
    if strength < 50 {
        cs.smooth@[l]
    } else {
        match dir {
            EdgeDirection::NoEdge => cs.smooth@[l],
            EdgeDirection::Horizontal => cs.horizontal@[l],
            EdgeDirection::Vertical => cs.vertical@[l],
            EdgeDirection::DiagonalDown => cs.diagonal_down@[l],
            EdgeDirection::DiagonalUp => cs.diagonal_up@[l],
        }
    }
}

fn get_structure_char(brightness: u8, direction: EdgeDirection, edge_strength: u8, charset: &StructureCharset) -> (c:
    char)
    ensures
        c == structure_char(brightness, direction, edge_strength, *charset),
{
    let level = (brightness as usize * 4) / 255;
    let level = if level > 4 { 4 } else { level };
    if edge_strength < 50 {
        charset.smooth[level]
    } else {
        match direction {
            EdgeDirection::NoEdge => charset.smooth[level],
            EdgeDirection::Horizontal => charset.horizontal[level],
            EdgeDirection::Vertical => charset.vertical[level],
            EdgeDirection::DiagonalDown => charset.diagonal_down[level],
            EdgeDirection::DiagonalUp => charset.diagonal_up[level],
        }
    }
}

/// Neighbour (`px + kx - 1`, `py + ky - 1`) of a pixel, or 0 when missing.
pub open spec fn neighbour(g: Seq<u8>, iw: int, px: int, py: int, kx: int, ky: int) -> int {
    let n = (py + ky - 1) * iw + (px + kx - 1);
    if 0 <= n < g.len() { g[n] as int } else { 0 }
}

/// Horizontal Sobel response at pixel (`px`, `py`), missing neighbours read as 0.
pub open spec fn gradient_x(g: Seq<u8>, iw: int, px: int, py: int) -> int {
    -neighbour(g, iw, px, py, 0, 0) + neighbour(g, iw, px, py, 2, 0) - 2 * neighbour(g, iw, px, py, 0, 1) + 2
        * neighbour(g, iw, px, py, 2, 1) - neighbour(g, iw, px, py, 0, 2) + neighbour(g, iw, px, py, 2, 2)
}

/// Vertical Sobel response at pixel (`px`, `py`), missing neighbours read as 0.
pub open spec fn gradient_y(g: Seq<u8>, iw: int, px: int, py: int) -> int {
    -neighbour(g, iw, px, py, 0, 0) - 2 * neighbour(g, iw, px, py, 1, 0) - neighbour(g, iw, px, py, 2, 0)
        + neighbour(g, iw, px, py, 0, 2) + 2 * neighbour(g, iw, px, py, 1, 2) + neighbour(g, iw, px, py, 2, 2)
}

/// Whether pixel (`px`, `py`) is present and off the image border, so that it
/// contributes a gradient.
pub open spec fn gradient_pixel(g: Seq<u8>, iw: int, ih: int, px: int, py: int) -> bool {
    py * iw + px < g.len() && px > 0 && px < iw - 1 && py > 0 && py < ih - 1
}

/// Sum of gradients (`x` axis when `along_x`) over pixels `x0..x1` of row `py`.
pub open spec fn grad_row(g: Seq<u8>, iw: int, ih: int, py: int, x0: int, x1: int, along_x: bool) -> int
    decreases x1 - x0,
{
    if x1 <= x0 {
        0
    } else {
        grad_row(g, iw, ih, py, x0, x1 - 1, along_x) + (if gradient_pixel(g, iw, ih, x1 - 1, py) {
            if along_x {
                gradient_x(g, iw, x1 - 1, py)
            } else {
                gradient_y(g, iw, x1 - 1, py)
            }
        } else {
            0
        })
    }
}

/// Number of gradient pixels among pixels `x0..x1` of row `py`.
pub open spec fn grad_row_count(g: Seq<u8>, iw: int, ih: int, py: int, x0: int, x1: int) -> int
    decreases x1 - x0,
{
    if x1 <= x0 {
        0
    } else {
        grad_row_count(g, iw, ih, py, x0, x1 - 1) + (if gradient_pixel(g, iw, ih, x1 - 1, py) {
            1int
        } else {
            0int
        })
    }
}

/// Sum of gradients over rows `y0..y1`, columns `x0..x1`.
pub open spec fn grad_rect(g: Seq<u8>, iw: int, ih: int, y0: int, y1: int, x0: int, x1: int, along_x: bool) -> int
    decreases y1 - y0,
{
    if y1 <= y0 {
        0
    } else {
        grad_rect(g, iw, ih, y0, y1 - 1, x0, x1, along_x) + grad_row(g, iw, ih, y1 - 1, x0, x1, along_x)
    }
}

/// Number of gradient pixels in rows `y0..y1`, columns `x0..x1`.
pub open spec fn grad_rect_count(g: Seq<u8>, iw: int, ih: int, y0: int, y1: int, x0: int, x1: int) -> int
    decreases y1 - y0,
{
    if y1 <= y0 {
        0
    } else {
        grad_rect_count(g, iw, ih, y0, y1 - 1, x0, x1) + grad_row_count(g, iw, ih, y1 - 1, x0, x1)
    }
}

/// Character of cell (`cx`, `cy`) in structure-aware mapping: the cell's
/// average brightness (optionally gamma corrected) and its average gradient
/// (rounded toward zero) select the character.
pub open spec fn structure_cell(
    g: Seq<u8>,
    iw: int,
    ih: int,
    cw: int,
    ch: int,
    cs: StructureCharset,
    use_gamma: bool,
    cx: int,
    cy: int,
) -> char {
    let x0 = cell_lo(cx, iw, cw);
    let x1 = cell_lo(cx + 1, iw, cw);
    let y0 = cell_lo(cy, ih, ch);
    let y1 = cell_lo(cy + 1, ih, ch);
    let n = rect_count(g, 1, iw, y0, y1, x0, x1);
    let b = if n > 0 { (rect_sum(g, 1, 0, iw, y0, y1, x0, x1) / n) as u8 } else { 0u8 };
    let b = if use_gamma { spec_gamma(b) } else { b };
    let gn = grad_rect_count(g, iw, ih, y0, y1, x0, x1);
    let ax = if gn > 0 { tdiv(grad_rect(g, iw, ih, y0, y1, x0, x1, true), gn) } else { 0 };
    let ay = if gn > 0 { tdiv(grad_rect(g, iw, ih, y0, y1, x0, x1, false), gn) } else { 0 };
    structure_char(b, gradient_direction(ax, ay), gradient_magnitude(ax, ay) as u8, cs)
}

/// Structure-aware mapping of a grayscale image to a `cw` x `ch` grid.
pub open spec fn spec_structure_aware(
    g: Seq<u8>,
    iw: int,
    ih: int,
    cw: int,
    ch: int,
    cs: StructureCharset,
    use_gamma: bool,
) -> Seq<char> {
    if cw == 0 || ch == 0 || iw < 3 || ih < 3 || g.len() == 0 {
        Seq::new((cw * ch) as nat, |i: int| ' ')
    } else {
        Seq::new((cw * ch) as nat, |i: int| structure_cell(g, iw, ih, cw, ch, cs, use_gamma, i % cw, i / cw))
    }
}

fn neighbour_value(g: &[u8], iw: u64, px: u64, py: u64, kx: u64, ky: u64) -> (v: i64)
    requires
        1 <= px <= u32::MAX,
        1 <= py <= u32::MAX,
        iw <= u32::MAX,
        kx <= 2,
        ky <= 2,
    ensures
        v == neighbour(g@, iw as int, px as int, py as int, kx as int, ky as int),
        0 <= v <= 255,
{
    assert(((py + ky - 1) as int) * (iw as int) <= 0x1_0000_0002 * 0xFFFF_FFFF) by (nonlinear_arith)
        requires
            py + ky - 1 <= 0x1_0000_0001,
            iw <= 0xFFFF_FFFF,
    ;
    let n: u128 = ((py + ky - 1) as u128) * (iw as u128) + ((px + kx - 1) as u128);
    if n < g.len() as u128 {
        g[n as usize] as i64
    } else {
        0
    }
}

fn pixel_gradient(g: &[u8], iw: u64, px: u64, py: u64) -> (r: (i64, i64))
    requires
        1 <= px <= u32::MAX,
        1 <= py <= u32::MAX,
        iw <= u32::MAX,
    ensures
        r.0 == gradient_x(g@, iw as int, px as int, py as int),
        r.1 == gradient_y(g@, iw as int, px as int, py as int),
        -1020 <= r.0 <= 1020,
        -1020 <= r.1 <= 1020,
{
    let a00 = neighbour_value(g, iw, px, py, 0, 0);
    let a10 = neighbour_value(g, iw, px, py, 1, 0);
    let a20 = neighbour_value(g, iw, px, py, 2, 0);
    let a01 = neighbour_value(g, iw, px, py, 0, 1);
    let a21 = neighbour_value(g, iw, px, py, 2, 1);
    let a02 = neighbour_value(g, iw, px, py, 0, 2);
    let a12 = neighbour_value(g, iw, px, py, 1, 2);
    let a22 = neighbour_value(g, iw, px, py, 2, 2);
    let gx = -a00 + a20 - 2 * a01 + 2 * a21 - a02 + a22;
    let gy = -a00 - 2 * a10 - a20 + a02 + 2 * a12 + a22;
    (gx, gy)
}

fn gradient_stats(g: &[u8], iw: u64, ih: u64, y0: u64, y1: u64, x0: u64, x1: u64) -> (r: (i128, i128, u128))
    requires
        iw <= u32::MAX,
        ih <= u32::MAX,
        y1 <= ih,
        x0 <= x1 <= iw,
        y0 <= y1,
    ensures
        r.0 == grad_rect(g@, iw as int, ih as int, y0 as int, y1 as int, x0 as int, x1 as int, true),
        r.1 == grad_rect(g@, iw as int, ih as int, y0 as int, y1 as int, x0 as int, x1 as int, false),
        r.2 == grad_rect_count(g@, iw as int, ih as int, y0 as int, y1 as int, x0 as int, x1 as int),
        -1020 * r.2 <= r.0 <= 1020 * r.2,
        -1020 * r.2 <= r.1 <= 1020 * r.2,
        r.2 <= 0x1_0000_0000_0000_0000,
{
    let len = g.len() as u64;
    let mut sx: i128 = 0;
    let mut sy: i128 = 0;
    let mut cnt: u128 = 0;
    let mut py = y0;
    while py < y1
        invariant
            len == g@.len(),
            iw <= u32::MAX,
            ih <= u32::MAX,
            y1 <= ih,
            x0 <= x1 <= iw,
            y0 <= py <= y1,
            sx == grad_rect(g@, iw as int, ih as int, y0 as int, py as int, x0 as int, x1 as int, true),
            sy == grad_rect(g@, iw as int, ih as int, y0 as int, py as int, x0 as int, x1 as int, false),
            cnt == grad_rect_count(g@, iw as int, ih as int, y0 as int, py as int, x0 as int, x1 as int),
            cnt <= (py - y0) * 0x1_0000_0000,
            -1020 * cnt <= sx <= 1020 * cnt,
            -1020 * cnt <= sy <= 1020 * cnt,
        decreases y1 - py,
    {
        assert((py as int) * (iw as int) <= 0xFFFF_FFFF * 0xFFFF_FFFF) by (nonlinear_arith)
            requires
                py <= 0xFFFF_FFFF,
                iw <= 0xFFFF_FFFF,
        ;
        let base: u64 = py * iw;
        let mut rx: i128 = 0;
        let mut ry: i128 = 0;
        let mut rc: u128 = 0;
        let mut px = x0;
        while px < x1
            invariant
                len == g@.len(),
                iw <= u32::MAX,
                ih <= u32::MAX,
                py < y1 <= ih,
                x0 <= px <= x1,
                x1 <= iw,
                base == py * iw,
                base <= 0xFFFF_FFFF * 0xFFFF_FFFF,
                rx == grad_row(g@, iw as int, ih as int, py as int, x0 as int, px as int, true),
                ry == grad_row(g@, iw as int, ih as int, py as int, x0 as int, px as int, false),
                rc == grad_row_count(g@, iw as int, ih as int, py as int, x0 as int, px as int),
                rc <= px - x0,
                -1020 * rc <= rx <= 1020 * rc,
                -1020 * rc <= ry <= 1020 * rc,
            decreases x1 - px,
        {
            if base + px < len && px > 0 && px < iw - 1 && py > 0 && py < ih - 1 {
                let (gx, gy) = pixel_gradient(g, iw, px, py);
                rx = rx + (gx as i128);
                ry = ry + (gy as i128);
                rc = rc + 1;
            }
            px = px + 1;
        }
        sx = sx + rx;
        sy = sy + ry;
        cnt = cnt + rc;
        py = py + 1;
    }
    (sx, sy, cnt)
}

/// Average of a gradient sum over `n` pixels, rounded toward zero.
fn average_toward_zero(s: i128, n: u128) -> (a: i32)
    requires
        0 < n <= 0x1_0000_0000_0000_0000,
        -1020 * n <= s <= 1020 * n,
    ensures
        a == tdiv(s as int, n as int),
        -1020 <= a <= 1020,
{
    if s >= 0 {
        assert((s as int) / (n as int) <= 1020) by (nonlinear_arith)
            requires
                0 <= s <= 1020 * n,
                n > 0,
        ;
        (s / (n as i128)) as i32
    } else {
        assert((-(s as int)) / (n as int) <= 1020) by (nonlinear_arith)
            requires
                0 <= -s <= 1020 * n,
                n > 0,
        ;
        let q: i128 = (-s) / (n as i128);
        (-q) as i32
    }
}

fn structure_cell_char(
    gray: &[u8],
    iw: u32,
    ih: u32,
    cw: u16,
    ch: u16,
    charset: &StructureCharset,
    use_gamma: bool,
    cx: u16,
    cy: u16,
) -> (c: char)
    requires
        cx < cw,
        cy < ch,
    ensures
        c == structure_cell(gray@, iw as int, ih as int, cw as int, ch as int, *charset, use_gamma, cx as int, cy as int),
{
    proof {
        lemma_cell_lo_bounds(cx as int, iw as int, cw as int);
        lemma_cell_lo_bounds(cy as int, ih as int, ch as int);
    }
    assert(((cx as int) + 1) * (iw as int) <= 0x1_0000 * 0x1_0000_0000) by (nonlinear_arith)
        requires
            cx < 0xFFFF,
            iw <= 0xFFFF_FFFF,
    ;
    assert(((cy as int) + 1) * (ih as int) <= 0x1_0000 * 0x1_0000_0000) by (nonlinear_arith)
        requires
            cy < 0xFFFF,
            ih <= 0xFFFF_FFFF,
    ;
    assert((cx as int) * (iw as int) <= ((cx as int) + 1) * (iw as int)) by (nonlinear_arith);
    assert((cy as int) * (ih as int) <= ((cy as int) + 1) * (ih as int)) by (nonlinear_arith);
    let x0 = (cx as u64) * (iw as u64) / (cw as u64);
    let x1 = ((cx as u64) + 1) * (iw as u64) / (cw as u64);
    let y0 = (cy as u64) * (ih as u64) / (ch as u64);
    let y1 = ((cy as u64) + 1) * (ih as u64) / (ch as u64);
    let (s, n) = rect_stats(gray, 1, 0, iw as u64, y0, y1, x0, x1);
    let b: u8 = if n > 0 {
        proof {
            lemma_average_fits(s as int, n as int);
        }
        (s / n) as u8
    } else {
        0
    };
    let b = if use_gamma { gamma_correct(b) } else { b };
    let (gxs, gys, gn) = gradient_stats(gray, iw as u64, ih as u64, y0, y1, x0, x1);
    let ax: i32 = if gn > 0 { average_toward_zero(gxs, gn) } else { 0 };
    let ay: i32 = if gn > 0 { average_toward_zero(gys, gn) } else { 0 };
    let (strength, dir) = analyze_gradient(ax, ay);
    get_structure_char(b, dir, strength, charset)
}

/// Map a grayscale image to a `char_width` x `char_height` grid, choosing for
/// each cell a character that matches both its brightness and the direction
/// of its edges.
///
/// Cell bounds are the exact integer floors of `cell_lo` (320 pixels into 92
/// cells: cell 69 starts at 240, where single precision gives 239).
pub fn map_structure_aware(
    gray: &[u8],
    img_width: u32,
    img_height: u32,
    char_width: u16,
    char_height: u16,
    charset: &StructureCharset,
    use_gamma: bool,
) -> (r: Vec<char>)
    ensures
        r@ == spec_structure_aware(
            gray@,
            img_width as int,
            img_height as int,
            char_width as int,
            char_height as int,
            *charset,
            use_gamma,
        ),
{
    let mut out: Vec<char> = Vec::new();
    assert((char_width as int) * (char_height as int) <= 0xFFFF * 0xFFFF) by (nonlinear_arith)
        requires
            char_width <= 0xFFFF,
            char_height <= 0xFFFF,
    ;
    let total = (char_width as usize) * (char_height as usize);
    if char_width == 0 || char_height == 0 || img_width < 3 || img_height < 3 || gray.len() == 0 {
        let mut i: usize = 0;
        while i < total
            invariant
                i <= total,
                out@ =~= Seq::new(i as nat, |j: int| ' '),
            decreases total - i,
        {
            out.push(' ');
            i = i + 1;
        }
        return out;
    }
    let ghost cwi = char_width as int;
    let mut cy: u16 = 0;
    while cy < char_height
        invariant
            char_width > 0,
            cwi == char_width,
            cy <= char_height,
            out@.len() == cy * cwi,
            forall|i: int|
                0 <= i < cy * cwi ==> #[trigger] out@[i] == structure_cell(
                    gray@,
                    img_width as int,
                    img_height as int,
                    cwi,
                    char_height as int,
                    *charset,
                    use_gamma,
                    i % cwi,
                    i / cwi,
                ),
        decreases char_height - cy,
    {
        let mut cx: u16 = 0;
        while cx < char_width
            invariant
                char_width > 0,
                cwi == char_width,
                cy < char_height,
                cx <= char_width,
                out@.len() == cy * cwi + cx,
                forall|i: int|
                    0 <= i < cy * cwi + cx ==> #[trigger] out@[i] == structure_cell(
                        gray@,
                        img_width as int,
                        img_height as int,
                        cwi,
                        char_height as int,
                        *charset,
                        use_gamma,
                        i % cwi,
                        i / cwi,
                    ),
            decreases char_width - cx,
        {
            let c = structure_cell_char(gray, img_width, img_height, char_width, char_height, charset, use_gamma, cx, cy);
            proof {
                lemma_fundamental_div_mod_converse(cy * cwi + cx, cwi, cy as int, cx as int);
            }
            out.push(c);
            cx = cx + 1;
        }
        assert(cy * cwi + cwi == (cy + 1) * cwi) by (nonlinear_arith);
        cy = cy + 1;
    }
    assert(cwi * (char_height as int) == (char_height as int) * cwi) by (nonlinear_arith);
    assert(out@ =~= spec_structure_aware(
        gray@,
        img_width as int,
        img_height as int,
        char_width as int,
        char_height as int,
        *charset,
        use_gamma,
    ));
    out
}

} // verus!
