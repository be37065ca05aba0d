//! Braille rendering: each character cell shows a 2x4 dot matrix, giving
//! eight sub-pixels per cell.
use vstd::prelude::*;
use crate::ascii::mapping::oriented;

verus! {

/// The empty braille pattern, U+2800.
pub const BRAILLE_BASE: char = '\u{2800}';

/// `char::from_u32`: the character with the given code point, or `None` for a
/// surrogate code point or one above U+10FFFF.
pub assume_specification[ char::from_u32 ](i: u32) -> (r: Option<char>)
    ensures
        (i < 0xD800 || (0xE000 <= i <= 0x10FFFF)) ==> r == Some(i as char),
        !(i < 0xD800 || (0xE000 <= i <= 0x10FFFF)) ==> r is None,
;

/// Bit of the braille code point that dot (`x`, `y`) of the 2x4 matrix sets.
pub open spec fn dot_bit(x: int, y: int) -> int {
    if x == 0 {
        if y == 0 { 0x01 } else if y == 1 { 0x02 } else if y == 2 { 0x04 } else { 0x40 }
    } else {
        if y == 0 { 0x08 } else if y == 1 { 0x10 } else if y == 2 { 0x20 } else { 0x80 }
    }
}

/// Offset from U+2800 of the braille pattern with the given dots raised.
pub open spec fn braille_code(grid: [[bool; 4]; 2]) -> int {
    (if grid[0][0] { dot_bit(0, 0) } else { 0 }) + (if grid[0][1] { dot_bit(0, 1) } else { 0 }) + (if grid[0][2] {
        dot_bit(0, 2)
    } else {
        0
    }) + (if grid[0][3] { dot_bit(0, 3) } else { 0 }) + (if grid[1][0] { dot_bit(1, 0) } else { 0 }) + (if grid[1][1] {
        dot_bit(1, 1)
    } else {
        0
    }) + (if grid[1][2] { dot_bit(1, 2) } else { 0 }) + (if grid[1][3] { dot_bit(1, 3) } else { 0 })
}

/// Convert a 2x4 dot grid (`grid[x][y]`) to its braille character.
pub fn grid_to_braille(grid: [[bool; 4]; 2]) -> (c: char)
    ensures
        c as u32 == 0x2800 + braille_code(grid),
{
    let mut code: u32 = 0;
    if grid[0][0] {
        code = code + 0x01;
    }
    if grid[0][1] {
        code = code + 0x02;
    }
    if grid[0][2] {
        code = code + 0x04;
    }
    if grid[0][3] {
        code = code + 0x40;
    }
    if grid[1][0] {
        code = code + 0x08;
    }
    if grid[1][1] {
        code = code + 0x10;
    }
    if grid[1][2] {
        code = code + 0x20;
    }
    if grid[1][3] {
        code = code + 0x80;
    }
    match char::from_u32(0x2800 + code) {
        Some(c) => c,
        None => BRAILLE_BASE,
    }
}

/// Whether braille sub-pixel (`bx`, `by`) of a `2 cw` x `4 ch` dot grid laid
/// over an `iw` x `ih` image is raised: the source pixel at
/// `(floor(bx * iw / (2 cw)), floor(by * ih / (4 ch)))` must exist and reach
/// the threshold (after optional inversion).
pub open spec fn dot_on(
    gray: Seq<u8>,
    iw: int,
    ih: int,
    cw: int,
    ch: int,
    threshold: u8,
    invert: bool,
    bx: int,
    by: int,
) -> bool {
    let sx = bx * iw / (2 * cw);
    let sy = by * ih / (4 * ch);
    let idx = sy * iw + sx;
    sx < iw && sy < ih && idx < gray.len() && oriented(gray[idx], invert) >= threshold
}

/// Braille character of cell (`cx`, `cy`).
pub open spec fn braille_cell(
    gray: Seq<u8>,
    iw: int,
    ih: int,
    cw: int,
    ch: int,
    threshold: u8,
    invert: bool,
    cx: int,
    cy: int,
) -> int {
    0x2800 + braille_code(
        [
            [
                dot_on(gray, iw, ih, cw, ch, threshold, invert, 2 * cx, 4 * cy),
                dot_on(gray, iw, ih, cw, ch, threshold, invert, 2 * cx, 4 * cy + 1),
                dot_on(gray, iw, ih, cw, ch, threshold, invert, 2 * cx, 4 * cy + 2),
                dot_on(gray, iw, ih, cw, ch, threshold, invert, 2 * cx, 4 * cy + 3),
            ],
            [
                dot_on(gray, iw, ih, cw, ch, threshold, invert, 2 * cx + 1, 4 * cy),
                dot_on(gray, iw, ih, cw, ch, threshold, invert, 2 * cx + 1, 4 * cy + 1),
                dot_on(gray, iw, ih, cw, ch, threshold, invert, 2 * cx + 1, 4 * cy + 2),
                dot_on(gray, iw, ih, cw, ch, threshold, invert, 2 * cx + 1, 4 * cy + 3),
            ],
        ],
    )
}

/// Braille rendering of a grayscale image on a `cw` x `ch` character grid
/// (code points, row-major).
pub open spec fn spec_render(
    gray: Seq<u8>,
    iw: int,
    ih: int,
    cw: int,
    ch: int,
    threshold: u8,
    invert: bool,
) -> Seq<int> {
    if cw == 0 || ch == 0 || iw == 0 || ih == 0 || gray.len() == 0 {
        Seq::empty()
    } else {
        Seq::new(
            (cw * ch) as nat,
            |i: int| braille_cell(gray, iw, ih, cw, ch, threshold, invert, i % cw, i / cw),
        )
    }
}

fn dot(
    gray: &[u8],
    iw: u32,
    ih: u32,
    cw: u16,
    ch: u16,
    threshold: u8,
    invert: bool,
    bx: u64,
    by: u64,
) -> (on: bool)
    requires
        cw > 0,
        ch > 0,
        bx < 2 * cw,
        by < 4 * ch,
    ensures
        on == dot_on(gray@, iw as int, ih as int, cw as int, ch as int, threshold, invert, bx as int, by as int),
{
    assert((bx as int) * (iw as int) <= 0x2_0000 * 0x1_0000_0000) by (nonlinear_arith)
        requires
            bx < 0x2_0000,
            iw <= 0xFFFF_FFFF,
    ;
    assert((by as int) * (ih as int) <= 0x4_0000 * 0x1_0000_0000) by (nonlinear_arith)
        requires
            by < 0x4_0000,
            ih <= 0xFFFF_FFFF,
    ;
    let sx: u64 = bx * (iw as u64) / (2 * (cw as u64));
    let sy: u64 = by * (ih as u64) / (4 * (ch as u64));
    if sx < iw as u64 && sy < ih as u64 {
        assert((sy as int) * (iw as int) + (sx as int) < 0xFFFF_FFFF * 0xFFFF_FFFF) by (nonlinear_arith)
            requires
                sy < ih,
                sx < iw,
                ih <= 0xFFFF_FFFF,
                iw <= 0xFFFF_FFFF,
        ;
        let idx: u64 = sy * (iw as u64) + sx;
        if idx < gray.len() as u64 {
            let g = gray[idx as usize];
            let b = if invert { 255 - g } else { g };
            return b >= threshold;
        }
    }
    false
}

fn cell_char(
    gray: &[u8],
    iw: u32,
    ih: u32,
    cw: u16,
    ch: u16,
    threshold: u8,
    invert: bool,
    cx: u16,
    cy: u16,
) -> (c: char)
    requires
        cx < cw,
        cy < ch,
    ensures
        c as u32 == braille_cell(gray@, iw as int, ih as int, cw as int, ch as int, threshold, invert, cx as int, cy as int),
{
    let bx = (cx as u64) * 2;
    let by = (cy as u64) * 4;
    let grid: [[bool; 4]; 2] = [
        [
            dot(gray, iw, ih, cw, ch, threshold, invert, bx, by),
            dot(gray, iw, ih, cw, ch, threshold, invert, bx, by + 1),
            dot(gray, iw, ih, cw, ch, threshold, invert, bx, by + 2),
            dot(gray, iw, ih, cw, ch, threshold, invert, bx, by + 3),
        ],
        [
            dot(gray, iw, ih, cw, ch, threshold, invert, bx + 1, by),
            dot(gray, iw, ih, cw, ch, threshold, invert, bx + 1, by + 1),
            dot(gray, iw, ih, cw, ch, threshold, invert, bx + 1, by + 2),
            dot(gray, iw, ih, cw, ch, threshold, invert, bx + 1, by + 3),
        ],
    ];
    grid_to_braille(grid)
}

/// Render a grayscale image as braille characters on a `char_width` x
/// `char_height` grid; each character samples a 2x4 block of sub-pixels.
pub fn render(
    gray: &[u8],
    img_width: u32,
    img_height: u32,
    char_width: u16,
    char_height: u16,
    threshold: u8,
    invert: bool,
) -> (r: Vec<char>)
    ensures
        r@.map_values(|c: char| c as int) == spec_render(
            gray@,
            img_width as int,
            img_height as int,
            char_width as int,
            char_height as int,
            threshold,
            invert,
        ),
{
    let mut out: Vec<char> = Vec::new();
    render_into(gray, img_width, img_height, char_width, char_height, threshold, invert, &mut out);
    out
}

/// `render` into a reused buffer; returns the number of characters written.
pub fn render_into(
    gray: &[u8],
    img_width: u32,
    img_height: u32,
    char_width: u16,
    char_height: u16,
    threshold: u8,
    invert: bool,
    buffer: &mut Vec<char>,
) -> (n: usize)
    ensures
        final(buffer)@.map_values(|c: char| c as int) == spec_render(
            gray@,
            img_width as int,
            img_height as int,
            char_width as int,
            char_height as int,
            threshold,
            invert,
        ),
        n == final(buffer)@.len(),
{
    buffer.clear();
    if char_width == 0 || char_height == 0 || img_width == 0 || img_height == 0 || gray.len() == 0 {
        assert(buffer@.map_values(|c: char| c as int) =~= Seq::<int>::empty());
        return 0;
    }
    let ghost cwi = char_width as int;
    let ghost spec = spec_render(
        gray@,
        img_width as int,
        img_height as int,
        char_width as int,
        char_height as int,
        threshold,
        invert,
    );
    let mut cy: u16 = 0;
    while cy < char_height
        invariant
            char_width > 0,
            cwi == char_width,
            cy <= char_height,
            buffer@.len() == cy * cwi,
            forall|i: int|
                0 <= i < cy * cwi ==> #[trigger] buffer@[i] as int == braille_cell(
                    gray@,
                    img_width as int,
                    img_height as int,
                    cwi,
                    char_height as int,
                    threshold,
                    invert,
                    i % cwi,
                    i / cwi,
                ),
        decreases char_height - cy,
    {
        let mut cx: u16 = 0;
        while cx < char_width
            invariant
                char_width > 0,
                cwi == char_width,
                cy < char_height,
                cx <= char_width,
                buffer@.len() == cy * cwi + cx,
                forall|i: int|
                    0 <= i < cy * cwi + cx ==> #[trigger] buffer@[i] as int == braille_cell(
                        gray@,
                        img_width as int,
                        img_height as int,
                        cwi,
                        char_height as int,
                        threshold,
                        invert,
                        i % cwi,
                        i / cwi,
                    ),
            decreases char_width - cx,
        {
            let c = cell_char(gray, img_width, img_height, char_width, char_height, threshold, invert, cx, cy);
            proof {
                vstd::arithmetic::div_mod::lemma_fundamental_div_mod_converse(
                    cy * cwi + cx,
                    cwi,
                    cy as int,
                    cx as int,
                );
            }
            buffer.push(c);
            cx = cx + 1;
        }
        assert(cy * cwi + cwi == (cy + 1) * cwi) by (nonlinear_arith);
        cy = cy + 1;
    }
    assert(cwi * (char_height as int) == (char_height as int) * cwi) by (nonlinear_arith);
    assert(buffer@.map_values(|c: char| c as int) =~= spec);
    buffer.len()
}

} // verus!
