use vstd::prelude::*;
use crate::ascii::mapping::{gamma_correct, spec_gamma, oriented, level_of, lemma_level_in_range};

verus! {

/// Integer division rounding toward zero, as the machine computes it.
pub open spec fn tdiv(a: int, b: int) -> int {
    if a >= 0 {
        a / b
    } else {
        -((-a) / b)
    }
}

/// Brightness after optional inversion and optional gamma correction.
pub open spec fn prepared(b: u8, invert: bool, use_gamma: bool) -> u8 {
    if use_gamma { spec_gamma(oriented(b, invert)) } else { oriented(b, invert) }
}

pub open spec fn clamp_byte(v: int) -> int {
    if v < 0 { 0 } else if v > 255 { 255 } else { v }
}

/// 4x4 Bayer threshold matrix, normalised to 0..255.
pub open spec fn bayer(y: int, x: int) -> int {
    let row: Seq<int> = if y == 0 {
        seq![0, 128, 32, 160]
    } else if y == 1 {
        seq![192, 64, 224, 96]
    } else if y == 2 {
        seq![48, 176, 16, 144]
    } else {
        seq![240, 112, 208, 80]
    };
    row[x]
}

/// The ramp length read as a 16-bit signed number (wrapping), as the
/// threshold spread is computed in 16-bit arithmetic.
pub open spec fn levels_as_i16(levels: int) -> int {
    let m = levels % 65536;
    if m < 32768 { m } else { m - 65536 }
}

/// Threshold spread per ramp level.
pub open spec fn spread(levels: int) -> int {
    let l = levels_as_i16(levels);
    if l > 0 { 255int / l } else { -(255int / (-l)) }
}

/// Character chosen by ordered dithering for the cell at position `i` of a
/// grid `width` cells wide.
pub open spec fn ordered_char(
    i: int,
    b: u8,
    width: int,
    charset: Seq<char>,
    invert: bool,
    use_gamma: bool,
) -> char {
    let v = prepared(b, invert, use_gamma) as int;
    let t = bayer((i / width) % 4, (i % width) % 4);
    let adjusted = clamp_byte(v + tdiv((t - 128) * spread(charset.len() as int), 256));
    charset[level_of(adjusted, charset.len() as int)]
}

pub open spec fn spec_ordered_dither(
    brightness: Seq<u8>,
    width: int,
    charset: Seq<char>,
    invert: bool,
    use_gamma: bool,
) -> Seq<char> {
    if charset.len() == 0 || width == 0 {
        Seq::new(brightness.len(), |i: int| ' ')
    } else {
        Seq::new(
            brightness.len(),
            |i: int| ordered_char(i, brightness[i], width, charset, invert, use_gamma),
        )
    }
}

fn bayer_at(y: usize, x: usize) -> (t: i16)
    requires
        y < 4,
        x < 4,
    ensures
        t == bayer(y as int, x as int),
{
    let row: [i16; 4] = if y == 0 {
        [0, 128, 32, 160]
    } else if y == 1 {
        [192, 64, 224, 96]
    } else if y == 2 {
        [48, 176, 16, 144]
    } else {
        [240, 112, 208, 80]
    };
    let t = row[x];
    proof {
        if y == 0 {
            assert(row@ =~= seq![0i16, 128, 32, 160]);
        } else if y == 1 {
            assert(row@ =~= seq![192i16, 64, 224, 96]);
        } else if y == 2 {
            assert(row@ =~= seq![48i16, 176, 16, 144]);
        } else {
            assert(row@ =~= seq![240i16, 112, 208, 80]);
        }
    }
    t
}

pub(crate) fn prepare(b: u8, invert: bool, use_gamma: bool) -> (r: u8)
    ensures
        r == prepared(b, invert, use_gamma),
{
    let b = if invert { 255 - b } else { b };
    if use_gamma { gamma_correct(b) } else { b }
}

/// Map brightness values to characters with ordered (Bayer 4x4) dithering on a
/// grid `width` cells wide.
pub fn map_to_chars_ordered_dither(
    brightness: &[u8],
    width: u16,
    charset: &[char],
    invert: bool,
    use_gamma: bool,
) -> (r: Vec<char>)
    requires
        charset@.len() == 0 || width == 0 || charset@.len() % 65536 != 0,
    ensures
        r@ == spec_ordered_dither(brightness@, width as int, charset@, invert, use_gamma),
{
    let n = brightness.len();
    let mut out: Vec<char> = Vec::new();
    if charset.len() == 0 || width == 0 {
        let mut i: usize = 0;
        while i < n
            invariant
                i <= n,
                out@ =~= Seq::new(i as nat, |j: int| ' '),
            decreases n - i,
        {
            out.push(' ');
            i = i + 1;
        }
        return out;
    }
    let w = width as usize;
    let levels = charset.len();
    let m = (levels % 65536) as i32;
    let li: i16 = if m < 32768 { m as i16 } else { (m - 65536) as i16 };
    assert(li != 0);
    let li32 = li as i32;
    let spread32: i32 = if li32 > 0 { 255 / li32 } else { -(255 / (-li32)) };
    let spread_v: i16 = spread32 as i16;
    let mut i: usize = 0;
    while i < n
        invariant
            n == brightness@.len(),
            i <= n,
            w == width,
            w > 0,
            levels == charset@.len(),
            levels > 0,
            spread_v == spread(levels as int),
            -255 <= spread_v <= 255,
            out@ =~= Seq::new(
                i as nat,
                |j: int| ordered_char(j, brightness@[j], w as int, charset@, invert, use_gamma),
            ),
        decreases n - i,
    {
        let v = prepare(brightness[i], invert, use_gamma);
        let x = i % w;
        let y = i / w;
        let t = bayer_at(y % 4, x % 4);
        assert(-128 <= t - 128 <= 127);
        assert(-32640 <= (t - 128) * spread_v <= 32640) by (nonlinear_arith)
            requires
                -128 <= t - 128 <= 127,
                -255 <= spread_v <= 255,
        ;
        let prod: i16 = (t - 128) * spread_v;
        let q: i16 = if prod >= 0 { prod / 256 } else { -((-prod) / 256) };
        let adjusted: i16 = (v as i16) + q;
        let clamped: i16 = if adjusted < 0 { 0 } else if adjusted > 255 { 255 } else { adjusted };
        proof {
            lemma_level_in_range(clamped as int, levels as int);
        }
        assert((clamped as int) * (levels - 1) <= 255 * (u64::MAX as int)) by (nonlinear_arith)
            requires
                0 <= clamped <= 255,
                levels - 1 <= u64::MAX,
        ;
        let idx = ((clamped as u128) * ((levels - 1) as u128) / 255) as usize;
        out.push(charset[idx]);
        i = i + 1;
    }
    out
}

/// Ordered dithering with inversion renders each brightness `b` as ordered
/// dithering without inversion renders `255 - b`: inversion only flips the
/// brightness scale before the thresholds are applied.
pub proof fn ordered_dither_inverts_brightness(
    brightness: Seq<u8>,
    width: int,
    charset: Seq<char>,
    use_gamma: bool,
)
    ensures
        spec_ordered_dither(brightness, width, charset, true, use_gamma) == spec_ordered_dither(
            brightness.map_values(|b: u8| (255 - b) as u8),
            width,
            charset,
            false,
            use_gamma,
        ),
{
    let flipped = brightness.map_values(|b: u8| (255 - b) as u8);
    assert(spec_ordered_dither(brightness, width, charset, true, use_gamma) =~= spec_ordered_dither(
        flipped,
        width,
        charset,
        false,
        use_gamma,
    ));
}

} // verus!
