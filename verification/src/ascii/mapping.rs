use vstd::prelude::*;

verus! {

/// Gamma correction table: `(i / 255)^(1 / 2.2) * 255`, rounded to the
/// nearest integer (halves away from zero), for every linear brightness `i`.
pub const GAMMA_LUT: [u8; 256] = [
    0, 21, 28, 34, 39, 43, 46, 50, 53, 56, 59, 61, 64, 66, 68, 70,
    72, 74, 76, 78, 80, 82, 84, 85, 87, 89, 90, 92, 93, 95, 96, 98,
    99, 101, 102, 103, 105, 106, 107, 109, 110, 111, 112, 114, 115, 116, 117, 118,
    119, 120, 122, 123, 124, 125, 126, 127, 128, 129, 130, 131, 132, 133, 134, 135,
    136, 137, 138, 139, 140, 141, 142, 143, 144, 144, 145, 146, 147, 148, 149, 150,
    151, 151, 152, 153, 154, 155, 156, 156, 157, 158, 159, 160, 160, 161, 162, 163,
    164, 164, 165, 166, 167, 167, 168, 169, 170, 170, 171, 172, 173, 173, 174, 175,
    175, 176, 177, 178, 178, 179, 180, 180, 181, 182, 182, 183, 184, 184, 185, 186,
    186, 187, 188, 188, 189, 190, 190, 191, 192, 192, 193, 194, 194, 195, 195, 196,
    197, 197, 198, 199, 199, 200, 200, 201, 202, 202, 203, 203, 204, 205, 205, 206,
    206, 207, 207, 208, 209, 209, 210, 210, 211, 212, 212, 213, 213, 214, 214, 215,
    215, 216, 217, 217, 218, 218, 219, 219, 220, 220, 221, 221, 222, 223, 223, 224,
    224, 225, 225, 226, 226, 227, 227, 228, 228, 229, 229, 230, 230, 231, 231, 232,
    232, 233, 233, 234, 234, 235, 235, 236, 236, 237, 237, 238, 238, 239, 239, 240,
    240, 241, 241, 242, 242, 243, 243, 244, 244, 245, 245, 246, 246, 247, 247, 248,
    248, 249, 249, 249, 250, 250, 251, 251, 252, 252, 253, 253, 254, 254, 255, 255,
];

/// Perceptually corrected brightness of a linear brightness.
pub open spec fn spec_gamma(b: u8) -> u8 {
    GAMMA_LUT@[b as int]
}

pub fn gamma_correct(linear: u8) -> (r: u8)
    ensures
        r == spec_gamma(linear),
{
    GAMMA_LUT[linear as usize]
}

/// Gamma correction keeps black and white fixed and never darkens a brighter input.
pub proof fn gamma_is_monotone(a: u8, b: u8)
    requires
        a <= b,
    ensures
        spec_gamma(a) <= spec_gamma(b),
        spec_gamma(0) == 0,
        spec_gamma(255) == 255,
{
    assert forall|i: int| 0 <= i < 255 implies #[trigger] GAMMA_LUT@[i] <= GAMMA_LUT@[i + 1] by {}
    lemma_sorted_table(a as int, b as int);
}

proof fn lemma_sorted_table(a: int, b: int)
    requires
        0 <= a <= b <= 255,
        forall|i: int| 0 <= i < 255 ==> #[trigger] GAMMA_LUT@[i] <= GAMMA_LUT@[i + 1],
    ensures
        GAMMA_LUT@[a] <= GAMMA_LUT@[b],
    decreases b - a,
{
    if a < b {
        lemma_sorted_table(a, b - 1);
        assert(GAMMA_LUT@[b - 1] <= GAMMA_LUT@[b]);
    }
}

/// Brightness after optional inversion (for light terminals).
pub open spec fn oriented(b: u8, invert: bool) -> u8 {
    if invert { (255 - b) as u8 } else { b }
}

/// Ramp position of a brightness on a ramp of `levels` characters:
/// brightness 0 maps to the first character, 255 to the last.
pub open spec fn level_of(b: int, levels: int) -> int {
    b * (levels - 1) / 255
}

/// Ramp position of the character for a brightness on a ramp of `levels`
/// characters: the brightness scaled to `0..=levels - 1` and rounded up, so
/// that 0 maps to the first character, 255 to the last, and the midpoint
/// 127 of the standard ramp to `'+'`.
pub open spec fn char_level(b: int, levels: int) -> int {
    (b * (levels - 1) + 254) / 255
}

/// The character that a brightness maps to; an empty ramp renders spaces.
pub open spec fn char_for(b: u8, charset: Seq<char>) -> char {
    if charset.len() == 0 {
        ' '
    } else {
        charset[char_level(b as int, charset.len() as int)]
    }
}

pub proof fn lemma_char_level_in_range(b: int, levels: int)
    requires
        0 <= b <= 255,
        1 <= levels,
    ensures
        0 <= char_level(b, levels) < levels,
{
    assert(0 <= b * (levels - 1) <= 255 * (levels - 1)) by (nonlinear_arith)
        requires
            0 <= b <= 255,
            1 <= levels,
    ;
    assert((b * (levels - 1) + 254) / 255 <= levels - 1) by (nonlinear_arith)
        requires
            0 <= b * (levels - 1) <= 255 * (levels - 1),
    ;
}

/// Plain brightness-to-character mapping of a whole grid.
pub open spec fn spec_map_to_chars(brightness: Seq<u8>, charset: Seq<char>, invert: bool) -> Seq<char> {
    Seq::new(brightness.len(), |i: int| char_for(oriented(brightness[i], invert), charset))
}

/// Gamma-corrected brightness-to-character mapping of a whole grid.
pub open spec fn spec_map_to_chars_gamma(brightness: Seq<u8>, charset: Seq<char>, invert: bool) -> Seq<char> {
    Seq::new(
        brightness.len(),
        |i: int| char_for(spec_gamma(oriented(brightness[i], invert)), charset),
    )
}

pub proof fn lemma_level_in_range(b: int, levels: int)
    requires
        0 <= b <= 255,
        1 <= levels,
    ensures
        0 <= level_of(b, levels) < levels,
{
    assert(0 <= b * (levels - 1) <= 255 * (levels - 1)) by (nonlinear_arith)
        requires
            0 <= b <= 255,
            1 <= levels,
    ;
    assert(b * (levels - 1) / 255 <= levels - 1) by (nonlinear_arith)
        requires
            0 <= b * (levels - 1) <= 255 * (levels - 1),
    ;
}

/// Brighter input never maps to an earlier (darker) character of the ramp.
pub proof fn level_is_monotone(b1: int, b2: int, levels: int)
    requires
        0 <= b1 <= b2 <= 255,
        1 <= levels,
    ensures
        char_level(b1, levels) <= char_level(b2, levels),
{
    assert(b1 * (levels - 1) <= b2 * (levels - 1)) by (nonlinear_arith)
        requires
            0 <= b1 <= b2,
            1 <= levels,
    ;
    assert((b1 * (levels - 1) + 254) / 255 <= (b2 * (levels - 1) + 254) / 255) by (nonlinear_arith)
        requires
            b1 * (levels - 1) <= b2 * (levels - 1),
    ;
}

/// Black maps to the first character of the ramp and white to the last.
pub proof fn extremes_map_to_ramp_ends(charset: Seq<char>)
    requires
        charset.len() >= 1,
    ensures
        char_for(0, charset) == charset[0],
        char_for(255, charset) == charset[charset.len() - 1],
{
    let l = charset.len() as int;
    assert((255 * (l - 1) + 254) / 255 == l - 1) by (nonlinear_arith)
        requires
            l >= 1,
    ;
}

/// Inverting maps each brightness as its complement would map without inversion.
pub proof fn invert_maps_complement(brightness: Seq<u8>, charset: Seq<char>)
    ensures
        spec_map_to_chars(brightness, charset, true) == spec_map_to_chars(
            brightness.map_values(|b: u8| (255 - b) as u8),
            charset,
            false,
        ),
{
    assert(spec_map_to_chars(brightness, charset, true) =~= spec_map_to_chars(
        brightness.map_values(|b: u8| (255 - b) as u8),
        charset,
        false,
    ));
}

fn map_one(b: u8, charset: &[char], invert: bool) -> (c: char)
    requires
        charset@.len() >= 1,
    ensures
        c == char_for(oriented(b, invert), charset@),
{
    let b = if invert { 255 - b } else { b };
    proof {
        lemma_char_level_in_range(b as int, charset@.len() as int);
    }
    let levels = charset.len();
    assert((b as int) * (levels - 1) + 254 <= 255 * (u64::MAX as int) + 254) by (nonlinear_arith)
        requires
            b <= 255,
            levels - 1 <= u64::MAX,
    ;
    let idx = (((b as u128) * ((levels - 1) as u128) + 254) / 255) as usize;
    charset[idx]
}

/// Map brightness values (one per cell) to characters of `charset`, ordered
/// from darkest to brightest; `invert` flips brightness first.
pub fn map_to_chars(brightness: &[u8], charset: &[char], invert: bool) -> (r: Vec<char>)
    ensures
        r@ == spec_map_to_chars(brightness@, charset@, invert),
{
    let mut out: Vec<char> = Vec::new();
    map_to_chars_into(brightness, charset, invert, &mut out);
    out
}

/// `map_to_chars` into a reused buffer; returns the number of characters written.
pub fn map_to_chars_into(brightness: &[u8], charset: &[char], invert: bool, buffer: &mut Vec<char>) -> (n: usize)
    ensures
        final(buffer)@ == spec_map_to_chars(brightness@, charset@, invert),
        n == brightness@.len(),
{
    buffer.clear();
    let n = brightness.len();
    let mut i: usize = 0;
    while i < n
        invariant
            n == brightness@.len(),
            i <= n,
            buffer@ =~= spec_map_to_chars(brightness@.take(i as int), charset@, invert),
        decreases n - i,
    {
        let c = if charset.len() == 0 {
            ' '
        } else {
            map_one(brightness[i], charset, invert)
        };
        buffer.push(c);
        i = i + 1;
        assert(buffer@ =~= spec_map_to_chars(brightness@.take(i as int), charset@, invert));
    }
    assert(brightness@.take(n as int) =~= brightness@);
    n
}

/// Map brightness values to characters after gamma correction.
pub fn map_to_chars_gamma(brightness: &[u8], charset: &[char], invert: bool) -> (r: Vec<char>)
    ensures
        r@ == spec_map_to_chars_gamma(brightness@, charset@, invert),
{
    let mut out: Vec<char> = Vec::new();
    map_to_chars_gamma_into(brightness, charset, invert, &mut out);
    out
}

/// `map_to_chars_gamma` into a reused buffer; returns the number of characters written.
pub fn map_to_chars_gamma_into(
    brightness: &[u8],
    charset: &[char],
    invert: bool,
    buffer: &mut Vec<char>,
) -> (n: usize)
    ensures
        final(buffer)@ == spec_map_to_chars_gamma(brightness@, charset@, invert),
        n == brightness@.len(),
{
    buffer.clear();
    let n = brightness.len();
    let mut i: usize = 0;
    while i < n
        invariant
            n == brightness@.len(),
            i <= n,
            buffer@ =~= spec_map_to_chars_gamma(brightness@.take(i as int), charset@, invert),
        decreases n - i,
    {
        let c = if charset.len() == 0 {
            ' '
        } else {
            let b = if invert { 255 - brightness[i] } else { brightness[i] };
            map_one(gamma_correct(b), charset, false)
        };
        buffer.push(c);
        i = i + 1;
        assert(buffer@ =~= spec_map_to_chars_gamma(brightness@.take(i as int), charset@, invert));
    }
    assert(brightness@.take(n as int) =~= brightness@);
    n
}

/// With gamma correction too, inverting maps each brightness as its
/// complement would map without inversion.
pub proof fn gamma_invert_maps_complement(brightness: Seq<u8>, charset: Seq<char>)
    ensures
        spec_map_to_chars_gamma(brightness, charset, true) == spec_map_to_chars_gamma(
            brightness.map_values(|b: u8| (255 - b) as u8),
            charset,
            false,
        ),
{
    assert(spec_map_to_chars_gamma(brightness, charset, true) =~= spec_map_to_chars_gamma(
        brightness.map_values(|b: u8| (255 - b) as u8),
        charset,
        false,
    ));
}

} // verus!
