use vstd::prelude::*;
use crate::camera::Frame;

verus! {

/// ITU-R BT.601 luminance of one RGB pixel in integer arithmetic:
/// `(299 r + 587 g + 114 b) / 1000`.
pub open spec fn luminance(r: u8, g: u8, b: u8) -> int {
    (299 * r + 587 * g + 114 * b) / 1000
}

/// Luminance of every complete RGB triple of `data`; a trailing partial
/// triple is ignored.
pub open spec fn spec_grayscale(data: Seq<u8>) -> Seq<u8> {
    Seq::new(
        data.len() / 3,
        |i: int| luminance(data[3 * i], data[3 * i + 1], data[3 * i + 2]) as u8,
    )
}

/// The luminance of a pixel lies between its darkest and brightest channel;
/// a gray pixel keeps its value.
pub proof fn luminance_is_a_weighted_mean(r: u8, g: u8, b: u8)
    ensures
        luminance(r, g, b) <= 255,
        0 <= luminance(r, g, b),
        r <= g && r <= b ==> r <= luminance(r, g, b),
        r >= g && r >= b ==> luminance(r, g, b) <= r,
        luminance(r, r, r) == r,
{
}

/// Every pixel of the grayscale image is the BT.601 luminance of its RGB
/// triple, rounded down: `1000 y <= 299 r + 587 g + 114 b < 1000 (y + 1)`.
pub proof fn grayscale_is_bt601_luminance(data: Seq<u8>, i: int)
    requires
        0 <= i < data.len() / 3,
    ensures
        spec_grayscale(data).len() == data.len() / 3,
        1000 * spec_grayscale(data)[i] <= 299 * data[3 * i] + 587 * data[3 * i + 1] + 114 * data[3 * i + 2],
        299 * data[3 * i] + 587 * data[3 * i + 1] + 114 * data[3 * i + 2] < 1000 * (spec_grayscale(data)[i] + 1),
{
    assert(3 * i + 2 < data.len());
    luminance_is_a_weighted_mean(data[3 * i], data[3 * i + 1], data[3 * i + 2]);
}

/// Green weighs most in luminance, then red, then blue: a channel alone at
/// value `v` gives a brighter gray for green than for red, and for red than
/// for blue (strictly so from `v = 4` on).
pub proof fn green_outweighs_red_outweighs_blue(v: u8)
    ensures
        luminance(0, 0, v) <= luminance(v, 0, 0) <= luminance(0, v, 0),
        v >= 4 ==> luminance(0, 0, v) < luminance(v, 0, 0) < luminance(0, v, 0),
        luminance(0, 255, 0) == 149,
        luminance(255, 0, 0) == 76,
        luminance(0, 0, 255) == 29,
{
}

fn pixel_luminance(r: u8, g: u8, b: u8) -> (y: u8)
    ensures
        y == luminance(r, g, b),
{
    let v = (299 * (r as u32) + 587 * (g as u32) + 114 * (b as u32)) / 1000;
    v as u8
}

/// Convert an RGB frame to grayscale (one byte per pixel).
pub fn to_grayscale(frame: &Frame) -> (r: Vec<u8>)
    requires
        frame.width * frame.height <= u32::MAX,
    ensures
        r@ == spec_grayscale(frame.data@),
{
    let mut out: Vec<u8> = Vec::new();
    to_grayscale_into(frame, &mut out);
    out
}

/// Convert an RGB frame to grayscale into a reused buffer; returns the
/// number of pixels written (one per complete RGB triple of the data).
pub fn to_grayscale_into(frame: &Frame, buffer: &mut Vec<u8>) -> (n: usize)
    requires
        frame.width * frame.height <= u32::MAX,
    ensures
        final(buffer)@ == spec_grayscale(frame.data@),
        n == final(buffer)@.len(),
        n == frame.data@.len() / 3,
{
    buffer.clear();
    let data = &frame.data;
    let len = data.len();
    let m = len / 3;
    let mut i: usize = 0;
    while i < m
        invariant
            len == data@.len(),
            m == len / 3,
            i <= m,
            buffer@ =~= spec_grayscale(data@).take(i as int),
        decreases m - i,
    {
        assert(3 * i + 2 < data@.len());
        let y = pixel_luminance(data[3 * i], data[3 * i + 1], data[3 * i + 2]);
        buffer.push(y);
        i = i + 1;
        assert(buffer@ =~= spec_grayscale(data@).take(i as int));
    }
    assert(spec_grayscale(data@).take(m as int) =~= spec_grayscale(data@));
    m
}

} // verus!
