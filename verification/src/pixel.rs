//! The pixel grid as the encoder sees it: a row-major sequence of
//! four-channel records, one per pixel, read off a packed RGBA byte buffer.

use vstd::prelude::*;

verus! {

/// One pixel in red, green, blue, alpha order, eight bits per channel.
#[derive(Clone, Copy, Debug, PartialEq, Eq, Structural)]
pub struct Pixel {
    pub r: u8,
    pub g: u8,
    pub b: u8,
    pub a: u8,
}

/// The pixel at index `i` of a packed RGBA byte buffer: its four channels
/// are the bytes `4*i .. 4*i + 4`, in source order.
pub open spec fn pixel_at(raw: Seq<u8>, i: int) -> Pixel {
    Pixel { r: raw[4 * i], g: raw[4 * i + 1], b: raw[4 * i + 2], a: raw[4 * i + 3] }
}

/// The whole buffer read as pixel records, row-major, order preserved.
pub open spec fn pixel_seq(raw: Seq<u8>) -> Seq<Pixel> {
    Seq::new(raw.len() / 4, |i: int| pixel_at(raw, i))
}

/// Flattens a packed RGBA byte buffer into pixel records, preserving the
/// source byte order exactly: no channel reordering, no premultiplication.
pub fn pixels_from_raw(raw: &Vec<u8>) -> (pixels: Vec<Pixel>)
    requires
        raw@.len() % 4 == 0,
    ensures
        pixels@ == pixel_seq(raw@),
        pixels@.len() == raw@.len() / 4,
{
    let len: usize = raw.len();
    let n: usize = len / 4;
    let mut pixels: Vec<Pixel> = Vec::new();
    let mut i: usize = 0;
    let mut off: usize = 0;
    while i < n
        invariant
            len == raw@.len(),
            n == raw@.len() / 4,
            raw@.len() % 4 == 0,
            i <= n,
            off == 4 * i,
            pixels@.len() == i,
            forall|j: int| 0 <= j < i ==> pixels@[j] == pixel_at(raw@, j),
        decreases n - i,
    {
        assert(off + 4 <= raw@.len()) by {
            assert(4 * (raw@.len() / 4) == raw@.len());
        }
        let p = Pixel { r: raw[off], g: raw[off + 1], b: raw[off + 2], a: raw[off + 3] };
        pixels.push(p);
        i = i + 1;
        off = off + 4;
    }
    assert(pixels@ =~= pixel_seq(raw@));
    pixels
}

} // verus!
