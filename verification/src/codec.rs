//! The trusted boundary around the outside image libraries.
//!
//! Decoding and resampling are deterministic functions of their byte
//! input, so their results are named (`decoded_rgba`, `resized_rgba`) and
//! each wrapper's contract ties what it returns to that name.  The AVIF
//! encoder's byte output is not named: the underlying encoder picks its
//! tile layout from the machine's thread count, so equal inputs need not
//! give equal bytes on different machines.  Its wrapper states only what
//! holds of every outcome.

use vstd::prelude::*;

use crate::pixel::Pixel;

verus! {

/// What decoding `data` and forcing the grid into packed RGBA form
/// yields: the pixel grid's width, height and raw bytes (four per pixel,
/// row-major), or the decoder's diagnostic text when `data` is not a
/// parsable image.  Decoding is a function of the bytes alone.
pub uninterp spec fn decoded_rgba(data: Seq<u8>) -> Result<(u32, u32, Seq<u8>), Seq<char>>;

/// What decoding `data`, resampling to the given target (fill-and-crop
/// when `crop` is set, fit otherwise, Lanczos3 filter in either case) and
/// forcing into packed RGBA form yields; the error case is the decoder's
/// diagnostic text, as in `decoded_rgba`.  Resampling is a function of
/// these arguments alone.
pub uninterp spec fn resized_rgba(
    data: Seq<u8>,
    target_width: u32,
    target_height: u32,
    crop: bool,
) -> Result<(u32, u32, Seq<u8>), Seq<char>>;

/// The byte sequence opens like an AVIF container: an ISO-BMFF `ftyp`
/// box whose major brand is `avif`.
pub open spec fn avif_signature_ok(out: Seq<u8>) -> bool {
    &&& out.len() >= 12
    &&& out.subrange(4, 8) == seq![0x66u8, 0x74u8, 0x79u8, 0x70u8]
    &&& out.subrange(8, 12) == seq![0x61u8, 0x76u8, 0x69u8, 0x66u8]
}

/// The four big-endian bytes of `x`.
pub open spec fn be_bytes(x: u32) -> Seq<u8> {
    seq![
        ((x >> 24) & 0xff) as u8,
        ((x >> 16) & 0xff) as u8,
        ((x >> 8) & 0xff) as u8,
        (x & 0xff) as u8,
    ]
}

/// The byte stream holds an `ispe` (image spatial extents) box that
/// declares exactly this width and height: the box's fourcc, then four
/// version-and-flags bytes, then each dimension in big-endian order.
pub open spec fn has_ispe_with(out: Seq<u8>, width: u32, height: u32) -> bool {
    exists|i: int|
        0 <= i && i + 16 <= out.len()
        && #[trigger] out.subrange(i, i + 4) == seq![0x69u8, 0x73u8, 0x70u8, 0x65u8]
        && out.subrange(i + 8, i + 12) == be_bytes(width)
        && out.subrange(i + 12, i + 16) == be_bytes(height)
}

/// The message is tagged as an AVIF-stage failure: it starts with
/// `AVIF Error: `.
pub open spec fn encode_tagged(m: Seq<char>) -> bool {
    m.len() >= 12 && m.subrange(0, 12) == "AVIF Error: "@
}

/// The output dimensions keep the source aspect ratio to within the
/// resampler's rounding: each is computed by scaling a source dimension,
/// rounding to the nearest integer (at most half a pixel each way) and
/// clamping to a minimum of one, so the cross products differ by no more
/// than the larger source dimension.
pub open spec fn aspect_within_rounding(out_w: u32, out_h: u32, src_w: u32, src_h: u32) -> bool {
    &&& (out_w as nat) * (src_h as nat) <= (out_h as nat) * (src_w as nat)
        + (if src_w >= src_h { src_w as nat } else { src_h as nat })
    &&& (out_h as nat) * (src_w as nat) <= (out_w as nat) * (src_h as nat)
        + (if src_w >= src_h { src_w as nat } else { src_h as nat })
}

/// The fill-and-crop resampler meets the target exactly only while no
/// intermediate dimension has to be clamped at `u32::MAX`; this is the
/// (slightly conservative) bound under which none is.
pub open spec fn fill_within_bounds(
    src_width: u32,
    src_height: u32,
    target_width: u32,
    target_height: u32,
) -> bool {
    &&& (src_width as nat) * (target_height as nat) <= 0xffff_fffe * (src_height as nat)
    &&& (src_height as nat) * (target_width as nat) <= 0xffff_fffe * (src_width as nat)
}

/// Relies on `image::load_from_memory` (format is sniffed from the
/// bytes) and `image::DynamicImage::to_rgba8`: a successful decode yields
/// a `width x height` grid of four-byte RGBA pixels, row-major; a failed
/// one yields the decoder's diagnostic text (`ImageError::to_string`).
#[verifier::external_body]
pub(crate) fn decode_rgba_bytes(data: &[u8]) -> (r: Result<(u32, u32, Vec<u8>), String>)
    ensures
        r is Ok <==> decoded_rgba(data@) is Ok,
        r matches Ok(t) ==> (decoded_rgba(data@) matches Ok(d) && d == (t.0, t.1, t.2@)),
        r matches Ok(t) ==> t.2@.len() == 4 * ((t.0 as nat) * (t.1 as nat)),
        r matches Err(m) ==> (decoded_rgba(data@) matches Err(dm) && dm == m@),
{
    match image::load_from_memory(data) {
        Ok(img) => {
            let rgba = img.to_rgba8();
            let w = rgba.width();
            let h = rgba.height();
            Ok((w, h, rgba.into_raw()))
        },
        Err(e) => Err(e.to_string()),
    }
}

/// Relies on `image::load_from_memory`, `image::DynamicImage::resize_to_fill`
/// (when `crop` is set) or `resize` (otherwise), both with
/// `FilterType::Lanczos3`, and `to_rgba8`.  The decode stage is the same
/// call as in `decode_rgba_bytes`, and resampling a decoded image never
/// fails, so success and diagnostic text agree with `decoded_rgba`.  The
/// dimension clauses restate `image`'s `resize_dimensions` arithmetic:
/// fill-and-crop returns exactly the target while nothing clamps at
/// `u32::MAX`; fit stays within the target, meets it in at least one
/// dimension, and keeps the source aspect ratio to within the rounding
/// of `resize_dimensions` (round to nearest, then at least one).  The
/// target caps keep the resampler's intermediate buffer sizes within
/// `usize`.
#[verifier::external_body]
pub(crate) fn resize_rgba_bytes(
    data: &[u8],
    target_width: u32,
    target_height: u32,
    crop: bool,
) -> (r: Result<(u32, u32, Vec<u8>), String>)
    requires
        target_width <= 0xffff,
        target_height <= 0xffff,
    ensures
        r is Ok <==> resized_rgba(data@, target_width, target_height, crop) is Ok,
        r is Ok <==> decoded_rgba(data@) is Ok,
        r matches Ok(t) ==> (resized_rgba(data@, target_width, target_height, crop)
            matches Ok(d) && d == (t.0, t.1, t.2@)),
        r matches Ok(t) ==> t.2@.len() == 4 * ((t.0 as nat) * (t.1 as nat)),
        r matches Err(m) ==> (resized_rgba(data@, target_width, target_height, crop)
            matches Err(em) && em == m@),
        r matches Err(m) ==> (decoded_rgba(data@) matches Err(dm) && dm == m@),
        r matches Ok(t) ==> ((decoded_rgba(data@) matches Ok(s)
            && crop && 1 <= target_width && 1 <= target_height && 1 <= s.0 && 1 <= s.1
            && fill_within_bounds(s.0, s.1, target_width, target_height))
            ==> t.0 == target_width && t.1 == target_height),
        r matches Ok(t) ==> (decoded_rgba(data@) matches Ok(s)
            ==> ((!crop && 1 <= target_width && 1 <= target_height && 1 <= s.0 && 1 <= s.1)
                ==> t.0 <= target_width && t.1 <= target_height
                    && (t.0 == target_width || t.1 == target_height)
                    && aspect_within_rounding(t.0, t.1, s.0, s.1))),
{
    match image::load_from_memory(data) {
        Ok(img) => {
            let resized = if crop {
                img.resize_to_fill(target_width, target_height, image::imageops::FilterType::Lanczos3)
            } else {
                img.resize(target_width, target_height, image::imageops::FilterType::Lanczos3)
            };
            let rgba = resized.to_rgba8();
            let w = rgba.width();
            let h = rgba.height();
            Ok((w, h, rgba.into_raw()))
        },
        Err(e) => Err(e.to_string()),
    }
}

/// Relies on `ravif::Encoder`: `with_quality` and `with_speed` accept
/// exactly the ranges required here (they assert them), and
/// `encode_rgba` over an `imgref::Img` of `width * height` pixels
/// returns a complete AVIF file — `avif_serialize` opens it with an
/// `ftyp` box of major brand `avif` and records the given width and
/// height in an `ispe` box — or an encoder error, formatted here with
/// the AVIF-stage tag.  `imgref::Img::new` requires a nonzero
/// width and a buffer of at least `width * height` pixels.
#[verifier::external_body]
pub(crate) fn encode_avif_bytes(
    pixels: &Vec<Pixel>,
    width: u32,
    height: u32,
    quality: u8,
    speed: u8,
) -> (r: Result<Vec<u8>, String>)
    requires
        1 <= quality <= 100,
        1 <= speed <= 10,
        1 <= width,
        1 <= height,
        pixels@.len() == (width as nat) * (height as nat),
    ensures
        r matches Ok(v) ==> avif_signature_ok(v@),
        r matches Ok(v) ==> has_ispe_with(v@, width, height),
        r matches Err(m) ==> encode_tagged(m@),
{
    let buf: Vec<rgb::RGBA8> =
        pixels.iter().map(|p| rgb::RGBA8 { r: p.r, g: p.g, b: p.b, a: p.a }).collect();
    let img = ravif::Img::new(buf.as_slice(), width as usize, height as usize);
    let res = ravif::Encoder::new()
        .with_quality(quality.into())
        .with_speed(speed)
        .encode_rgba(img);
    match res {
        Ok(enc) => Ok(enc.avif_file),
        Err(e) => Err(format!("AVIF Error: {:?}", e)),
    }
}

} // verus!
