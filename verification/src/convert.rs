//! The two conversion pipelines: decode, optionally resample, flatten,
//! encode to AVIF; and the classification of their failures.

use vstd::prelude::*;
use vstd::string::StringExecFns;

use crate::codec::aspect_within_rounding;
use crate::codec::avif_signature_ok;
use crate::codec::decode_rgba_bytes;
use crate::codec::decoded_rgba;
use crate::codec::encode_avif_bytes;
use crate::codec::encode_tagged;
use crate::codec::fill_within_bounds;
use crate::codec::has_ispe_with;
use crate::codec::resize_rgba_bytes;
use crate::codec::resized_rgba;
use crate::pixel::pixels_from_raw;

verus! {

/// Why a conversion failed: the input bytes were not a parsable image
/// (with the decoder's diagnostic text), or the AVIF encoding stage
/// rejected the pixel grid or the parameters (with a message tagged
/// `AVIF Error: `).
#[derive(Debug)]
pub enum ConvertError {
    Decode(String),
    Encode(String),
}

/// The encoder accepts quality 1 to 100 and speed 1 to 10; anything
/// outside is rejected before it is handed over.
pub open spec fn params_in_range(quality: u8, speed: u8) -> bool {
    1 <= quality <= 100 && 1 <= speed <= 10
}

/// The message given when quality or speed lies outside the accepted range.
pub open spec fn params_message() -> Seq<char> {
    "AVIF Error: quality must be within 1 to 100 and speed within 1 to 10"@
}

/// The message given when the pixel grid handed to the encoder is empty.
pub open spec fn no_pixels_message() -> Seq<char> {
    "AVIF Error: image has no pixels"@
}

/// The message given when a resize target exceeds the supported maximum.
pub open spec fn target_message() -> Seq<char> {
    "AVIF Error: target dimensions exceed 65535"@
}

/// What `convert_to_avif` returns, stage by stage.  Undecodable bytes
/// give the decode error verbatim; then out-of-range parameters and an
/// empty grid are rejected with fixed messages; past that the encoder
/// decides, and every success opens like an AVIF container while every
/// failure carries the AVIF-stage tag.
pub open spec fn convert_to_avif_post(
    data: Seq<u8>,
    quality: u8,
    speed: u8,
    r: Result<Vec<u8>, ConvertError>,
) -> bool {
    match decoded_rgba(data) {
        Err(dm) => r matches Err(ConvertError::Decode(m)) && m@ == dm,
        Ok(d) => {
            if !params_in_range(quality, speed) {
                r matches Err(ConvertError::Encode(m)) && m@ == params_message()
            } else if d.0 == 0 || d.1 == 0 {
                r matches Err(ConvertError::Encode(m)) && m@ == no_pixels_message()
            } else {
                match r {
                    Ok(v) => avif_signature_ok(v@) && has_ispe_with(v@, d.0, d.1),
                    Err(e) => e matches ConvertError::Encode(m) && encode_tagged(m@),
                }
            }
        },
    }
}

/// Decodes `data`, flattens the grid into packed RGBA pixel records in
/// source order, and encodes them to an AVIF file at the given quality
/// and speed.  The output keeps the decoded width and height.
pub fn convert_to_avif(data: &[u8], quality: u8, speed: u8) -> (r: Result<Vec<u8>, ConvertError>)
    ensures
        convert_to_avif_post(data@, quality, speed, r),
{
    match decode_rgba_bytes(data) {
        Err(m) => Err(ConvertError::Decode(m)),
        Ok((w, h, raw)) => {
            if quality < 1 || quality > 100 || speed < 1 || speed > 10 {
                Err(ConvertError::Encode(String::from_str(
                    "AVIF Error: quality must be within 1 to 100 and speed within 1 to 10",
                )))
            } else if w == 0 || h == 0 {
                Err(ConvertError::Encode(String::from_str("AVIF Error: image has no pixels")))
            } else {
                assert(raw@.len() % 4 == 0 && raw@.len() / 4 == (w as nat) * (h as nat));
                let pixels = pixels_from_raw(&raw);
                match encode_avif_bytes(&pixels, w, h, quality, speed) {
                    Ok(v) => Ok(v),
                    Err(m) => Err(ConvertError::Encode(m)),
                }
            }
        },
    }
}

/// What `convert_to_avif_resize` returns.  A decode failure always comes
/// first, as the decoder's text in the `Decode` variant — the same text
/// `convert_to_avif` gives, whatever the targets and crop flag.  Past
/// decoding, oversized targets are rejected with a fixed message;
/// otherwise the stages follow `convert_to_avif`, with the resampled
/// grid in place of the decoded one, and the resampled dimensions obey
/// the fill-and-crop and fit clauses below.
pub open spec fn convert_to_avif_resize_post(
    data: Seq<u8>,
    quality: u8,
    speed: u8,
    target_width: u32,
    target_height: u32,
    crop: bool,
    r: Result<Vec<u8>, ConvertError>,
) -> bool {
    if target_width > 0xffff || target_height > 0xffff {
        match decoded_rgba(data) {
            Err(dm) => r matches Err(ConvertError::Decode(m)) && m@ == dm,
            Ok(_) => r matches Err(ConvertError::Encode(m)) && m@ == target_message(),
        }
    } else {
        &&& (resized_rgba(data, target_width, target_height, crop) is Ok
            <==> decoded_rgba(data) is Ok)
        &&& match resized_rgba(data, target_width, target_height, crop) {
            Err(dm) => r matches Err(ConvertError::Decode(m)) && m@ == dm
                && (decoded_rgba(data) matches Err(ddm) && ddm == dm),
            Ok(d) => {
                &&& !params_in_range(quality, speed)
                    ==> (r matches Err(ConvertError::Encode(m)) && m@ == params_message())
                &&& (params_in_range(quality, speed) && (d.0 == 0 || d.1 == 0))
                    ==> (r matches Err(ConvertError::Encode(m)) && m@ == no_pixels_message())
                &&& (params_in_range(quality, speed) && 1 <= d.0 && 1 <= d.1) ==> match r {
                    Ok(v) => avif_signature_ok(v@) && has_ispe_with(v@, d.0, d.1),
                    Err(e) => e matches ConvertError::Encode(m) && encode_tagged(m@),
                }
                &&& (decoded_rgba(data) matches Ok(s)
                    && crop && 1 <= target_width && 1 <= target_height && 1 <= s.0 && 1 <= s.1
                    && fill_within_bounds(s.0, s.1, target_width, target_height))
                    ==> d.0 == target_width && d.1 == target_height
                &&& decoded_rgba(data) matches Ok(s)
                    ==> ((!crop && 1 <= target_width && 1 <= target_height
                        && 1 <= s.0 && 1 <= s.1)
                        ==> d.0 <= target_width && d.1 <= target_height
                            && (d.0 == target_width || d.1 == target_height)
                            && aspect_within_rounding(d.0, d.1, s.0, s.1))
            },
        }
    }
}

/// Decodes `data`, resamples it to the target — fill-and-crop to exactly
/// the target when `crop` is set, fit within it otherwise — flattens the
/// resampled grid and encodes it to an AVIF file.  The output keeps the
/// resampled dimensions, which under the fit policy may fall short of
/// the target in one dimension.  Undecodable bytes fail as they do in
/// `convert_to_avif`, before anything else is considered.
pub fn convert_to_avif_resize(
    data: &[u8],
    quality: u8,
    speed: u8,
    target_width: u32,
    target_height: u32,
    crop: bool,
) -> (r: Result<Vec<u8>, ConvertError>)
    ensures
        convert_to_avif_resize_post(data@, quality, speed, target_width, target_height, crop, r),
{
    if target_width > 0xffff || target_height > 0xffff {
        return match decode_rgba_bytes(data) {
            Err(m) => Err(ConvertError::Decode(m)),
            Ok(_) => Err(ConvertError::Encode(String::from_str(
                "AVIF Error: target dimensions exceed 65535",
            ))),
        };
    }
    match resize_rgba_bytes(data, target_width, target_height, crop) {
        Err(m) => Err(ConvertError::Decode(m)),
        Ok((w, h, raw)) => {
            if quality < 1 || quality > 100 || speed < 1 || speed > 10 {
                Err(ConvertError::Encode(String::from_str(
                    "AVIF Error: quality must be within 1 to 100 and speed within 1 to 10",
                )))
            } else if w == 0 || h == 0 {
                Err(ConvertError::Encode(String::from_str("AVIF Error: image has no pixels")))
            } else {
                assert(raw@.len() % 4 == 0 && raw@.len() / 4 == (w as nat) * (h as nat));
                let pixels = pixels_from_raw(&raw);
                match encode_avif_bytes(&pixels, w, h, quality, speed) {
                    Ok(v) => Ok(v),
                    Err(m) => Err(ConvertError::Encode(m)),
                }
            }
        },
    }
}

/// Two conversions of the same bytes at the same quality and speed agree
/// wherever the input pins the outcome: they fail on undecodable input
/// together, with the same diagnostic text, and they reject out-of-range
/// parameters together, with the same message.  Only the encoder's own
/// verdict is left open by the contract.
pub proof fn lemma_convert_outcome_agreement(
    data: Seq<u8>,
    quality: u8,
    speed: u8,
    r1: Result<Vec<u8>, ConvertError>,
    r2: Result<Vec<u8>, ConvertError>,
)
    requires
        convert_to_avif_post(data, quality, speed, r1),
        convert_to_avif_post(data, quality, speed, r2),
    ensures
        r1 matches Err(ConvertError::Decode(m1))
            ==> (r2 matches Err(ConvertError::Decode(m2)) && m1@ == m2@),
        r2 matches Err(ConvertError::Decode(m2)) ==> r1 matches Err(ConvertError::Decode(m1)),
        (decoded_rgba(data) is Ok && !params_in_range(quality, speed))
            ==> (r1 matches Err(ConvertError::Encode(m1))
                && r2 matches Err(ConvertError::Encode(m2)) && m1@ == m2@),
{
}

/// A decode failure is reported the same way by both operations: on the
/// same input bytes they return `ConvertError::Decode` together, with
/// the same diagnostic text, whatever the quality, speed, targets and
/// crop flag; no resize or encode outcome enters into it.
pub proof fn lemma_decode_failure_agreement(
    data: Seq<u8>,
    quality: u8,
    speed: u8,
    target_width: u32,
    target_height: u32,
    crop: bool,
    r1: Result<Vec<u8>, ConvertError>,
    r2: Result<Vec<u8>, ConvertError>,
)
    requires
        convert_to_avif_post(data, quality, speed, r1),
        convert_to_avif_resize_post(data, quality, speed, target_width, target_height, crop, r2),
    ensures
        r1 matches Err(ConvertError::Decode(m1))
            ==> (r2 matches Err(ConvertError::Decode(m2)) && m1@ == m2@),
        r2 matches Err(ConvertError::Decode(m2)) ==> r1 matches Err(ConvertError::Decode(m1)),
{
}

} // verus!

