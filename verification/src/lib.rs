//! A small bridge that turns encoded image bytes into an AVIF file.
//!
//! Decoding, resampling and AV1 encoding are delegated to outside
//! libraries behind a narrow trusted boundary (`codec`); the marshalling
//! around them — flattening the pixel grid, validating parameters and
//! classifying failures — is verified.

pub mod codec;
pub mod convert;
pub mod pixel;

pub use convert::convert_to_avif;
pub use convert::convert_to_avif_resize;
pub use convert::ConvertError;
pub use pixel::Pixel;
