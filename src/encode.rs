use vstd::prelude::*;
use crate::request::ImageFormat;

verus! {

/// Compression effort of WebP: low, to bound encode time.
pub const WEBP_EFFORT: i32 = 2;

/// Bit depth of PNG output.
pub const PNG_BIT_DEPTH: i32 = 8;

/// Parameters handed to the encoder.
#[derive(Clone, Copy, Debug, PartialEq, Eq)]
pub struct EncodeOptions {
    pub format: ImageFormat,
    pub quality: i32,
    /// Flatten transparent regions onto white.
    pub white_background: bool,
    /// Optimised entropy coding.
    pub optimize_coding: bool,
    /// Progressive (interlaced) layout.
    pub interlace: bool,
    pub effort: Option<i32>,
    pub bit_depth: Option<i32>,
}

pub open spec fn encode_options_of(format: ImageFormat, quality: i32) -> EncodeOptions {
    let jpeg = format == ImageFormat::Jpeg;
    EncodeOptions {
        format,
        quality,
        white_background: jpeg,
        optimize_coding: jpeg,
        interlace: jpeg,
        effort: if format == ImageFormat::Webp { Some(WEBP_EFFORT) } else { None },
        bit_depth: if format == ImageFormat::Png { Some(PNG_BIT_DEPTH) } else { None },
    }
}

/// Encoder parameters of a format at a quality: JPEG flattens on white with
/// optimised, progressive coding; WebP uses a low effort; PNG is 8-bit;
/// HEIC takes the quality alone.
pub fn encode_options(format: ImageFormat, quality: i32) -> (r: EncodeOptions)
    ensures
        r == encode_options_of(format, quality),
{
    match format {
        ImageFormat::Jpeg => EncodeOptions {
            format,
            quality,
            white_background: true,
            optimize_coding: true,
            interlace: true,
            effort: None,
            bit_depth: None,
        },
        ImageFormat::Webp => EncodeOptions {
            format,
            quality,
            white_background: false,
            optimize_coding: false,
            interlace: false,
            effort: Some(WEBP_EFFORT),
            bit_depth: None,
        },
        ImageFormat::Png => EncodeOptions {
            format,
            quality,
            white_background: false,
            optimize_coding: false,
            interlace: false,
            effort: None,
            bit_depth: Some(PNG_BIT_DEPTH),
        },
        ImageFormat::Heic => EncodeOptions {
            format,
            quality,
            white_background: false,
            optimize_coding: false,
            interlace: false,
            effort: None,
            bit_depth: None,
        },
    }
}

} // verus!
