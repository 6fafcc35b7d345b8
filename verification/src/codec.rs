//! What this library takes on trust from the texture codec: its encoder
//! type, its error type, what an encoder holds, and the calls that make and
//! adjust an encoder.
//!
//! The codec is handed the numbers of the formats, as `DataFormat::code`
//! and `PixelFormat::code` give them, and turns them into its own values.

use vstd::prelude::*;
use gvrtex::TextureEncoder;
use gvrtex::error::TextureEncodeError;
use crate::formats::{
    is_data_format_code, is_mipmap_code, is_palettized_code, is_pixel_format_code,
};

verus! {

/// The codec's encoder. Its fields are private to the codec; the five
/// functions below name what they hold.
#[verifier::external_type_specification]
#[verifier::external_body]
pub struct ExTextureEncoder(gvrtex::TextureEncoder);

/// The codec's error for a refused configuration or a failed encoding.
#[verifier::external_type_specification]
#[verifier::external_body]
pub struct ExTextureEncodeError(gvrtex::error::TextureEncodeError);

/// Whether the encoder writes the magic string "GBIX"; otherwise it writes
/// "GCIX". The codec keeps this in the encoder's texture type.
pub uninterp spec fn encoder_is_gbix(encoder: TextureEncoder) -> bool;

/// The number of the data format that the encoder was made with.
pub uninterp spec fn encoder_data_format(encoder: TextureEncoder) -> u8;

/// The number of the palette pixel format, where the encoder makes a
/// palette of its own: where its data flags hold the internal palette.
pub uninterp spec fn encoder_palette(encoder: TextureEncoder) -> Option<u8>;

/// Whether the encoder's data flags hold the mipmaps.
pub uninterp spec fn encoder_mipmaps(encoder: TextureEncoder) -> bool;

/// The global index that the encoder writes into the header.
pub uninterp spec fn encoder_global_index(encoder: TextureEncoder) -> u32;

/// `TextureEncoder::new_gcix`, on the number of a data format. The codec
/// makes the encoder for every data format but the two indexed ones, which
/// it refuses. The encoder writes "GCIX", holds the data format, and is
/// otherwise as the codec's default: no palette, no mipmaps, index zero.
#[verifier::external_body]
pub(crate) fn new_gcix(data_format: u8) -> (made: Result<TextureEncoder, TextureEncodeError>)
    requires
        is_data_format_code(data_format),
    ensures
        made is Ok <==> !is_palettized_code(data_format),
        made matches Ok(encoder) ==> !encoder_is_gbix(encoder),
        made matches Ok(encoder) ==> encoder_data_format(encoder) == data_format,
        made matches Ok(encoder) ==> encoder_palette(encoder) == None::<u8>,
        made matches Ok(encoder) ==> !encoder_mipmaps(encoder),
        made matches Ok(encoder) ==> encoder_global_index(encoder) == 0,
{
    TextureEncoder::new_gcix(gvrtex::formats::DataFormat::try_from(data_format).unwrap())
}

/// `TextureEncoder::new_gbix`, on the number of a data format. The codec
/// makes the encoder for every data format but the two indexed ones, which
/// it refuses. The encoder writes "GBIX", holds the data format, and is
/// otherwise as the codec's default: no palette, no mipmaps, index zero.
#[verifier::external_body]
pub(crate) fn new_gbix(data_format: u8) -> (made: Result<TextureEncoder, TextureEncodeError>)
    requires
        is_data_format_code(data_format),
    ensures
        made is Ok <==> !is_palettized_code(data_format),
        made matches Ok(encoder) ==> encoder_is_gbix(encoder),
        made matches Ok(encoder) ==> encoder_data_format(encoder) == data_format,
        made matches Ok(encoder) ==> encoder_palette(encoder) == None::<u8>,
        made matches Ok(encoder) ==> !encoder_mipmaps(encoder),
        made matches Ok(encoder) ==> encoder_global_index(encoder) == 0,
{
    TextureEncoder::new_gbix(gvrtex::formats::DataFormat::try_from(data_format).unwrap())
}

/// `TextureEncoder::new_gcix_palettized`, on the numbers of a palette pixel
/// format and a data format. The codec makes the encoder for the two
/// indexed data formats and refuses every other. The encoder writes
/// "GCIX", holds both formats and the internal palette flag, and is
/// otherwise as the codec's default: no mipmaps, index zero.
#[verifier::external_body]
pub(crate) fn new_gcix_palettized(pixel_format: u8, data_format: u8) -> (made: Result<
    TextureEncoder,
    TextureEncodeError,
>)
    requires
        is_pixel_format_code(pixel_format),
        is_data_format_code(data_format),
    ensures
        made is Ok <==> is_palettized_code(data_format),
        made matches Ok(encoder) ==> !encoder_is_gbix(encoder),
        made matches Ok(encoder) ==> encoder_data_format(encoder) == data_format,
        made matches Ok(encoder) ==> encoder_palette(encoder) == Some(pixel_format),
        made matches Ok(encoder) ==> !encoder_mipmaps(encoder),
        made matches Ok(encoder) ==> encoder_global_index(encoder) == 0,
{
    TextureEncoder::new_gcix_palettized(
        gvrtex::formats::PixelFormat::try_from(pixel_format).unwrap(),
        gvrtex::formats::DataFormat::try_from(data_format).unwrap(),
    )
}

/// `TextureEncoder::new_gbix_palettized`, on the numbers of a palette pixel
/// format and a data format. The codec makes the encoder for the two
/// indexed data formats and refuses every other. The encoder writes
/// "GBIX", holds both formats and the internal palette flag, and is
/// otherwise as the codec's default: no mipmaps, index zero.
#[verifier::external_body]
pub(crate) fn new_gbix_palettized(pixel_format: u8, data_format: u8) -> (made: Result<
    TextureEncoder,
    TextureEncodeError,
>)
    requires
        is_pixel_format_code(pixel_format),
        is_data_format_code(data_format),
    ensures
        made is Ok <==> is_palettized_code(data_format),
        made matches Ok(encoder) ==> encoder_is_gbix(encoder),
        made matches Ok(encoder) ==> encoder_data_format(encoder) == data_format,
        made matches Ok(encoder) ==> encoder_palette(encoder) == Some(pixel_format),
        made matches Ok(encoder) ==> !encoder_mipmaps(encoder),
        made matches Ok(encoder) ==> encoder_global_index(encoder) == 0,
{
    TextureEncoder::new_gbix_palettized(
        gvrtex::formats::PixelFormat::try_from(pixel_format).unwrap(),
        gvrtex::formats::DataFormat::try_from(data_format).unwrap(),
    )
}

/// `TextureEncoder::with_mipmaps`. The codec accepts exactly where the
/// encoder was made with DXT1, RGB565 or RGB5A3; it then sets the mipmaps
/// flag and leaves everything else as it was.
pub assume_specification[ gvrtex::TextureEncoder::with_mipmaps ](
    encoder: gvrtex::TextureEncoder,
) -> (modified: Result<gvrtex::TextureEncoder, gvrtex::error::TextureEncodeError>)
    ensures
        modified is Ok <==> is_mipmap_code(encoder_data_format(encoder)),
        modified matches Ok(after) ==> encoder_mipmaps(after),
        modified matches Ok(after) ==> encoder_is_gbix(after) == encoder_is_gbix(encoder),
        modified matches Ok(after) ==> encoder_data_format(after) == encoder_data_format(encoder),
        modified matches Ok(after) ==> encoder_palette(after) == encoder_palette(encoder),
        modified matches Ok(after) ==> encoder_global_index(after) == encoder_global_index(
            encoder,
        ),
;

/// `TextureEncoder::with_global_index`. The codec stores the index and
/// leaves everything else as it was.
pub assume_specification[ gvrtex::TextureEncoder::with_global_index ](
    encoder: gvrtex::TextureEncoder,
    global_index: u32,
) -> (modified: gvrtex::TextureEncoder)
    ensures
        encoder_global_index(modified) == global_index,
        encoder_is_gbix(modified) == encoder_is_gbix(encoder),
        encoder_data_format(modified) == encoder_data_format(encoder),
        encoder_palette(modified) == encoder_palette(encoder),
        encoder_mipmaps(modified) == encoder_mipmaps(encoder),
;

/// The text that the codec's `Display` gives for one of its errors.
#[verifier::external_body]
pub(crate) fn error_message(error: &TextureEncodeError) -> (text: String) {
    error.to_string()
}

} // verus!
