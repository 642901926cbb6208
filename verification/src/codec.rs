use vstd::prelude::*;

use crate::layout::{ColorType, JpegColorType};
use image::codecs::png::PngEncoder;
use image::ImageEncoder;
use std::io::Cursor;
use vstd::endian::{endianness, Endian};

verus! {

/// The error of the PNG encoder. Nothing is known of its contents.
#[verifier::external_type_specification]
#[verifier::external_body]
pub struct ExImageError(image::ImageError);

/// The error of the JPEG encoder. Nothing is known of its contents.
#[verifier::external_type_specification]
#[verifier::external_body]
pub struct ExJpegEncodingError(jpeg_encoder::EncodingError);

/// The number that a group of bytes holds when it is read in the byte order of
/// the machine.
pub open spec fn native_value(bytes: Seq<u8>) -> nat
    decreases bytes.len(),
{
    if bytes.len() == 0 {
        0
    } else {
        match endianness() {
            Endian::Little => bytes.first() as nat + 256 * native_value(bytes.drop_first()),
            Endian::Big => bytes.last() as nat + 256 * native_value(bytes.drop_last()),
        }
    }
}

/// The channel samples that a pixel buffer holds, each `bytes_per_sample`
/// bytes wide and stored in the byte order of the machine.
pub open spec fn native_samples(pixels: Seq<u8>, bytes_per_sample: nat) -> Seq<nat> {
    Seq::new(
        pixels.len() / bytes_per_sample,
        |i: int| native_value(pixels.subrange(i * bytes_per_sample, (i + 1) * bytes_per_sample)),
    )
}

/// The PNG stream that the PNG encoder writes for an image with these channel
/// samples, or `None` where it reports an error.
pub uninterp spec fn png_stream(samples: Seq<nat>, width: u32, height: u32, layout: ColorType) -> Option<Seq<u8>>;

/// The JPEG stream that the JPEG encoder writes for these pixel bytes at this
/// quality, or `None` where it reports an error.
pub uninterp spec fn jpeg_stream(pixels: Seq<u8>, width: u16, height: u16, layout: JpegColorType, quality: u8) -> Option<Seq<u8>>;

/// Runs `image::codecs::png::PngEncoder::write_image`, with the encoder's
/// default settings, into a fresh byte vector.
///
/// Not proved: that the encoder's answer depends on nothing but the image. It
/// reads samples wider than a byte in the byte order of the machine, so the
/// answer is named by the samples, not by the bytes. The encoder panics on a
/// buffer of another length than the dimensions and the layout call for, which
/// the precondition rules out.
#[verifier::external_body]
pub(crate) fn png_encode(pixels: &Vec<u8>, width: u32, height: u32, layout: ColorType) -> (result:
    Result<Vec<u8>, image::ImageError>)
    requires
        pixels@.len() == width * height * layout.spec_bytes_per_pixel(),
    ensures
        match result {
            Ok(bytes) => png_stream(
                native_samples(pixels@, layout.spec_bytes_per_channel()),
                width,
                height,
                layout,
            ) == Some(bytes@),
            Err(_) => png_stream(
                native_samples(pixels@, layout.spec_bytes_per_channel()),
                width,
                height,
                layout,
            ) is None,
        },
{
    let color = match layout {
        ColorType::L8 => image::ColorType::L8,
        ColorType::La8 => image::ColorType::La8,
        ColorType::Rgb8 => image::ColorType::Rgb8,
        ColorType::Rgba8 => image::ColorType::Rgba8,
        ColorType::L16 => image::ColorType::L16,
        ColorType::La16 => image::ColorType::La16,
        ColorType::Rgb16 => image::ColorType::Rgb16,
        ColorType::Rgba16 => image::ColorType::Rgba16,
        ColorType::Rgb32F => image::ColorType::Rgb32F,
        ColorType::Rgba32F => image::ColorType::Rgba32F,
    };
    let mut writer = Cursor::new(Vec::new());
    PngEncoder::new(&mut writer).write_image(pixels, width, height, color)?;
    Ok(writer.into_inner())
}

/// Runs `jpeg_encoder::Encoder::encode`, on an encoder made by
/// `jpeg_encoder::Encoder::new` with the given quality, into a fresh byte
/// vector.
///
/// Not proved: that the encoder's answer depends on nothing but the pixel
/// bytes, the dimensions, the layout and the quality.
#[verifier::external_body]
pub(crate) fn jpeg_encode(
    pixels: &Vec<u8>,
    width: u16,
    height: u16,
    layout: JpegColorType,
    quality: u8,
) -> (result: Result<Vec<u8>, jpeg_encoder::EncodingError>)
    requires
        pixels@.len() == width * height * layout.spec_color_type().spec_bytes_per_pixel(),
    ensures
        match result {
            Ok(bytes) => jpeg_stream(pixels@, width, height, layout, quality) == Some(bytes@),
            Err(_) => jpeg_stream(pixels@, width, height, layout, quality) is None,
        },
{
    let color = match layout {
        JpegColorType::Luma => jpeg_encoder::ColorType::Luma,
        JpegColorType::Rgb => jpeg_encoder::ColorType::Rgb,
        JpegColorType::Rgba => jpeg_encoder::ColorType::Rgba,
    };
    let mut writer = Cursor::new(Vec::new());
    jpeg_encoder::Encoder::new(&mut writer, quality).encode(pixels, width, height, color)?;
    Ok(writer.into_inner())
}

} // verus!
