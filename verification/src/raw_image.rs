use vstd::prelude::*;

use crate::codec::{jpeg_stream, native_samples, png_stream};
use crate::error::EncodeError;
use crate::flip::{flipped_rows, lemma_flip_twice_is_identity, row_stride};
use crate::layout::{get_color_type, jpeg_layout_of, layout_of_code, ColorType};

verus! {

/// A raw image has a byte buffer and some image metadata.
///
/// The description is consistent when `color_type` is a known code, the
/// requested format can hold that layout and these dimensions, and `buffer`
/// holds exactly `width * height` pixels.
#[derive(Debug, Clone, PartialEq, Eq)]
pub struct RawImage {
    /// The raw image data, row after row from the top.
    pub buffer: Vec<u8>,
    /// The width of the image, in pixels.
    pub width: u32,
    /// The height of the image, in pixels.
    pub height: u32,
    /// If true, encode to PNG. If false, encode to JPEG.
    pub png: bool,
    /// The image quality (0-100). This is only used for JPEG.
    pub quality: u8,
    /// The code of the color type: 0 to 3 for 8-bit L, LA, RGB and RGBA, 4 to 7
    /// for the same with 16 bits, 8 and 9 for 32-bit floating point RGB and RGBA.
    pub color_type: u8,
}

/// What a [`RawImage`] describes: the pixel bytes as a sequence, beside the
/// metadata.
pub struct RawImageView {
    /// The pixel bytes, row after row from the top.
    pub buffer: Seq<u8>,
    /// The width of the image, in pixels.
    pub width: u32,
    /// The height of the image, in pixels.
    pub height: u32,
    /// Whether a PNG is requested, rather than a JPEG.
    pub png: bool,
    /// The JPEG quality.
    pub quality: u8,
    /// The code of the color type.
    pub color_type: u8,
}

impl View for RawImage {
    type V = RawImageView;

    open spec fn view(&self) -> RawImageView {
        RawImageView {
            buffer: self.buffer@,
            width: self.width,
            height: self.height,
            png: self.png,
            quality: self.quality,
            color_type: self.color_type,
        }
    }
}

impl RawImageView {
    /// Number of bytes that the buffer of an image of this size and layout holds.
    pub open spec fn expected_len(self, layout: ColorType) -> nat {
        self.width as nat * self.height as nat * layout.spec_bytes_per_pixel()
    }

    /// The layout of a consistent description, or the first thing that is
    /// wrong with it: the code, then what the format supports, then the
    /// length of the buffer.
    pub open spec fn check(self) -> Result<ColorType, EncodeError> {
        match layout_of_code(self.color_type) {
            None => Err(EncodeError::InvalidColorLayout),
            Some(layout) => if !self.png && jpeg_layout_of(layout) is None {
                Err(EncodeError::UnsupportedColorLayout)
            } else if !self.png && (self.width > u16::MAX || self.height > u16::MAX) {
                Err(EncodeError::DimensionsTooLarge)
            } else if self.buffer.len() != self.expected_len(layout) {
                Err(EncodeError::BufferSizeMismatch)
            } else {
                Ok(layout)
            },
        }
    }

    /// Whether the description is consistent.
    pub open spec fn well_formed(self) -> bool {
        self.check() is Ok
    }

    /// The same image upside down. A description without a layout has no rows
    /// and is left as it is.
    pub open spec fn flipped(self) -> RawImageView {
        match layout_of_code(self.color_type) {
            Some(layout) => RawImageView {
                buffer: flipped_rows(self.buffer, row_stride(self.width, layout), self.height as nat),
                ..self
            },
            None => self,
        }
    }

    /// The stream that the encoder of the requested format writes for this
    /// image, or `None` where it reports an error. The PNG encoder is given the
    /// buffer, the dimensions and the layout; the JPEG encoder also the quality.
    pub open spec fn stream(self) -> Option<Seq<u8>> {
        match layout_of_code(self.color_type) {
            Some(layout) => if self.png {
                png_stream(
                    native_samples(self.buffer, layout.spec_bytes_per_channel()),
                    self.width,
                    self.height,
                    layout,
                )
            } else {
                match jpeg_layout_of(layout) {
                    Some(jpeg) => jpeg_stream(
                        self.buffer,
                        self.width as u16,
                        self.height as u16,
                        jpeg,
                        self.quality,
                    ),
                    None => None,
                }
            },
            None => None,
        }
    }
}

/// A JPEG request for a known layout other than 8-bit luminance, RGB or RGBA
/// is refused as unsupported, whatever the dimensions and the buffer are.
pub proof fn lemma_jpeg_refuses_other_layouts(image: RawImageView)
    requires
        !image.png,
        image.color_type <= 9,
        image.color_type != 0 && image.color_type != 2 && image.color_type != 3,
    ensures
        image.check() == Err::<ColorType, EncodeError>(EncodeError::UnsupportedColorLayout),
{
}

/// A code above 9 is refused as invalid for both formats.
pub proof fn lemma_unknown_code_is_refused(image: RawImageView)
    requires
        image.color_type > 9,
    ensures
        image.check() == Err::<ColorType, EncodeError>(EncodeError::InvalidColorLayout),
{
}

/// The quality plays no part in a PNG request: neither in whether the
/// description is accepted nor in the stream that is written.
pub proof fn lemma_png_ignores_quality(image: RawImageView, quality: u8)
    requires
        image.png,
    ensures
        (RawImageView { quality, ..image }).check() == image.check(),
        (RawImageView { quality, ..image }).stream() == image.stream(),
{
}

/// Flipping a consistent description keeps it consistent, and flipping it
/// twice gives it back.
pub proof fn lemma_flipped_twice(image: RawImageView)
    requires
        image.well_formed(),
    ensures
        image.flipped().check() == image.check(),
        image.flipped().flipped() == image,
{
    let layout = layout_of_code(image.color_type).unwrap();
    let stride = row_stride(image.width, layout);
    let height = image.height as nat;
    assert(image.buffer.len() == height * stride) by (nonlinear_arith)
        requires
            image.buffer.len() == image.width as nat * image.height as nat
                * layout.spec_bytes_per_pixel(),
            stride == image.width as nat * layout.spec_bytes_per_pixel(),
            height == image.height as nat,
    ;
    lemma_flip_twice_is_identity(image.buffer, stride, height);
}

impl RawImage {
    /// Checks that the description is consistent and gives its layout.
    ///
    /// The checks are made in a fixed order, and the first that fails decides
    /// the error: an unknown color type code, a layout that JPEG cannot hold,
    /// a JPEG dimension above 65535, a buffer of the wrong length.
    pub fn validate(&self) -> (result: Result<ColorType, EncodeError>)
        ensures
            result == self@.check(),
    {
        let layout: ColorType = match get_color_type(self.color_type) {
            Ok(layout) => layout,
            Err(error) => {
                return Err(error);
            },
        };
        if !self.png {
            if layout.jpeg_color_type().is_none() {
                return Err(EncodeError::UnsupportedColorLayout);
            }
            if self.width > 0xffff || self.height > 0xffff {
                return Err(EncodeError::DimensionsTooLarge);
            }
        }
        let bytes_per_pixel: u8 = layout.bytes_per_pixel();
        assert(self.width * self.height <= 0xffff_ffff * 0xffff_ffff) by (nonlinear_arith);
        let pixels: u64 = self.width as u64 * self.height as u64;
        assert(pixels * bytes_per_pixel <= 0xffff_ffff * 0xffff_ffff * 16) by (nonlinear_arith)
            requires
                pixels <= 0xffff_ffff * 0xffff_ffff,
                bytes_per_pixel <= 16,
        ;
        let expected: u128 = pixels as u128 * bytes_per_pixel as u128;
        if self.buffer.len() as u128 != expected {
            return Err(EncodeError::BufferSizeMismatch);
        }
        Ok(layout)
    }
}

} // verus!
