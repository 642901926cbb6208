use vstd::prelude::*;

use crate::error::EncodeError;

verus! {

/// How the bytes of a pixel are laid out: which channels, and how wide each is.
#[derive(Debug, Clone, Copy, PartialEq, Eq, Hash)]
pub enum ColorType {
    /// 8-bit luminance.
    L8,
    /// 8-bit luminance with alpha.
    La8,
    /// 8-bit red, green and blue.
    Rgb8,
    /// 8-bit red, green and blue with alpha.
    Rgba8,
    /// 16-bit luminance.
    L16,
    /// 16-bit luminance with alpha.
    La16,
    /// 16-bit red, green and blue.
    Rgb16,
    /// 16-bit red, green and blue with alpha.
    Rgba16,
    /// 32-bit floating point red, green and blue.
    Rgb32F,
    /// 32-bit floating point red, green and blue with alpha.
    Rgba32F,
}

/// The pixel layouts that a JPEG can be encoded from.
#[derive(Debug, Clone, Copy, PartialEq, Eq, Hash)]
pub enum JpegColorType {
    /// One byte of luminance per pixel.
    Luma,
    /// Three bytes per pixel.
    Rgb,
    /// Four bytes per pixel; the alpha byte is ignored.
    Rgba,
}

/// The layout that a color type code stands for, if it stands for one.
pub open spec fn layout_of_code(code: u8) -> Option<ColorType> {
    if code == 0 {
        Some(ColorType::L8)
    } else if code == 1 {
        Some(ColorType::La8)
    } else if code == 2 {
        Some(ColorType::Rgb8)
    } else if code == 3 {
        Some(ColorType::Rgba8)
    } else if code == 4 {
        Some(ColorType::L16)
    } else if code == 5 {
        Some(ColorType::La16)
    } else if code == 6 {
        Some(ColorType::Rgb16)
    } else if code == 7 {
        Some(ColorType::Rgba16)
    } else if code == 8 {
        Some(ColorType::Rgb32F)
    } else if code == 9 {
        Some(ColorType::Rgba32F)
    } else {
        None
    }
}

/// The JPEG input layout that matches a layout, if JPEG has one.
pub open spec fn jpeg_layout_of(layout: ColorType) -> Option<JpegColorType> {
    match layout {
        ColorType::L8 => Some(JpegColorType::Luma),
        ColorType::Rgb8 => Some(JpegColorType::Rgb),
        ColorType::Rgba8 => Some(JpegColorType::Rgba),
        _ => None,
    }
}

/// What looking up a code for PNG gives: every known layout is accepted.
pub open spec fn color_type_lookup(code: u8) -> Result<ColorType, EncodeError> {
    match layout_of_code(code) {
        Some(layout) => Ok(layout),
        None => Err(EncodeError::InvalidColorLayout),
    }
}

/// What looking up a code for JPEG gives: unknown codes are invalid, known
/// layouts that JPEG cannot take are unsupported.
pub open spec fn jpeg_color_type_lookup(code: u8) -> Result<JpegColorType, EncodeError> {
    match layout_of_code(code) {
        None => Err(EncodeError::InvalidColorLayout),
        Some(layout) => match jpeg_layout_of(layout) {
            Some(jpeg) => Ok(jpeg),
            None => Err(EncodeError::UnsupportedColorLayout),
        },
    }
}

impl ColorType {
    /// Number of channels in a pixel.
    pub open spec fn spec_channels(self) -> nat {
        match self {
            ColorType::L8 | ColorType::L16 => 1,
            ColorType::La8 | ColorType::La16 => 2,
            ColorType::Rgb8 | ColorType::Rgb16 | ColorType::Rgb32F => 3,
            ColorType::Rgba8 | ColorType::Rgba16 | ColorType::Rgba32F => 4,
        }
    }

    /// Number of bits in one channel of a pixel.
    pub open spec fn spec_bits_per_channel(self) -> nat {
        match self {
            ColorType::L8 | ColorType::La8 | ColorType::Rgb8 | ColorType::Rgba8 => 8,
            ColorType::L16 | ColorType::La16 | ColorType::Rgb16 | ColorType::Rgba16 => 16,
            ColorType::Rgb32F | ColorType::Rgba32F => 32,
        }
    }

    /// Number of bytes in one channel of a pixel.
    pub open spec fn spec_bytes_per_channel(self) -> nat {
        self.spec_bits_per_channel() / 8
    }

    /// Number of bytes in a pixel: `channels * bits_per_channel / 8`.
    pub open spec fn spec_bytes_per_pixel(self) -> nat {
        self.spec_channels() * self.spec_bits_per_channel() / 8
    }

    /// The code that stands for this layout.
    pub open spec fn spec_code(self) -> u8 {
        match self {
            ColorType::L8 => 0,
            ColorType::La8 => 1,
            ColorType::Rgb8 => 2,
            ColorType::Rgba8 => 3,
            ColorType::L16 => 4,
            ColorType::La16 => 5,
            ColorType::Rgb16 => 6,
            ColorType::Rgba16 => 7,
            ColorType::Rgb32F => 8,
            ColorType::Rgba32F => 9,
        }
    }

    /// Number of channels in a pixel.
    pub fn channels(self) -> (n: u8)
        ensures
            n == self.spec_channels(),
            1 <= n <= 4,
    {
        match self {
            ColorType::L8 | ColorType::L16 => 1,
            ColorType::La8 | ColorType::La16 => 2,
            ColorType::Rgb8 | ColorType::Rgb16 | ColorType::Rgb32F => 3,
            ColorType::Rgba8 | ColorType::Rgba16 | ColorType::Rgba32F => 4,
        }
    }

    /// Number of bits in one channel of a pixel.
    pub fn bits_per_channel(self) -> (n: u8)
        ensures
            n == self.spec_bits_per_channel(),
            n == 8 || n == 16 || n == 32,
    {
        match self {
            ColorType::L8 | ColorType::La8 | ColorType::Rgb8 | ColorType::Rgba8 => 8,
            ColorType::L16 | ColorType::La16 | ColorType::Rgb16 | ColorType::Rgba16 => 16,
            ColorType::Rgb32F | ColorType::Rgba32F => 32,
        }
    }

    /// Number of bytes in a pixel.
    pub fn bytes_per_pixel(self) -> (n: u8)
        ensures
            n == self.spec_bytes_per_pixel(),
            n == self.spec_channels() * self.spec_bytes_per_channel(),
            1 <= n <= 16,
    {
        let channels: u8 = self.channels();
        let bits: u8 = self.bits_per_channel();
        proof {
            lemma_bytes_per_pixel(self);
        }
        channels * (bits / 8)
    }

    /// The code that stands for this layout.
    pub fn code(self) -> (code: u8)
        ensures
            code == self.spec_code(),
            layout_of_code(code) == Some(self),
    {
        match self {
            ColorType::L8 => 0,
            ColorType::La8 => 1,
            ColorType::Rgb8 => 2,
            ColorType::Rgba8 => 3,
            ColorType::L16 => 4,
            ColorType::La16 => 5,
            ColorType::Rgb16 => 6,
            ColorType::Rgba16 => 7,
            ColorType::Rgb32F => 8,
            ColorType::Rgba32F => 9,
        }
    }

    /// The JPEG input layout that matches this layout, if JPEG has one.
    pub fn jpeg_color_type(self) -> (jpeg: Option<JpegColorType>)
        ensures
            jpeg == jpeg_layout_of(self),
    {
        match self {
            ColorType::L8 => Some(JpegColorType::Luma),
            ColorType::Rgb8 => Some(JpegColorType::Rgb),
            ColorType::Rgba8 => Some(JpegColorType::Rgba),
            _ => None,
        }
    }
}

impl JpegColorType {
    /// The general layout that this JPEG input layout is.
    pub open spec fn spec_color_type(self) -> ColorType {
        match self {
            JpegColorType::Luma => ColorType::L8,
            JpegColorType::Rgb => ColorType::Rgb8,
            JpegColorType::Rgba => ColorType::Rgba8,
        }
    }

    /// The general layout that this JPEG input layout is.
    pub fn color_type(self) -> (layout: ColorType)
        ensures
            layout == self.spec_color_type(),
            jpeg_layout_of(layout) == Some(self),
    {
        match self {
            JpegColorType::Luma => ColorType::L8,
            JpegColorType::Rgb => ColorType::Rgb8,
            JpegColorType::Rgba => ColorType::Rgba8,
        }
    }
}

/// Converts a color type code to the layout it stands for.
///
/// Codes 0 to 9 are known; any other code is refused as invalid.
pub fn get_color_type(value: u8) -> (result: Result<ColorType, EncodeError>)
    ensures
        result == color_type_lookup(value),
        result is Ok <==> value <= 9,
{
    match value {
        0 => Ok(ColorType::L8),
        1 => Ok(ColorType::La8),
        2 => Ok(ColorType::Rgb8),
        3 => Ok(ColorType::Rgba8),
        4 => Ok(ColorType::L16),
        5 => Ok(ColorType::La16),
        6 => Ok(ColorType::Rgb16),
        7 => Ok(ColorType::Rgba16),
        8 => Ok(ColorType::Rgb32F),
        9 => Ok(ColorType::Rgba32F),
        _ => Err(EncodeError::InvalidColorLayout),
    }
}

/// Converts a color type code to the layout that the JPEG encoder takes.
///
/// Only 8-bit luminance, RGB and RGBA (codes 0, 2 and 3) can become a JPEG.
pub fn get_jpeg_color_type(value: u8) -> (result: Result<JpegColorType, EncodeError>)
    ensures
        result == jpeg_color_type_lookup(value),
        result is Ok <==> (value == 0 || value == 2 || value == 3),
        result == Err::<JpegColorType, EncodeError>(EncodeError::InvalidColorLayout) <==> value > 9,
{
    match value {
        0 => Ok(JpegColorType::Luma),
        2 => Ok(JpegColorType::Rgb),
        3 => Ok(JpegColorType::Rgba),
        1 | 4 | 5 | 6 | 7 | 8 | 9 => Err(EncodeError::UnsupportedColorLayout),
        _ => Err(EncodeError::InvalidColorLayout),
    }
}

/// Every layout is found again from its code, and no two layouts share a code.
pub proof fn lemma_code_round_trip(layout: ColorType)
    ensures
        layout.spec_code() <= 9,
        layout_of_code(layout.spec_code()) == Some(layout),
{
}

/// A code that stands for a layout is the code of that layout.
pub proof fn lemma_layout_round_trip(code: u8)
    ensures
        code <= 9 <==> layout_of_code(code) is Some,
        layout_of_code(code) matches Some(layout) ==> layout.spec_code() == code,
{
}

/// A pixel takes `channels * bits_per_channel / 8` bytes, between 1 and 16.
pub proof fn lemma_bytes_per_pixel(layout: ColorType)
    ensures
        layout.spec_bytes_per_pixel() == layout.spec_channels() * layout.spec_bytes_per_channel(),
        layout.spec_bytes_per_pixel() * 8 == layout.spec_channels()
            * layout.spec_bits_per_channel(),
        1 <= layout.spec_bytes_per_pixel() <= 16,
{
    let channels = layout.spec_channels();
    let bits = layout.spec_bits_per_channel();
    assert(bits == 8 || bits == 16 || bits == 32);
    assert(1 <= channels <= 4);
    if bits == 8 {
        assert(channels * bits / 8 == channels * (bits / 8));
    } else if bits == 16 {
        assert(channels * bits / 8 == channels * (bits / 8));
    } else {
        assert(channels * bits / 8 == channels * (bits / 8));
    }
}

} // verus!
