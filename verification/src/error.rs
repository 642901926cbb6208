use vstd::prelude::*;

verus! {

/// Why an image could not be encoded.
///
/// None of these is transient: the same call fails again until the input is fixed.
#[derive(Debug, Clone, Copy, PartialEq, Eq, Hash)]
pub enum EncodeError {
    /// The color type code is not one of the ten known codes.
    InvalidColorLayout,
    /// The color type is known, but the requested format cannot hold it.
    UnsupportedColorLayout,
    /// A JPEG was requested for a width or height above 65535.
    DimensionsTooLarge,
    /// The pixel buffer is not exactly `width * height * bytes_per_pixel` bytes long.
    BufferSizeMismatch,
    /// The PNG or JPEG encoder reported a failure.
    EncoderFailed,
    /// The encoded stream does not fit in the output buffer.
    OutputTooSmall,
}

} // verus!
