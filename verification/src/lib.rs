//! Encode raw pixel data into PNG or JPEG bytes inside a caller-supplied buffer.
//!
//! A [`RawImage`] describes an uncompressed pixel buffer. [`encode`] validates the
//! description, optionally flips the rows in place, has the stream produced by the
//! PNG or the JPEG encoder, and copies it to the front of a fixed-size output
//! buffer, reporting how many bytes of that buffer are meaningful.

pub mod codec;
pub mod encode;
pub mod error;
pub mod flip;
pub mod layout;
pub mod raw_image;

pub use encode::{encode, write_encoded};
pub use error::EncodeError;
pub use flip::flip;
pub use layout::{get_color_type, get_jpeg_color_type, ColorType, JpegColorType};
pub use raw_image::{RawImage, RawImageView};
