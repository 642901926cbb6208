use vstd::prelude::*;

use crate::codec::{jpeg_encode, png_encode};
use crate::error::EncodeError;
use crate::flip::flip;
use crate::layout::ColorType;
use crate::raw_image::{lemma_flipped_twice, RawImage};

verus! {

/// The bytes of an encoder's answer, if it gave a stream.
pub open spec fn stream_bytes(stream: Option<Vec<u8>>) -> Option<Seq<u8>> {
    match stream {
        Some(bytes) => Some(bytes@),
        None => None,
    }
}

/// Whether a stream of `len` bytes can be handed over in a buffer of
/// `capacity` bytes: it must fit, and its length must be reportable.
pub open spec fn fits(len: nat, capacity: nat) -> bool {
    len <= capacity && len <= u32::MAX
}

/// What is reported for an encoder's answer and an output buffer of `capacity`
/// bytes: the length of the stream where it fits, else why nothing was written.
pub open spec fn delivery(stream: Option<Seq<u8>>, capacity: nat) -> Result<u32, EncodeError> {
    match stream {
        None => Err(EncodeError::EncoderFailed),
        Some(bytes) => if fits(bytes.len(), capacity) {
            Ok(bytes.len() as u32)
        } else {
            Err(EncodeError::OutputTooSmall)
        },
    }
}

/// The output buffer after the hand-over: a stream that fits lies at its
/// front and the bytes behind it are as they were; otherwise the buffer is
/// untouched.
pub open spec fn delivered(stream: Option<Seq<u8>>, output: Seq<u8>) -> Seq<u8> {
    match stream {
        Some(bytes) if fits(bytes.len(), output.len()) => bytes + output.subrange(
            bytes.len() as int,
            output.len() as int,
        ),
        _ => output,
    }
}

/// A buffer of exactly the length of the stream takes it whole; a buffer one
/// byte shorter is refused and stays untouched, never filled with a
/// truncated stream.
pub proof fn lemma_delivery_at_capacity(bytes: Seq<u8>, output: Seq<u8>)
    requires
        bytes.len() <= u32::MAX,
    ensures
        output.len() == bytes.len() ==> delivery(Some(bytes), output.len()) == Ok::<
            u32,
            EncodeError,
        >(bytes.len() as u32) && delivered(Some(bytes), output) == bytes,
        output.len() + 1 == bytes.len() ==> delivery(Some(bytes), output.len()) == Err::<
            u32,
            EncodeError,
        >(EncodeError::OutputTooSmall) && delivered(Some(bytes), output) == output,
{
    if output.len() == bytes.len() {
        assert(delivered(Some(bytes), output) =~= bytes);
    }
}

/// Whatever is handed over, the output buffer keeps its length, a reported
/// length is that of the stream and within the buffer, and the bytes behind
/// it are untouched.
pub proof fn lemma_delivery_within_capacity(stream: Option<Seq<u8>>, output: Seq<u8>)
    ensures
        delivered(stream, output).len() == output.len(),
        delivery(stream, output.len()) matches Ok(n) ==> {
            &&& n <= output.len()
            &&& stream == Some(delivered(stream, output).subrange(0, n as int))
            &&& delivered(stream, output).subrange(n as int, output.len() as int)
                == output.subrange(n as int, output.len() as int)
        },
        delivery(stream, output.len()) is Err ==> delivered(stream, output) == output,
{
    if let Some(bytes) = stream {
        if fits(bytes.len(), output.len()) {
            let n = bytes.len() as int;
            let after = delivered(stream, output);
            assert(after.subrange(0, n) =~= bytes);
            assert(after.subrange(n, output.len() as int) =~= output.subrange(
                n,
                output.len() as int,
            ));
        }
    }
}

/// Hands an encoder's answer over to the caller's output buffer.
///
/// A stream that fits is copied to the front of `encoded_image` and its length
/// is returned; the bytes behind it stay as they were, and the buffer is never
/// resized. Where the encoder failed, or the stream is longer than the buffer
/// (or than a `u32` can report), nothing is written.
pub fn write_encoded(stream: Option<Vec<u8>>, encoded_image: &mut Vec<u8>) -> (result: Result<
    u32,
    EncodeError,
>)
    ensures
        result == delivery(stream_bytes(stream), old(encoded_image)@.len()),
        final(encoded_image)@ == delivered(stream_bytes(stream), old(encoded_image)@),
        final(encoded_image)@.len() == old(encoded_image)@.len(),
        result matches Ok(n) ==> n <= old(encoded_image)@.len(),
{
    let bytes: Vec<u8> = match stream {
        Some(bytes) => bytes,
        None => {
            return Err(EncodeError::EncoderFailed);
        },
    };
    let len: usize = bytes.len();
    if len > encoded_image.len() || len > 0xffff_ffff {
        return Err(EncodeError::OutputTooSmall);
    }
    let ghost before = encoded_image@;
    let mut i: usize = 0;
    while i < len
        invariant
            len == bytes@.len(),
            len <= before.len(),
            0 <= i <= len,
            encoded_image@.len() == before.len(),
            forall|k: int| 0 <= k < i ==> encoded_image@[k] == bytes@[k],
            forall|k: int| i <= k < before.len() ==> encoded_image@[k] == before[k],
        decreases len - i,
    {
        encoded_image[i] = bytes[i];
        i = i + 1;
    }
    assert(encoded_image@ =~= delivered(Some(bytes@), before));
    Ok(len as u32)
}

/// Encode a single image.
///
/// - `raw_image` The raw image and its metadata.
/// - `encoded_image` The buffer that receives the encoded image. Its length is
///   its capacity: it is filled from the front and never resized.
/// - `flip_y` If true, the image is flipped upside down, in place, before it
///   is encoded.
///
/// Returns the number of bytes used in `encoded_image` (its true size might be
/// larger), or the reason why nothing was encoded.
///
/// A description that is not consistent is refused before anything is touched.
/// Otherwise the pixel buffer is flipped if asked, the encoder of the
/// requested format is run on it, and its answer handed over as
/// [`write_encoded`] does. The call is all or nothing: where it fails, a
/// flipped pixel buffer is flipped back, so that both buffers are as they were.
pub fn encode(raw_image: &mut RawImage, encoded_image: &mut Vec<u8>, flip_y: bool) -> (result:
    Result<u32, EncodeError>)
    ensures
        match old(raw_image)@.check() {
            Err(error) => result == Err::<u32, EncodeError>(error),
            Ok(_) => {
                let image = if flip_y {
                    old(raw_image)@.flipped()
                } else {
                    old(raw_image)@
                };
                &&& result == delivery(image.stream(), old(encoded_image)@.len())
                &&& final(encoded_image)@ == delivered(image.stream(), old(encoded_image)@)
                &&& result is Ok ==> final(raw_image)@ == image
            },
        },
        result is Err ==> final(raw_image)@ == old(raw_image)@ && final(encoded_image)@ == old(
            encoded_image,
        )@,
        final(encoded_image)@.len() == old(encoded_image)@.len(),
        result matches Ok(n) ==> n <= old(encoded_image)@.len(),
{
    let layout: ColorType = match raw_image.validate() {
        Ok(layout) => layout,
        Err(error) => {
            return Err(error);
        },
    };
    if flip_y {
        flip(raw_image.width, raw_image.height, layout, &mut raw_image.buffer);
    }
    let stream: Option<Vec<u8>> = if raw_image.png {
        match png_encode(&raw_image.buffer, raw_image.width, raw_image.height, layout) {
            Ok(bytes) => Some(bytes),
            Err(_) => None,
        }
    } else {
        match layout.jpeg_color_type() {
            Some(jpeg) => match jpeg_encode(
                &raw_image.buffer,
                raw_image.width as u16,
                raw_image.height as u16,
                jpeg,
                raw_image.quality,
            ) {
                Ok(bytes) => Some(bytes),
                Err(_) => None,
            },
            None => None,
        }
    };
    let result: Result<u32, EncodeError> = write_encoded(stream, encoded_image);
    if flip_y && result.is_err() {
        flip(raw_image.width, raw_image.height, layout, &mut raw_image.buffer);
        proof {
            lemma_flipped_twice(old(raw_image)@);
        }
    }
    result
}

} // verus!
