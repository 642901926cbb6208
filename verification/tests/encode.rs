use fast_image_encoder::{encode, get_color_type, write_encoded, EncodeError, RawImage};
use image::{DynamicImage, ImageFormat};

const PNG_SIGNATURE: [u8; 8] = [137, 80, 78, 71, 13, 10, 26, 10];
const FILL: u8 = 0xAA;

fn pattern(len: usize) -> Vec<u8> {
    (0..len).map(|i| ((i * 37 + i / 5 + 11) % 251) as u8).collect()
}

fn bytes_per_pixel(code: u8) -> usize {
    get_color_type(code).unwrap().bytes_per_pixel() as usize
}

fn raw(width: u32, height: u32, code: u8, png: bool, quality: u8) -> RawImage {
    let len: usize = width as usize * height as usize * bytes_per_pixel(code);
    RawImage { buffer: pattern(len), width, height, png, quality, color_type: code }
}

fn reversed_rows(data: &[u8], stride: usize) -> Vec<u8> {
    let mut out: Vec<u8> = Vec::with_capacity(data.len());
    for row in data.chunks(stride).rev() {
        out.extend_from_slice(row);
    }
    out
}

fn decode(bytes: &[u8], format: ImageFormat) -> DynamicImage {
    image::load_from_memory_with_format(bytes, format).unwrap()
}

#[test]
fn png_encodes_every_integer_layout() {
    for code in 0..=7u8 {
        let mut image: RawImage = raw(5, 4, code, true, 0);
        let before: RawImage = image.clone();
        let mut output: Vec<u8> = vec![FILL; 4096];
        let n: usize = encode(&mut image, &mut output, false).unwrap() as usize;
        assert!(n > 0);
        assert!(n <= 4096);
        assert_eq!(output.len(), 4096);
        assert_eq!(&output[..8], &PNG_SIGNATURE[..]);
        assert!(output[n..].iter().all(|b| *b == FILL));
        assert_eq!(image, before);

        let decoded: DynamicImage = decode(&output[..n], ImageFormat::Png);
        assert_eq!(decoded.width(), 5);
        assert_eq!(decoded.height(), 4);
        let layout = get_color_type(code).unwrap();
        assert_eq!(decoded.color().channel_count(), layout.channels());
        assert_eq!(decoded.color().bytes_per_pixel(), layout.bytes_per_pixel());
    }
}

#[test]
fn png_round_trip_gives_the_pixels_back() {
    for code in 0..=7u8 {
        for (width, height) in [(1u32, 1u32), (7, 3), (2, 9)] {
            let mut image: RawImage = raw(width, height, code, true, 0);
            let mut output: Vec<u8> = vec![0; 8192];
            let n: usize = encode(&mut image, &mut output, false).unwrap() as usize;
            let decoded: DynamicImage = decode(&output[..n], ImageFormat::Png);
            assert_eq!(decoded.as_bytes(), &image.buffer[..]);
        }
    }
}

#[test]
fn png_leaves_the_float_layouts_to_the_encoder() {
    for code in [8u8, 9] {
        let mut image: RawImage = raw(2, 2, code, true, 0);
        let before: RawImage = image.clone();
        let mut output: Vec<u8> = vec![FILL; 4096];
        let result = encode(&mut image, &mut output, false);
        assert_eq!(result, Err(EncodeError::EncoderFailed));
        assert!(output.iter().all(|b| *b == FILL));
        assert_eq!(image, before);
    }
}

#[test]
fn png_ignores_the_quality() {
    let mut low: RawImage = raw(6, 6, 2, true, 0);
    let mut high: RawImage = raw(6, 6, 2, true, 100);
    let mut out_low: Vec<u8> = vec![0; 4096];
    let mut out_high: Vec<u8> = vec![0; 4096];
    let n_low = encode(&mut low, &mut out_low, false).unwrap();
    let n_high = encode(&mut high, &mut out_high, false).unwrap();
    assert_eq!(n_low, n_high);
    assert_eq!(out_low, out_high);
}

#[test]
fn encoding_the_same_image_twice_gives_the_same_stream() {
    for (code, png) in [(3u8, true), (6, true), (2, false), (0, false)] {
        let mut first: RawImage = raw(9, 5, code, png, 80);
        let mut second: RawImage = raw(9, 5, code, png, 80);
        let mut out_first: Vec<u8> = vec![0; 8192];
        let mut out_second: Vec<u8> = vec![0; 8192];
        let n_first = encode(&mut first, &mut out_first, true).unwrap();
        let n_second = encode(&mut second, &mut out_second, true).unwrap();
        assert_eq!(n_first, n_second);
        assert_eq!(out_first, out_second);
    }
}

#[test]
fn jpeg_encodes_the_supported_layouts() {
    for code in [0u8, 2, 3] {
        let mut image: RawImage = raw(16, 8, code, false, 90);
        let before: RawImage = image.clone();
        let mut output: Vec<u8> = vec![FILL; 16384];
        let n: usize = encode(&mut image, &mut output, false).unwrap() as usize;
        assert!(n > 4);
        assert!(n <= 16384);
        assert_eq!(&output[..2], &[0xFF, 0xD8][..]);
        assert_eq!(&output[n - 2..n], &[0xFF, 0xD9][..]);
        assert!(output[n..].iter().all(|b| *b == FILL));
        assert_eq!(image, before);

        let decoded: DynamicImage = decode(&output[..n], ImageFormat::Jpeg);
        assert_eq!(decoded.width(), 16);
        assert_eq!(decoded.height(), 8);
    }
}

#[test]
fn jpeg_at_quality_100_stays_close_to_the_source() {
    let width: u32 = 16;
    let height: u32 = 16;
    let buffer: Vec<u8> = (0..width * height).map(|i| (40 + (i % width) * 6 + (i / width) * 4) as u8).collect();
    let mut image = RawImage { buffer, width, height, png: false, quality: 100, color_type: 0 };
    let mut output: Vec<u8> = vec![0; 16384];
    let n: usize = encode(&mut image, &mut output, false).unwrap() as usize;
    let decoded: DynamicImage = decode(&output[..n], ImageFormat::Jpeg);
    let luma = decoded.to_luma8();
    assert_eq!(luma.width(), width);
    assert_eq!(luma.height(), height);
    for (got, want) in luma.as_raw().iter().zip(image.buffer.iter()) {
        let difference: i32 = *got as i32 - *want as i32;
        assert!(difference.abs() <= 8);
    }
}

#[test]
fn jpeg_at_quality_1_is_smaller_than_at_quality_100() {
    for code in [0u8, 2, 3] {
        let mut low: RawImage = raw(32, 32, code, false, 1);
        let mut high: RawImage = raw(32, 32, code, false, 100);
        let mut out_low: Vec<u8> = vec![0; 65536];
        let mut out_high: Vec<u8> = vec![0; 65536];
        let n_low = encode(&mut low, &mut out_low, false).unwrap();
        let n_high = encode(&mut high, &mut out_high, false).unwrap();
        assert!(n_low < n_high);
    }
}

#[test]
fn jpeg_with_quality_0_succeeds() {
    let mut image: RawImage = raw(8, 8, 2, false, 0);
    let mut output: Vec<u8> = vec![0; 16384];
    let n: usize = encode(&mut image, &mut output, false).unwrap() as usize;
    let decoded: DynamicImage = decode(&output[..n], ImageFormat::Jpeg);
    assert_eq!(decoded.width(), 8);
    assert_eq!(decoded.height(), 8);
}

#[test]
fn a_single_pixel_is_encoded_in_both_formats() {
    for flip_y in [false, true] {
        let mut image = RawImage { buffer: vec![10, 20, 30], width: 1, height: 1, png: true, quality: 0, color_type: 2 };
        let mut output: Vec<u8> = vec![0; 1024];
        let n: usize = encode(&mut image, &mut output, flip_y).unwrap() as usize;
        let decoded: DynamicImage = decode(&output[..n], ImageFormat::Png);
        assert_eq!(decoded.as_bytes(), &[10u8, 20, 30][..]);
        assert_eq!(image.buffer, vec![10, 20, 30]);

        let mut image = RawImage { buffer: vec![200], width: 1, height: 1, png: false, quality: 0, color_type: 0 };
        let mut output: Vec<u8> = vec![0; 4096];
        let n: usize = encode(&mut image, &mut output, flip_y).unwrap() as usize;
        let decoded: DynamicImage = decode(&output[..n], ImageFormat::Jpeg);
        assert_eq!(decoded.width(), 1);
        assert_eq!(decoded.height(), 1);
    }
}

#[test]
fn jpeg_refuses_layouts_it_cannot_hold() {
    for code in [1u8, 4, 5, 6, 7, 8, 9] {
        for flip_y in [false, true] {
            let mut image: RawImage = raw(4, 4, code, false, 90);
            let before: RawImage = image.clone();
            let mut output: Vec<u8> = vec![FILL; 4096];
            let result = encode(&mut image, &mut output, flip_y);
            assert_eq!(result, Err(EncodeError::UnsupportedColorLayout));
            assert!(output.iter().all(|b| *b == FILL));
            assert_eq!(image, before);
        }
    }
}

#[test]
fn an_unknown_color_type_code_is_refused() {
    for png in [true, false] {
        for code in [10u8, 11, 100, 255] {
            let mut image = RawImage { buffer: vec![1, 2, 3, 4], width: 2, height: 2, png, quality: 50, color_type: code };
            let mut output: Vec<u8> = vec![FILL; 1024];
            let result = encode(&mut image, &mut output, true);
            assert_eq!(result, Err(EncodeError::InvalidColorLayout));
            assert_eq!(image.buffer, vec![1, 2, 3, 4]);
            assert!(output.iter().all(|b| *b == FILL));
        }
    }
}

#[test]
fn a_buffer_of_the_wrong_length_is_refused() {
    for png in [true, false] {
        for len in [0usize, 47, 49, 96] {
            let mut image = RawImage { buffer: pattern(len), width: 4, height: 4, png, quality: 50, color_type: 2 };
            let before: RawImage = image.clone();
            let mut output: Vec<u8> = vec![FILL; 4096];
            let result = encode(&mut image, &mut output, true);
            assert_eq!(result, Err(EncodeError::BufferSizeMismatch));
            assert_eq!(image, before);
            assert!(output.iter().all(|b| *b == FILL));
        }
    }
}

#[test]
fn jpeg_refuses_dimensions_above_65535() {
    let mut wide = RawImage { buffer: vec![0; 65536], width: 65536, height: 1, png: false, quality: 50, color_type: 0 };
    let mut tall = RawImage { buffer: vec![0; 65536], width: 1, height: 65536, png: false, quality: 50, color_type: 0 };
    let mut output: Vec<u8> = vec![FILL; 1024];
    assert_eq!(encode(&mut wide, &mut output, false), Err(EncodeError::DimensionsTooLarge));
    assert_eq!(encode(&mut tall, &mut output, true), Err(EncodeError::DimensionsTooLarge));
    assert!(output.iter().all(|b| *b == FILL));
    assert!(tall.buffer.iter().all(|b| *b == 0));
}

#[test]
fn jpeg_takes_the_largest_width() {
    let mut image = RawImage { buffer: vec![128; 65535], width: 65535, height: 1, png: false, quality: 50, color_type: 0 };
    let mut output: Vec<u8> = vec![0; 1 << 20];
    let n: usize = encode(&mut image, &mut output, false).unwrap() as usize;
    let decoded: DynamicImage = decode(&output[..n], ImageFormat::Jpeg);
    assert_eq!(decoded.width(), 65535);
    assert_eq!(decoded.height(), 1);
}

#[test]
fn png_takes_a_width_above_65535() {
    let mut image = RawImage { buffer: vec![7; 65536], width: 65536, height: 1, png: true, quality: 0, color_type: 0 };
    let mut output: Vec<u8> = vec![0; 1 << 20];
    let n: usize = encode(&mut image, &mut output, false).unwrap() as usize;
    let decoded: DynamicImage = decode(&output[..n], ImageFormat::Png);
    assert_eq!(decoded.width(), 65536);
    assert_eq!(decoded.height(), 1);
}

#[test]
fn an_image_without_pixels_fails_in_the_encoder() {
    for png in [true, false] {
        for (width, height) in [(0u32, 0u32), (0, 4), (4, 0)] {
            let mut image = RawImage { buffer: Vec::new(), width, height, png, quality: 50, color_type: 2 };
            let mut output: Vec<u8> = vec![FILL; 1024];
            let result = encode(&mut image, &mut output, true);
            assert_eq!(result, Err(EncodeError::EncoderFailed));
            assert!(output.iter().all(|b| *b == FILL));
        }
    }
}

#[test]
fn an_output_of_exactly_the_stream_length_is_filled() {
    for (code, png) in [(2u8, true), (7, true), (0, false), (3, false)] {
        let mut image: RawImage = raw(6, 5, code, png, 75);
        let mut large: Vec<u8> = vec![FILL; 16384];
        let n: usize = encode(&mut image, &mut large, false).unwrap() as usize;

        let mut exact: Vec<u8> = vec![FILL; n];
        assert_eq!(encode(&mut image, &mut exact, false), Ok(n as u32));
        assert_eq!(exact.len(), n);
        assert_eq!(&exact[..], &large[..n]);
    }
}

#[test]
fn an_output_one_byte_short_is_refused() {
    for (code, png) in [(2u8, true), (7, true), (0, false), (3, false)] {
        let mut image: RawImage = raw(6, 5, code, png, 75);
        let mut large: Vec<u8> = vec![FILL; 16384];
        let n: usize = encode(&mut image, &mut large, false).unwrap() as usize;

        let mut short: Vec<u8> = vec![FILL; n - 1];
        assert_eq!(encode(&mut image, &mut short, false), Err(EncodeError::OutputTooSmall));
        assert_eq!(short.len(), n - 1);
        assert!(short.iter().all(|b| *b == FILL));

        let mut none: Vec<u8> = Vec::new();
        assert_eq!(encode(&mut image, &mut none, false), Err(EncodeError::OutputTooSmall));
        assert!(none.is_empty());
    }
}

#[test]
fn flip_y_turns_the_image_upside_down_before_encoding() {
    for code in 0..=7u8 {
        for (width, height) in [(3u32, 2u32), (4, 5), (1, 7)] {
            let mut image: RawImage = raw(width, height, code, true, 0);
            let before: Vec<u8> = image.buffer.clone();
            let stride: usize = width as usize * bytes_per_pixel(code);
            let mut output: Vec<u8> = vec![0; 8192];
            let n: usize = encode(&mut image, &mut output, true).unwrap() as usize;
            let upside_down: Vec<u8> = reversed_rows(&before, stride);
            assert_ne!(upside_down, before);
            assert_eq!(image.buffer, upside_down);
            let decoded: DynamicImage = decode(&output[..n], ImageFormat::Png);
            assert_eq!(decoded.as_bytes(), &upside_down[..]);
            assert_eq!(image.width, width);
            assert_eq!(image.height, height);
            assert_eq!(image.color_type, code);
            assert!(image.png);

            let m: usize = encode(&mut image, &mut output, true).unwrap() as usize;
            assert_eq!(image.buffer, before);
            let decoded: DynamicImage = decode(&output[..m], ImageFormat::Png);
            assert_eq!(decoded.as_bytes(), &before[..]);
        }
    }
}

#[test]
fn flip_y_changes_the_jpeg_stream() {
    let mut plain: RawImage = raw(16, 16, 2, false, 95);
    let mut flipped: RawImage = raw(16, 16, 2, false, 95);
    let mut out_plain: Vec<u8> = vec![0; 16384];
    let mut out_flipped: Vec<u8> = vec![0; 16384];
    let n_plain: usize = encode(&mut plain, &mut out_plain, false).unwrap() as usize;
    let n_flipped: usize = encode(&mut flipped, &mut out_flipped, true).unwrap() as usize;
    assert_ne!(&out_plain[..n_plain], &out_flipped[..n_flipped]);
    assert_eq!(flipped.buffer, reversed_rows(&plain.buffer, 48));

    // Encoding the flipped pixels without a flip gives the same stream.
    let mut again = RawImage { buffer: flipped.buffer.clone(), ..raw(16, 16, 2, false, 95) };
    let mut out_again: Vec<u8> = vec![0; 16384];
    let n_again: usize = encode(&mut again, &mut out_again, false).unwrap() as usize;
    assert_eq!(&out_again[..n_again], &out_flipped[..n_flipped]);
}

#[test]
fn a_failed_call_leaves_the_image_as_it_was() {
    for png in [true, false] {
        let mut image: RawImage = raw(3, 4, 2, png, 60);
        let before: RawImage = image.clone();
        let mut output: Vec<u8> = vec![FILL; 4];
        assert_eq!(encode(&mut image, &mut output, true), Err(EncodeError::OutputTooSmall));
        assert_eq!(image, before);
        assert_eq!(output, vec![FILL; 4]);

        // With room for the stream the same call flips and encodes.
        let mut output: Vec<u8> = vec![FILL; 4096];
        assert!(encode(&mut image, &mut output, true).is_ok());
        assert_eq!(image.buffer, reversed_rows(&before.buffer, 9));
    }
}

#[test]
fn a_failed_encoder_leaves_the_image_as_it_was() {
    let mut image: RawImage = raw(3, 4, 9, true, 0);
    let before: RawImage = image.clone();
    let mut output: Vec<u8> = vec![FILL; 4096];
    assert_eq!(encode(&mut image, &mut output, true), Err(EncodeError::EncoderFailed));
    assert_eq!(image, before);
    assert!(output.iter().all(|b| *b == FILL));
}

#[test]
fn write_encoded_copies_a_stream_that_fits() {
    let mut output: Vec<u8> = vec![9, 9, 9, 9, 9];
    assert_eq!(write_encoded(Some(vec![1, 2, 3]), &mut output), Ok(3));
    assert_eq!(output, vec![1, 2, 3, 9, 9]);

    let mut output: Vec<u8> = vec![9, 9, 9];
    assert_eq!(write_encoded(Some(vec![4, 5, 6]), &mut output), Ok(3));
    assert_eq!(output, vec![4, 5, 6]);

    let mut output: Vec<u8> = vec![9, 9];
    assert_eq!(write_encoded(Some(Vec::new()), &mut output), Ok(0));
    assert_eq!(output, vec![9, 9]);

    let mut output: Vec<u8> = Vec::new();
    assert_eq!(write_encoded(Some(Vec::new()), &mut output), Ok(0));
    assert!(output.is_empty());
}

#[test]
fn write_encoded_refuses_a_stream_that_does_not_fit() {
    let mut output: Vec<u8> = vec![9, 9];
    assert_eq!(write_encoded(Some(vec![1, 2, 3]), &mut output), Err(EncodeError::OutputTooSmall));
    assert_eq!(output, vec![9, 9]);

    let mut output: Vec<u8> = Vec::new();
    assert_eq!(write_encoded(Some(vec![1]), &mut output), Err(EncodeError::OutputTooSmall));
    assert!(output.is_empty());
}

#[test]
fn write_encoded_reports_a_failed_encoder() {
    let mut output: Vec<u8> = vec![9, 9];
    assert_eq!(write_encoded(None, &mut output), Err(EncodeError::EncoderFailed));
    assert_eq!(output, vec![9, 9]);
}

#[test]
fn validate_names_the_first_fault() {
    let image = RawImage { buffer: vec![0; 5], width: 70000, height: 1, png: false, quality: 50, color_type: 12 };
    assert_eq!(image.validate(), Err(EncodeError::InvalidColorLayout));
    let image = RawImage { color_type: 6, ..image };
    assert_eq!(image.validate(), Err(EncodeError::UnsupportedColorLayout));
    let image = RawImage { color_type: 3, ..image };
    assert_eq!(image.validate(), Err(EncodeError::DimensionsTooLarge));
    let image = RawImage { width: 2, ..image };
    assert_eq!(image.validate(), Err(EncodeError::BufferSizeMismatch));
    let image = RawImage { buffer: vec![0; 8], ..image };
    assert_eq!(image.validate(), Ok(fast_image_encoder::ColorType::Rgba8));
    let image = RawImage { png: true, color_type: 6, buffer: vec![0; 12], ..image };
    assert_eq!(image.validate(), Ok(fast_image_encoder::ColorType::Rgb16));
}

#[test]
fn validate_does_not_overflow_on_huge_dimensions() {
    let image = RawImage { buffer: vec![0; 16], width: u32::MAX, height: u32::MAX, png: true, quality: 0, color_type: 9 };
    assert_eq!(image.validate(), Err(EncodeError::BufferSizeMismatch));
    let mut image = image;
    let mut output: Vec<u8> = vec![FILL; 16];
    assert_eq!(encode(&mut image, &mut output, true), Err(EncodeError::BufferSizeMismatch));
}
