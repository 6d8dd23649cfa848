use breezer::media::{decode_jpeg_to_rgba, fmt_duration_secs, placeholder_cover_rgba, rgb_to_rgba};

#[test]
fn durations() {
    assert_eq!(fmt_duration_secs(83), "1:23");
    assert_eq!(fmt_duration_secs(0), "0:00");
    assert_eq!(fmt_duration_secs(59), "0:59");
    assert_eq!(fmt_duration_secs(600), "10:00");
    assert_eq!(fmt_duration_secs(3725), "62:05");
}

#[test]
fn rgb_pixels_gain_opaque_alpha() {
    let px = [1u8, 2, 3, 4, 5, 6, 7];
    assert_eq!(rgb_to_rgba(&px, 2, 1), Some(vec![1, 2, 3, 255, 4, 5, 6, 255]));
    assert_eq!(rgb_to_rgba(&px, 3, 1), None);
    assert_eq!(rgb_to_rgba(&[], 0, 5), Some(vec![]));
}

#[test]
fn not_a_jpeg_gives_no_cover() {
    assert_eq!(decode_jpeg_to_rgba(b"definitely not a jpeg"), None);
    assert_eq!(decode_jpeg_to_rgba(&[]), None);
}

#[test]
fn placeholder() {
    let (w, h, px) = placeholder_cover_rgba();
    assert_eq!((w, h, px.len()), (250, 250, 250_000));
    assert!(px.chunks_exact(4).all(|p| p == [24, 28, 36, 255]));
}

/// A baseline 8x8 JPEG, three components, every coefficient zero: mid grey.
fn grey_jpeg() -> Vec<u8> {
    let mut j = vec![0xFF, 0xD8];
    j.extend_from_slice(&[0xFF, 0xDB, 0x00, 0x43, 0x00]);
    j.extend_from_slice(&[1u8; 64]);
    j.extend_from_slice(&[
        0xFF, 0xC0, 0x00, 0x11, 0x08, 0x00, 0x08, 0x00, 0x08, 0x03, 0x01, 0x11, 0x00, 0x02, 0x11, 0x00, 0x03,
        0x11, 0x00,
    ]);
    for class in [0x00u8, 0x10u8] {
        j.extend_from_slice(&[0xFF, 0xC4, 0x00, 0x14, class, 0x01]);
        j.extend_from_slice(&[0u8; 15]);
        j.push(0x00);
    }
    j.extend_from_slice(&[0xFF, 0xDA, 0x00, 0x0C, 0x03, 0x01, 0x00, 0x02, 0x00, 0x03, 0x00, 0x00, 0x3F, 0x00]);
    j.push(0x03);
    j.extend_from_slice(&[0xFF, 0xD9]);
    j
}

#[test]
fn jpeg_cover_decodes_to_rgba() {
    let (w, h, rgba) = decode_jpeg_to_rgba(&grey_jpeg()).expect("decodes");
    assert_eq!((w, h, rgba.len()), (8, 8, 256));
    assert!(rgba.chunks_exact(4).all(|p| p[3] == 255));
    assert!(rgba.chunks_exact(4).all(|p| p[0] == p[1] && p[1] == p[2]));
}

#[test]
fn unsupported_frame_headers_give_no_cover() {
    // SOI, then a baseline frame header with two components.
    let two = vec![0xFF, 0xD8, 0xFF, 0xC0, 0x00, 0x0C, 0x08, 0x00, 0x08, 0x00, 0x08, 0x02, 1, 0x11, 0, 2, 0x11, 0];
    assert_eq!(decode_jpeg_to_rgba(&two), None);
    // A single component with a one-bit precision (lossless frame).
    let one_bit = vec![0xFF, 0xD8, 0xFF, 0xC3, 0x00, 0x09, 0x01, 0x00, 0x08, 0x00, 0x08, 0x01, 1, 0x11, 0];
    assert_eq!(decode_jpeg_to_rgba(&one_bit), None);
    // A frame marker inside a comment segment is skipped by the decoder.
    let mut commented = grey_jpeg();
    let com = [0xFF, 0xFE, 0x00, 0x06, 0xFF, 0xC0, 0x00, 0x02];
    commented.splice(2..2, com.iter().copied());
    assert!(decode_jpeg_to_rgba(&commented).is_some());
}
