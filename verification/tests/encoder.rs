use screencast::capture::encoder::{encode, finish_encode, EncodeError, MAX_ENCODED_SIDE};
use screencast::error::AppError;
use screencast::frame::RawFrame;

fn gradient(width: u32, height: u32) -> RawFrame {
    let mut data = Vec::new();
    for y in 0..height {
        for x in 0..width {
            data.push((x * 7 % 256) as u8);
            data.push((y * 11 % 256) as u8);
            data.push(((x + y) * 3 % 256) as u8);
            data.push(255);
        }
    }
    RawFrame::new(width, height, (width as usize) * 4, data).unwrap()
}

#[test]
fn encoded_frame_decodes_to_the_same_dimensions() {
    for (width, height) in [(1u32, 1u32), (2, 2), (8, 8), (17, 5), (64, 48)] {
        let frame = gradient(width, height);
        let encoded = encode(&frame, 80).unwrap();
        let decoded = image::load_from_memory_with_format(
            encoded.payload(),
            image::ImageFormat::Jpeg,
        )
        .unwrap();
        assert_eq!(decoded.width(), width);
        assert_eq!(decoded.height(), height);
        assert_eq!(encoded.width(), width);
        assert_eq!(encoded.height(), height);
    }
}

#[test]
fn encoded_frame_is_tagged_with_quality_and_length() {
    let frame = gradient(16, 16);
    for quality in [1u8, 50, 100] {
        let encoded = encode(&frame, quality).unwrap();
        assert_eq!(encoded.quality(), quality);
        assert_eq!(encoded.len(), encoded.payload().len());
        assert!(encoded.len() > 0);
    }
}

#[test]
fn encoded_payload_is_framed_by_jpeg_markers() {
    let frame = gradient(9, 7);
    let encoded = encode(&frame, 75).unwrap();
    let bytes = encoded.payload();
    assert!(bytes.len() >= 4);
    assert_eq!(&bytes[..2], &[0xFF, 0xD8]);
    assert_eq!(&bytes[bytes.len() - 2..], &[0xFF, 0xD9]);
    // the payload is not the pixels handed in
    assert_ne!(bytes, &frame.packed());
}

#[test]
fn decoded_picture_is_close_to_the_source() {
    // a solid red picture comes back reddish
    let mut data = Vec::new();
    for _ in 0..64 {
        data.extend_from_slice(&[255, 0, 0, 255]);
    }
    let frame = RawFrame::new(8, 8, 32, data).unwrap();
    let encoded = encode(&frame, 90).unwrap();
    let decoded =
        image::load_from_memory_with_format(encoded.payload(), image::ImageFormat::Jpeg)
            .unwrap()
            .to_rgb8();
    let pixel = decoded.get_pixel(3, 3);
    assert!(pixel[0] > 0x80);
    assert!(pixel[1] < 0x80);
    assert!(pixel[2] < 0x80);
}

#[test]
fn padded_frame_encodes_as_its_packed_twin() {
    let tight = gradient(5, 3);
    let mut padded = Vec::new();
    for row in tight.data().chunks(20) {
        padded.extend_from_slice(row);
        padded.extend_from_slice(&[0xEE; 12]);
    }
    let wide = RawFrame::new(5, 3, 32, padded).unwrap();
    let a = encode(&tight, 80).unwrap();
    let b = encode(&wide, 80).unwrap();
    assert_eq!(a.payload(), b.payload());
}

#[test]
fn higher_quality_does_not_shrink_a_busy_picture() {
    let frame = gradient(64, 64);
    let low = encode(&frame, 5).unwrap();
    let high = encode(&frame, 95).unwrap();
    assert!(high.len() > low.len());
}

#[test]
fn frame_without_pixels_is_refused() {
    let empty = RawFrame::new(0, 0, 0, Vec::new()).unwrap();
    assert!(matches!(encode(&empty, 80), Err(EncodeError::EmptyFrame)));
    let no_rows = RawFrame::new(4, 0, 16, Vec::new()).unwrap();
    assert!(matches!(encode(&no_rows, 80), Err(EncodeError::EmptyFrame)));
    let no_columns = RawFrame::new(0, 4, 0, Vec::new()).unwrap();
    assert!(matches!(encode(&no_columns, 80), Err(EncodeError::EmptyFrame)));
}

#[test]
fn frame_with_a_side_too_long_is_refused() {
    let side = MAX_ENCODED_SIDE + 1;
    let wide = RawFrame::new(side, 1, (side as usize) * 4, vec![0u8; (side as usize) * 4]).unwrap();
    assert!(matches!(encode(&wide, 80), Err(EncodeError::TooLarge)));
    let tall = RawFrame::new(1, side, 4, vec![0u8; (side as usize) * 4]).unwrap();
    assert!(matches!(encode(&tall, 80), Err(EncodeError::TooLarge)));
}

#[test]
fn frame_with_the_longest_side_is_encoded() {
    let side = MAX_ENCODED_SIDE;
    let wide = RawFrame::new(side, 1, (side as usize) * 4, vec![0u8; (side as usize) * 4]).unwrap();
    let encoded = encode(&wide, 50).unwrap();
    assert_eq!(encoded.width(), side);
    assert_eq!(encoded.height(), 1);
}

#[test]
fn finish_encode_tags_the_payload() {
    let done = finish_encode(Ok(vec![1, 2, 3]), 10, 20, 30).unwrap();
    assert_eq!(done.payload(), &vec![1u8, 2, 3]);
    assert_eq!((done.width(), done.height(), done.quality()), (10, 20, 30));
}

#[test]
fn finish_encode_keeps_the_codec_failure() {
    let failed = finish_encode(Err("boom".to_string()), 10, 20, 30);
    match failed {
        Err(EncodeError::Codec(reason)) => assert_eq!(reason, "boom"),
        _ => panic!("expected a codec failure"),
    }
}

#[test]
fn encode_error_becomes_a_capture_error() {
    match EncodeError::Codec("boom".to_string()).into_app_error() {
        AppError::CaptureError(m) => assert_eq!(m, "Failed to encode JPEG: boom"),
        _ => panic!("expected a capture error"),
    }
    match EncodeError::EmptyFrame.into_app_error() {
        AppError::CaptureError(m) => assert_eq!(m, "Failed to encode JPEG: frame has no pixels"),
        _ => panic!("expected a capture error"),
    }
    match EncodeError::TooLarge.into_app_error() {
        AppError::CaptureError(m) => assert_eq!(m, "Failed to encode JPEG: frame is too large"),
        _ => panic!("expected a capture error"),
    }
}

#[test]
fn every_frame_within_the_size_limits_is_encoded() {
    for (width, height) in [(1u32, 1u32), (1, 300), (300, 1), (3, 7), (33, 9)] {
        for quality in [1u8, 100] {
            let frame = gradient(width, height);
            assert!(encode(&frame, quality).is_ok());
        }
    }
}

#[test]
fn the_same_frame_encodes_to_the_same_bytes() {
    let a = encode(&gradient(13, 11), 70).unwrap();
    let b = encode(&gradient(13, 11), 70).unwrap();
    assert_eq!(a.payload(), b.payload());
    let c = encode(&gradient(13, 11), 71).unwrap();
    assert_ne!(a.payload(), c.payload());
}
