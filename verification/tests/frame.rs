use glycin::frame::{remove_stride_if_needed, validate_frame, MAX_TEXTURE_SIZE};
use glycin::{BinaryData, Error, Frame, FrameDetails, ImageInfo, MemoryFormat};

fn test_frame(width: u32, height: u32, stride: u32, memory_format: MemoryFormat) -> Frame {
    Frame {
        width,
        height,
        stride,
        memory_format,
        texture: BinaryData::new(3),
        delay: None,
        details: FrameDetails::default(),
    }
}

#[test]
fn validator_accepts_sane_frame() {
    let frame = test_frame(2, 2, 8, MemoryFormat::R8g8b8a8);
    assert_eq!(validate_frame(&frame, 16), Ok(()));
    // extra texture bytes are fine
    assert_eq!(validate_frame(&frame, 64), Ok(()));
}

#[test]
fn validator_rejects_small_stride() {
    // width=2, height=2, stride=3, but four bytes per pixel
    let frame = test_frame(2, 2, 3, MemoryFormat::R8g8b8a8);
    assert_eq!(validate_frame(&frame, 64), Err(Error::StrideTooSmall));
}

#[test]
fn validator_rejects_small_texture() {
    let frame = test_frame(2, 2, 8, MemoryFormat::R8g8b8a8);
    assert_eq!(
        validate_frame(&frame, 15),
        Err(Error::TextureTooSmall { actual: 15, declared: 16 })
    );
}

#[test]
fn validator_rejects_zero_dimension() {
    let frame = test_frame(0, 2, 8, MemoryFormat::R8g8b8a8);
    assert_eq!(validate_frame(&frame, 64), Err(Error::WidthOrHeightZero));
    let frame = test_frame(2, 0, 8, MemoryFormat::R8g8b8a8);
    assert_eq!(validate_frame(&frame, 64), Err(Error::WidthOrHeightZero));
}

#[test]
fn validator_rejects_giant_texture() {
    // 4e9 * 3 = 1.2e10 bytes, over the 8 GB bound
    let frame = test_frame(2, 3, 4_000_000_000, MemoryFormat::R8g8b8a8);
    assert_eq!(validate_frame(&frame, u64::MAX), Err(Error::TextureTooLarge));
    assert_eq!(MAX_TEXTURE_SIZE, 8_000_000_000);
}

#[test]
fn validator_rejects_oversized_dimension() {
    // width over i32::MAX passes the size checks but not the i32 one
    let frame = test_frame(0x8000_0000, 1, 0x8000_0000, MemoryFormat::G8);
    assert_eq!(validate_frame(&frame, u64::MAX), Err(Error::DimensionOverflow));
}

#[test]
fn frame_new_packs_rows() {
    let frame = Frame::new(10, 5, MemoryFormat::R8g8b8, BinaryData::new(7)).unwrap();
    assert_eq!(frame.stride, 30);
    assert_eq!(frame.width, 10);
    assert_eq!(frame.height, 5);
    assert_eq!(frame.texture.as_raw_fd(), 7);
    assert_eq!(frame.delay, None);
    assert_eq!(frame.n_bytes().unwrap(), 150);
}

#[test]
fn frame_new_rejects_overflowing_stride() {
    let r = Frame::new(0x4000_0000, 1, MemoryFormat::R32g32b32a32Float, BinaryData::new(7));
    assert_eq!(r, Err(Error::DimensionOverflow));
}

#[test]
fn stride_normalization_packs_rows() {
    // width=2, height=2, stride=7, three bytes per pixel, one padding byte
    let mut frame = test_frame(2, 2, 7, MemoryFormat::R8g8b8);
    let mut buf = vec![
        1, 2, 3, 4, 5, 6, 0xaa, // row 0 + padding
        7, 8, 9, 10, 11, 12, 0xbb, // row 1 + padding
    ];
    remove_stride_if_needed(&mut buf, &mut frame);
    assert_eq!(frame.stride, 6);
    assert_eq!(frame.width, 2);
    assert_eq!(frame.height, 2);
    assert_eq!(buf, vec![1, 2, 3, 4, 5, 6, 7, 8, 9, 10, 11, 12]);

    // a second application changes nothing
    let frame_before = frame.clone();
    let buf_before = buf.clone();
    remove_stride_if_needed(&mut buf, &mut frame);
    assert_eq!(frame, frame_before);
    assert_eq!(buf, buf_before);
}

#[test]
fn stride_normalization_keeps_whole_pixel_strides() {
    // stride 8 is not tight but is a whole number of 4-byte pixels
    let mut frame = test_frame(1, 2, 8, MemoryFormat::R8g8b8a8);
    let mut buf = vec![0u8; 16];
    buf[8] = 42;
    remove_stride_if_needed(&mut buf, &mut frame);
    assert_eq!(frame.stride, 8);
    assert_eq!(buf.len(), 16);
    assert_eq!(buf[8], 42);
}

#[test]
fn image_info_defaults() {
    let info = ImageInfo::new(640, 480);
    assert_eq!(info.width, 640);
    assert_eq!(info.height, 480);
    assert_eq!(info.format_name, None);
    assert!(!info.transformations_applied);
    assert_eq!(info.dimensions_text, None);
}

#[test]
fn n_bytes_overflow_is_reported() {
    let frame = test_frame(1, u32::MAX, u32::MAX, MemoryFormat::G8);
    if usize::MAX as u64 >= (u32::MAX as u64) * (u32::MAX as u64) {
        assert!(frame.n_bytes().is_ok());
    } else {
        assert_eq!(frame.n_bytes(), Err(Error::DimensionOverflow));
    }
}
