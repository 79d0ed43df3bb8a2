use glycin::{ChannelType, ConvertError, ExtendedMemoryFormat, MemoryFormat, MemoryFormatBytes, MemoryFormatInfo};

#[test]
fn simple() {
    let mut target = vec![0u8; 4];

    MemoryFormat::transform(
        MemoryFormat::R8g8b8,
        &vec![255, 85, 127],
        MemoryFormat::B8g8r8a8,
        &mut target,
    )
    .unwrap();

    assert_eq!(target, vec![127, 85, 255, 255]);
}

#[test]
fn grayscale() {
    let mut target = vec![0u8; 1];

    MemoryFormat::transform(
        MemoryFormat::R8g8b8,
        &vec![255, 0, 127],
        MemoryFormat::G8,
        &mut target,
    )
    .unwrap();

    assert_eq!(target, vec![127]);
}

#[test]
fn u16() {
    let mut target = vec![0u8; 6];

    MemoryFormat::transform(
        MemoryFormat::R8g8b8,
        &vec![255, 0, 127],
        MemoryFormat::R16g16b16,
        &mut target,
    )
    .unwrap();

    assert_eq!(target, vec![255, 255, 0, 0, 127, 127]);
}

#[test]
fn sixteen_bit_to_eight_bit() {
    let mut target = vec![0u8; 3];
    MemoryFormat::transform(
        MemoryFormat::R16g16b16,
        &vec![0xff, 0xff, 0x00, 0x00, 0x7f, 0x7f],
        MemoryFormat::R8g8b8,
        &mut target,
    )
    .unwrap();
    assert_eq!(target, vec![255, 0, 127]);
}

#[test]
fn premultiply_half_alpha() {
    let mut target = vec![0u8; 4];
    MemoryFormat::transform(
        MemoryFormat::R8g8b8a8,
        &vec![100, 200, 40, 128],
        MemoryFormat::R8g8b8a8Premultiplied,
        &mut target,
    )
    .unwrap();
    // round(c * 128 / 255) for each color channel, alpha kept
    assert_eq!(target, vec![50, 100, 20, 128]);
}

#[test]
fn premultiply_round_trip_opaque() {
    let pixel = vec![13, 77, 255, 255];
    let mut premultiplied = vec![0u8; 4];
    MemoryFormat::transform(
        MemoryFormat::R8g8b8a8,
        &pixel,
        MemoryFormat::R8g8b8a8Premultiplied,
        &mut premultiplied,
    )
    .unwrap();
    assert_eq!(premultiplied, pixel);
    let mut back = vec![0u8; 4];
    MemoryFormat::transform(
        MemoryFormat::R8g8b8a8Premultiplied,
        &premultiplied,
        MemoryFormat::R8g8b8a8,
        &mut back,
    )
    .unwrap();
    assert_eq!(back, pixel);
}

#[test]
fn lossless_permutation_round_trip() {
    let pixel = vec![1, 2, 3, 4];
    let mut bgra = vec![0u8; 4];
    MemoryFormat::transform(
        MemoryFormat::R8g8b8a8,
        &pixel,
        MemoryFormat::B8g8r8a8,
        &mut bgra,
    )
    .unwrap();
    assert_eq!(bgra, vec![3, 2, 1, 4]);
    let mut back = vec![0u8; 4];
    MemoryFormat::transform(
        MemoryFormat::B8g8r8a8,
        &bgra,
        MemoryFormat::R8g8b8a8,
        &mut back,
    )
    .unwrap();
    assert_eq!(back, pixel);
}

#[test]
fn gray_duplicates_into_rgb() {
    let mut target = vec![0u8; 3];
    MemoryFormat::transform(MemoryFormat::G8, &vec![77], MemoryFormat::R8g8b8, &mut target)
        .unwrap();
    assert_eq!(target, vec![77, 77, 77]);
}

#[test]
fn abgr_channel_order() {
    let mut target = vec![0u8; 4];
    MemoryFormat::transform(
        MemoryFormat::R8g8b8,
        &vec![1, 2, 3],
        MemoryFormat::A8b8g8r8,
        &mut target,
    )
    .unwrap();
    assert_eq!(target, vec![255, 3, 2, 1]);
    let mut back = vec![0u8; 3];
    MemoryFormat::transform(
        MemoryFormat::A8b8g8r8,
        &target,
        MemoryFormat::R8g8b8,
        &mut back,
    )
    .unwrap();
    assert_eq!(back, vec![1, 2, 3]);
}

#[test]
fn transform_rejects_bad_sizes() {
    let mut target = vec![0u8; 4];
    let r = MemoryFormat::transform(
        MemoryFormat::R8g8b8,
        &vec![255, 0],
        MemoryFormat::B8g8r8a8,
        &mut target,
    );
    assert_eq!(r, Err(ConvertError::SizeError));

    let mut short = vec![0u8; 3];
    let r = MemoryFormat::transform(
        MemoryFormat::R8g8b8,
        &vec![255, 0, 127],
        MemoryFormat::B8g8r8a8,
        &mut short,
    );
    assert_eq!(r, Err(ConvertError::TruncationError));
    assert_eq!(short, vec![0, 0, 0]);
}

#[test]
fn change_memory_format_drops_row_padding() {
    // two rows of two R8g8b8 pixels, one byte of padding per row
    let buf = vec![
        255, 0, 127, 30, 60, 90, 0xaa, // row 0 + padding
        9, 9, 9, 255, 255, 255, 0xbb, // row 1 + padding
    ];
    let out = glycin::convert::change_memory_format(
        MemoryFormat::R8g8b8,
        &buf,
        2,
        2,
        7,
        MemoryFormat::G8,
    )
    .unwrap();
    assert_eq!(out, vec![127, 60, 9, 255]);
}

#[test]
fn change_memory_format_rejects_short_buffer() {
    let buf = vec![0u8; 5];
    let r = glycin::convert::change_memory_format(
        MemoryFormat::R8g8b8,
        &buf,
        2,
        1,
        6,
        MemoryFormat::G8,
    );
    assert_eq!(r, Err(ConvertError::SizeError));
}

#[test]
fn format_properties() {
    assert_eq!(MemoryFormat::R8g8b8.n_bytes(), MemoryFormatBytes::B3);
    assert_eq!(MemoryFormat::R8g8b8.n_bytes().u32(), 3);
    assert_eq!(MemoryFormat::R16g16b16a16.n_bytes().u64(), 8);
    assert_eq!(MemoryFormat::G16.n_bytes().usize(), 2);
    assert_eq!(MemoryFormat::R8g8b8.n_channels(), 3);
    assert_eq!(MemoryFormat::G8a8.n_channels(), 2);
    assert_eq!(MemoryFormat::R16g16b16.channel_type(), ChannelType::U16);
    assert_eq!(MemoryFormat::R16g16b16Float.channel_type(), ChannelType::F16);
    assert_eq!(MemoryFormat::R32g32b32Float.channel_type(), ChannelType::F32);
    assert_eq!(ChannelType::U16.size(), 2);
    assert_eq!(ChannelType::F32.size(), 4);
    assert!(MemoryFormat::B8g8r8a8.has_alpha());
    assert!(!MemoryFormat::B8g8r8.has_alpha());
    assert!(MemoryFormat::G8a8Premultiplied.is_premultiplied());
    assert!(!MemoryFormat::G8a8.is_premultiplied());
}

#[test]
fn extended_format_properties() {
    let basic = ExtendedMemoryFormat::from(MemoryFormat::R8g8b8a8);
    assert_eq!(basic.n_bytes().u32(), 4);
    assert_eq!(basic.n_channels(), 4);
    assert_eq!(basic.basic(), Some(MemoryFormat::R8g8b8a8));
    assert_eq!(ExtendedMemoryFormat::Y8Cb8Cr8.n_bytes().u32(), 3);
    assert_eq!(ExtendedMemoryFormat::Y8Cb8Cr8.n_channels(), 3);
    assert_eq!(ExtendedMemoryFormat::Y8Cb8Cr8.basic(), None);
}
