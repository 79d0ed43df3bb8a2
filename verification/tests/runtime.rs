use glycin::color_state::parse_frame_cicp;
use glycin::editing::{clip, EditingFrame};
use glycin::handler::{channel_details, ColorType, ExtendedColorType};
use glycin::supervisor::{
    handshake_outcome, seal_backoff_step, HandshakeEvent, SealAttempt, SealStep,
    SEAL_GIVE_UP_MILLIS,
};
use glycin::{
    BinaryData, ColorState, Error, ExtendedMemoryFormat, FrameDetails, Handler, MemoryFormat,
    RemoteError,
};

#[test]
fn handshake_connected_proceeds() {
    let decision = handshake_outcome(HandshakeEvent::Connected, "worker".to_string());
    assert!(!decision.kill_worker);
    assert_eq!(decision.outcome, Ok(()));
}

#[test]
fn handshake_cancellation_kills_worker() {
    let decision = handshake_outcome(HandshakeEvent::Cancelled, "worker".to_string());
    assert!(decision.kill_worker);
    assert_eq!(decision.outcome, Err(Error::Cancelled));
}

#[test]
fn handshake_premature_exit_is_reported() {
    let decision =
        handshake_outcome(HandshakeEvent::Exited { status: 0 }, "bwrap loader".to_string());
    assert!(!decision.kill_worker);
    assert_eq!(
        decision.outcome,
        Err(Error::PrematureExit { status: 0, cmd: "bwrap loader".to_string() })
    );
}

#[test]
fn handshake_wait_failure_is_io() {
    let decision = handshake_outcome(
        HandshakeEvent::WaitFailed { err: "broken pipe".to_string() },
        "worker".to_string(),
    );
    assert!(!decision.kill_worker);
    assert_eq!(decision.outcome, Err(Error::Io("broken pipe".to_string())));
}

#[test]
fn seal_backoff_retries_until_bound() {
    assert_eq!(seal_backoff_step(SealAttempt::Sealed, 0), SealStep::Done);
    assert_eq!(
        seal_backoff_step(SealAttempt::Failed { err: "busy".to_string() }, 5_000),
        SealStep::Retry
    );
    assert_eq!(
        seal_backoff_step(SealAttempt::Failed { err: "busy".to_string() }, SEAL_GIVE_UP_MILLIS),
        SealStep::Retry
    );
    assert_eq!(
        seal_backoff_step(SealAttempt::Failed { err: "busy".to_string() }, SEAL_GIVE_UP_MILLIS + 1),
        SealStep::GiveUp { error: Error::MemFd("busy".to_string()) }
    );
}

fn details_with_cicp(cicp: Option<Vec<u8>>) -> FrameDetails {
    let mut details = FrameDetails::default();
    details.cicp = cicp;
    details
}

#[test]
fn cicp_parses_valid_code_points() {
    let state = parse_frame_cicp(&details_with_cicp(Some(vec![0x09, 0x10, 0x00, 0x01])));
    match state {
        Some(ColorState::Cicp(cicp)) => {
            assert_eq!(cicp.color_primaries, gufo_common::cicp::ColorPrimaries::Rec2020);
            assert_eq!(
                cicp.transfer_characteristics,
                gufo_common::cicp::TransferCharacteristics::Pq
            );
            assert_eq!(cicp.matrix_coefficients, gufo_common::cicp::MatrixCoefficients::Identity);
            assert_eq!(cicp.video_full_range_flag, gufo_common::cicp::VideoRangeFlag::Full);
        },
        other => panic!("expected parsed code points, got {:?}", other),
    }
}

#[test]
fn cicp_rejects_bad_range_flag_and_length() {
    assert!(parse_frame_cicp(&details_with_cicp(Some(vec![0x09, 0x10, 0x00, 0x02]))).is_none());
    assert!(parse_frame_cicp(&details_with_cicp(Some(vec![0x09, 0x10, 0x00]))).is_none());
    assert!(parse_frame_cicp(&details_with_cicp(None)).is_none());
    assert!(ColorState::Srgb.is_srgb());
}

#[test]
fn handler_builder_and_details() {
    let handler = Handler::default()
        .format_name("PNG".to_string())
        .default_bit_depth(8)
        .supports_two_alpha_modes(true)
        .supports_two_grayscale_modes(true);

    let info = handler.info(321, 654);
    assert_eq!(info.width, 321);
    assert_eq!(info.height, 654);
    assert_eq!(info.format_name, Some("PNG".to_string()));

    // bit depth equals the default: omitted; alpha and grayscale reported
    let details = handler.frame_details(None, ExtendedColorType::Rgba8);
    assert_eq!(details.bit_depth, None);
    assert_eq!(details.alpha_channel, Some(true));
    assert_eq!(details.grayscale, Some(false));

    // sixteen bits differ from the default of eight
    let details = handler.frame_details(Some(BinaryData::new(4)), ExtendedColorType::L16);
    assert_eq!(details.bit_depth, Some(16));
    assert_eq!(details.alpha_channel, Some(false));
    assert_eq!(details.grayscale, Some(true));
    assert_eq!(details.iccp, Some(BinaryData::new(4)));

    // a handler that admits no variation reports nothing
    let plain = Handler::default();
    let details = plain.frame_details(None, ExtendedColorType::Rgb8);
    assert_eq!(details.bit_depth, Some(8));
    assert_eq!(details.alpha_channel, None);
    assert_eq!(details.grayscale, None);

    let details = plain.frame_details(None, ExtendedColorType::Other);
    assert_eq!(details.bit_depth, None);
    assert_eq!(details.alpha_channel, None);
    assert_eq!(details.grayscale, None);
}

#[test]
fn handler_simple_frame() {
    let handler = Handler::default();
    let frame = handler
        .simple_frame(4, 3, ExtendedMemoryFormat::Basic(MemoryFormat::R8g8b8))
        .unwrap();
    assert_eq!(
        frame,
        EditingFrame {
            width: 4,
            height: 3,
            stride: 12,
            memory_format: ExtendedMemoryFormat::Basic(MemoryFormat::R8g8b8),
        }
    );
    let r = handler.simple_frame(
        0x4000_0000,
        1,
        ExtendedMemoryFormat::Basic(MemoryFormat::R32g32b32a32Float),
    );
    assert_eq!(r, Err(Error::DimensionOverflow));
}

#[test]
fn channel_details_table() {
    assert_eq!(channel_details(ExtendedColorType::L1), Some((false, true, 1)));
    assert_eq!(channel_details(ExtendedColorType::Rgba8), Some((true, false, 8)));
    assert_eq!(channel_details(ExtendedColorType::A8), Some((true, false, 8)));
    assert_eq!(channel_details(ExtendedColorType::Unknown(12)), Some((false, false, 12)));
    assert_eq!(channel_details(ExtendedColorType::Other), None);
}

#[test]
fn color_type_mapping_round_trips() {
    let types = [
        ColorType::L8,
        ColorType::La8,
        ColorType::Rgb8,
        ColorType::Rgba8,
        ColorType::L16,
        ColorType::La16,
        ColorType::Rgb16,
        ColorType::Rgba16,
        ColorType::Rgb32F,
        ColorType::Rgba32F,
    ];
    for ct in types {
        let format = MemoryFormat::from_color_type(ct);
        assert_eq!(format.to_color_type(), Some(ct));
    }
    assert_eq!(MemoryFormat::B8g8r8a8.to_color_type(), None);
    assert_eq!(
        ExtendedMemoryFormat::Basic(MemoryFormat::G8).to_color_type(),
        Some(ColorType::L8)
    );
    assert_eq!(ExtendedMemoryFormat::Y8Cb8Cr8.to_color_type(), None);
}

#[test]
fn clip_cuts_the_rectangle() {
    // a 4x2 gray image with one padding byte per row (stride 5)
    let buf = vec![
        10, 11, 12, 13, 0xaa, // row 0
        20, 21, 22, 23, 0xbb, // row 1
    ];
    let mut frame = EditingFrame {
        width: 4,
        height: 2,
        stride: 5,
        memory_format: ExtendedMemoryFormat::Basic(MemoryFormat::G8),
    };
    let out = clip(buf, &mut frame, (1, 1, 2, 1)).unwrap();
    assert_eq!(out, vec![21, 22]);
    assert_eq!(frame.width, 2);
    assert_eq!(frame.height, 1);
    assert_eq!(frame.stride, 2);
}

#[test]
fn clip_rejects_rectangle_outside_buffer() {
    let buf = vec![0u8; 10];
    let mut frame = EditingFrame {
        width: 4,
        height: 2,
        stride: 5,
        memory_format: ExtendedMemoryFormat::Basic(MemoryFormat::G8),
    };
    let before = frame;
    let r = clip(buf, &mut frame, (3, 1, 4, 1));
    assert!(matches!(r, Err(Error::Io(_))));
    assert_eq!(frame, before);
}

#[test]
fn unsupported_format_extraction() {
    let err = Error::UnknownImageFormat("image/avif".to_string());
    assert_eq!(err.unsupported_format(), Some("image/avif".to_string()));
    let err = Error::RemoteError(RemoteError::UnsupportedImageFormat("image/heic".to_string()));
    assert_eq!(err.unsupported_format(), Some("image/heic".to_string()));
    assert_eq!(Error::TextureTooLarge.unsupported_format(), None);
    assert_eq!(
        Error::RemoteError(RemoteError::Error("boom".to_string())).unsupported_format(),
        None
    );
}
