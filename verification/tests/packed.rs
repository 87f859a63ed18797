use livekit_media::packed::check_packed;
use livekit_media::packed::PackedLayout;
use livekit_media::video_frame::ConvertError;
use livekit_media::video_frame::VideoFormatType;

#[test]
fn tight_destination_is_accepted() {
    let layout = check_packed(4, 2, VideoFormatType::RGBA, 32, 16, 4, 2).unwrap();
    assert_eq!(
        layout,
        PackedLayout {
            format: VideoFormatType::RGBA,
            width: 4,
            height: 2,
            stride: 16,
            byte_len: 32
        }
    );
}

#[test]
fn padded_destination_spans_stride_times_height() {
    let layout = check_packed(4, 2, VideoFormatType::BGRA, 100, 20, 4, 2).unwrap();
    assert_eq!(layout.stride, 20);
    assert_eq!(layout.byte_len, 40);
    assert_eq!(layout.format, VideoFormatType::BGRA);
}

#[test]
fn destination_one_byte_short_is_too_small() {
    assert_eq!(
        check_packed(4, 2, VideoFormatType::RGBA, 31, 16, 4, 2),
        Err(ConvertError::BufferTooSmall)
    );
    assert_eq!(
        check_packed(4, 2, VideoFormatType::RGBA, 39, 20, 4, 2),
        Err(ConvertError::BufferTooSmall)
    );
    assert_eq!(
        check_packed(4, 2, VideoFormatType::RGBA, 0, 16, 4, 2),
        Err(ConvertError::BufferTooSmall)
    );
}

#[test]
fn stride_shorter_than_a_row_is_a_mismatch() {
    assert_eq!(
        check_packed(4, 2, VideoFormatType::ARGB, 1000, 15, 4, 2),
        Err(ConvertError::DimensionMismatch)
    );
    assert_eq!(
        check_packed(4, 2, VideoFormatType::ARGB, 1000, 0, 4, 2),
        Err(ConvertError::DimensionMismatch)
    );
}

#[test]
fn other_extent_than_the_source_is_a_mismatch() {
    assert_eq!(
        check_packed(4, 2, VideoFormatType::ABGR, 1000, 16, 2, 2),
        Err(ConvertError::DimensionMismatch)
    );
    assert_eq!(
        check_packed(4, 2, VideoFormatType::ABGR, 1000, 16, 4, 4),
        Err(ConvertError::DimensionMismatch)
    );
    assert_eq!(
        check_packed(4, 2, VideoFormatType::ABGR, 1000, 16, -4, 2),
        Err(ConvertError::DimensionMismatch)
    );
    assert_eq!(
        check_packed(4, 2, VideoFormatType::ABGR, 1000, 16, 4, -2),
        Err(ConvertError::DimensionMismatch)
    );
}

#[test]
fn mismatch_is_reported_before_capacity() {
    assert_eq!(
        check_packed(4, 2, VideoFormatType::RGBA, 0, 8, 4, 2),
        Err(ConvertError::DimensionMismatch)
    );
}

#[test]
fn empty_frame_needs_no_bytes() {
    let layout = check_packed(0, 0, VideoFormatType::RGBA, 0, 0, 0, 0).unwrap();
    assert_eq!(layout.byte_len, 0);
}

#[test]
fn every_byte_order_is_accepted() {
    for format in [
        VideoFormatType::ARGB,
        VideoFormatType::BGRA,
        VideoFormatType::ABGR,
        VideoFormatType::RGBA,
    ] {
        let layout = check_packed(2, 2, format, 16, 8, 2, 2).unwrap();
        assert_eq!(layout.format, format);
    }
}
