use livekit_media::i010::I010Buffer;
use livekit_media::i420::I420Buffer;
use livekit_media::i420a::I420ABuffer;
use livekit_media::i422::I422Buffer;
use livekit_media::i444::I444Buffer;
use livekit_media::native::NativeBuffer;
use livekit_media::video_frame::ConvertError;
use livekit_media::video_frame::UnsupportedVariant;
use livekit_media::video_frame::VideoFormatType;

fn color_3x3() -> I420Buffer {
    I420Buffer::from_planes(
        3,
        3,
        4,
        2,
        2,
        vec![1, 2, 3, 0, 4, 5, 6, 0, 7, 8, 9, 0],
        vec![10, 11, 12, 13],
        vec![20, 21, 22, 23],
    )
    .unwrap()
}

#[test]
fn i420a_without_alpha_reports_none() {
    let b = I420ABuffer::from_planes(color_3x3(), 0, None).unwrap();
    assert_eq!((b.width(), b.height()), (3, 3));
    assert_eq!((b.chroma_width(), b.chroma_height()), (2, 2));
    assert_eq!((b.stride_y(), b.stride_u(), b.stride_v()), (4, 2, 2));
    let (y, u, v, a) = b.data();
    assert_eq!(y.len(), 12);
    assert_eq!(u, &[10, 11, 12, 13]);
    assert_eq!(v, &[20, 21, 22, 23]);
    assert!(a.is_none());
}

#[test]
fn i420a_with_alpha_reports_the_whole_plane() {
    let alpha = vec![9, 9, 9, 0, 0, 8, 8, 8, 0, 0, 7, 7, 7, 0, 0];
    let b = I420ABuffer::from_planes(color_3x3(), 5, Some(alpha.clone())).unwrap();
    assert_eq!(b.stride_a(), 5);
    let (_, _, _, a) = b.data();
    assert_eq!(a.unwrap(), &alpha[..]);
    assert_eq!(a.unwrap().len() as u32, b.stride_a() * b.height());
}

#[test]
fn i420a_refuses_partial_alpha() {
    assert!(I420ABuffer::from_planes(color_3x3(), 3, Some(vec![0; 8])).is_none());
    assert!(I420ABuffer::from_planes(color_3x3(), 3, Some(vec![0; 10])).is_none());
    assert!(I420ABuffer::from_planes(color_3x3(), 2, Some(vec![0; 6])).is_none());
    assert!(I420ABuffer::from_planes(color_3x3(), 3, Some(vec![0; 9])).is_some());
}

#[test]
fn i420a_to_i420_leaves_alpha_behind() {
    let with_alpha = I420ABuffer::from_planes(color_3x3(), 3, Some(vec![77; 9])).unwrap();
    let without = I420ABuffer::from_planes(color_3x3(), 0, None).unwrap();
    let a = with_alpha.to_i420();
    let b = without.to_i420();
    assert_eq!(a.data(), b.data());
    let (y, u, v) = a.data();
    assert_eq!(y, &[1, 2, 3, 4, 5, 6, 7, 8, 9]);
    assert_eq!(u, &[10, 11, 12, 13]);
    assert_eq!(v, &[20, 21, 22, 23]);
    assert_eq!((a.width(), a.height()), (3, 3));
    assert_eq!((a.stride_y(), a.stride_u(), a.stride_v()), (3, 2, 2));
}

#[test]
fn i420a_to_argb_goes_through_i420() {
    let b = I420ABuffer::from_planes(color_3x3(), 3, Some(vec![77; 9])).unwrap();
    let dst = vec![0u8; 36];
    let (planes, layout) = b.to_argb(VideoFormatType::BGRA, &dst, 12, 3, 3).unwrap();
    assert_eq!(planes.data().0, &[1, 2, 3, 4, 5, 6, 7, 8, 9]);
    assert_eq!(layout.byte_len, 36);
    assert_eq!(layout.format, VideoFormatType::BGRA);
    let dst = vec![0u8; 35];
    assert_eq!(
        b.to_argb(VideoFormatType::BGRA, &dst, 12, 3, 3).unwrap_err(),
        ConvertError::BufferTooSmall
    );
}

#[test]
fn i422_chroma_keeps_every_row() {
    let b = I422Buffer::from_planes(5, 3, 5, 3, 4, vec![1; 15], vec![2; 9], vec![3; 12]).unwrap();
    assert_eq!((b.width(), b.height()), (5, 3));
    assert_eq!((b.chroma_width(), b.chroma_height()), (3, 3));
    assert_eq!((b.stride_y(), b.stride_u(), b.stride_v()), (5, 3, 4));
    let (y, u, v) = b.data();
    assert_eq!(y.len() as u32, b.stride_y() * b.height());
    assert_eq!(u.len() as u32, b.stride_u() * b.height());
    assert_eq!(v.len() as u32, b.stride_v() * b.height());
    assert_eq!(u, &[2; 9]);
    assert_eq!(v, &[3; 12]);
}

#[test]
fn i422_from_planes_refuses_bad_layouts() {
    assert!(I422Buffer::from_planes(5, 3, 4, 3, 3, vec![0; 12], vec![0; 9], vec![0; 9]).is_none());
    assert!(I422Buffer::from_planes(5, 3, 5, 2, 3, vec![0; 15], vec![0; 6], vec![0; 9]).is_none());
    assert!(I422Buffer::from_planes(5, 3, 5, 3, 3, vec![0; 15], vec![0; 6], vec![0; 9]).is_none());
    assert!(I422Buffer::from_planes(5, 3, 5, 3, 3, vec![0; 15], vec![0; 9], vec![0; 9]).is_some());
}

#[test]
fn i422_to_i420_accepts_a_picture_of_its_extent() {
    let b = I422Buffer::from_planes(4, 2, 4, 2, 2, vec![1; 8], vec![2; 4], vec![3; 4]).unwrap();
    let converted =
        I420Buffer::from_planes(4, 2, 4, 2, 2, vec![1; 8], vec![2; 2], vec![3; 2]).unwrap();
    let r = b.to_i420(converted).unwrap();
    assert_eq!((r.width(), r.height()), (4, 2));
    assert_eq!(r.data().1, &[2, 2]);
    assert_eq!(r.data().1.len() as u32, r.stride_u() * r.chroma_height());
}

#[test]
fn i422_to_i420_refuses_another_extent() {
    let b = I422Buffer::from_planes(4, 2, 4, 2, 2, vec![1; 8], vec![2; 4], vec![3; 4]).unwrap();
    assert_eq!(b.to_i420(I420Buffer::new(2, 2)).unwrap_err(), ConvertError::DimensionMismatch);
    assert_eq!(b.to_i420(I420Buffer::new(4, 4)).unwrap_err(), ConvertError::DimensionMismatch);
}

#[test]
fn i422_to_argb_checks_picture_then_destination() {
    let b = I422Buffer::from_planes(4, 2, 4, 2, 2, vec![1; 8], vec![2; 4], vec![3; 4]).unwrap();
    let dst = vec![0u8; 32];
    let (planes, layout) =
        b.to_argb(I420Buffer::new(4, 2), VideoFormatType::ARGB, &dst, 16, 4, 2).unwrap();
    assert_eq!((planes.width(), planes.height()), (4, 2));
    assert_eq!(layout.byte_len, 32);
    assert_eq!(
        b.to_argb(I420Buffer::new(4, 4), VideoFormatType::ARGB, &dst, 16, 4, 2).unwrap_err(),
        ConvertError::DimensionMismatch
    );
    let small = vec![0u8; 31];
    assert_eq!(
        b.to_argb(I420Buffer::new(4, 2), VideoFormatType::ARGB, &small, 16, 4, 2).unwrap_err(),
        ConvertError::BufferTooSmall
    );
}

#[test]
fn i444_chroma_has_full_resolution() {
    let b = I444Buffer::from_planes(5, 3, 6, 5, 7, vec![1; 18], vec![2; 15], vec![3; 21]).unwrap();
    assert_eq!((b.width(), b.height()), (5, 3));
    assert_eq!((b.chroma_width(), b.chroma_height()), (5, 3));
    assert_eq!((b.stride_y(), b.stride_u(), b.stride_v()), (6, 5, 7));
    let (y, u, v) = b.data();
    assert_eq!((y.len(), u.len(), v.len()), (18, 15, 21));
}

#[test]
fn i444_from_planes_refuses_half_width_chroma() {
    assert!(I444Buffer::from_planes(4, 2, 4, 2, 2, vec![0; 8], vec![0; 4], vec![0; 4]).is_none());
    assert!(I444Buffer::from_planes(4, 2, 4, 4, 4, vec![0; 8], vec![0; 8], vec![0; 8]).is_some());
}

#[test]
fn i444_to_i420_and_to_argb_take_the_converted_picture() {
    let b = I444Buffer::from_planes(2, 2, 2, 2, 2, vec![1; 4], vec![2; 4], vec![3; 4]).unwrap();
    let r = b.to_i420(I420Buffer::new(2, 2)).unwrap();
    assert_eq!((r.width(), r.height()), (2, 2));
    assert_eq!(b.to_i420(I420Buffer::new(3, 2)).unwrap_err(), ConvertError::DimensionMismatch);
    let dst = vec![0u8; 16];
    let (_, layout) =
        b.to_argb(I420Buffer::new(2, 2), VideoFormatType::RGBA, &dst, 8, 2, 2).unwrap();
    assert_eq!(layout.stride, 8);
    assert_eq!(
        b.to_argb(I420Buffer::new(2, 2), VideoFormatType::RGBA, &dst, 7, 2, 2).unwrap_err(),
        ConvertError::DimensionMismatch
    );
}

#[test]
fn i010_planes_hold_half_as_many_samples_as_bytes() {
    let b = I010Buffer::from_planes(3, 3, 8, 4, 6, vec![512; 12], vec![100; 4], vec![200; 6])
        .unwrap();
    assert_eq!((b.width(), b.height()), (3, 3));
    assert_eq!((b.chroma_width(), b.chroma_height()), (2, 2));
    assert_eq!((b.stride_y(), b.stride_u(), b.stride_v()), (8, 4, 6));
    let (y, u, v) = b.data();
    assert_eq!(y.len() as u32, b.stride_y() * b.height() / 2);
    assert_eq!(u.len() as u32, b.stride_u() * b.chroma_height() / 2);
    assert_eq!(v.len() as u32, b.stride_v() * b.chroma_height() / 2);
    assert_eq!(y, &[512u16; 12]);
}

#[test]
fn i010_from_planes_counts_strides_in_bytes() {
    assert!(I010Buffer::from_planes(4, 2, 4, 4, 4, vec![0; 4], vec![0; 2], vec![0; 2]).is_none());
    assert!(I010Buffer::from_planes(4, 2, 8, 4, 4, vec![0; 8], vec![0; 2], vec![0; 2]).is_some());
    assert!(I010Buffer::from_planes(4, 2, 8, 4, 4, vec![0; 16], vec![0; 2], vec![0; 2]).is_none());
    assert!(I010Buffer::from_planes(4, 2, 8, 3, 4, vec![0; 8], vec![0; 1], vec![0; 2]).is_none());
}

#[test]
fn i010_to_i420_takes_the_reduced_picture() {
    let b = I010Buffer::from_planes(4, 2, 8, 4, 4, vec![940; 8], vec![512; 2], vec![512; 2])
        .unwrap();
    let reduced =
        I420Buffer::from_planes(4, 2, 4, 2, 2, vec![235; 8], vec![128; 2], vec![128; 2]).unwrap();
    let r = b.to_i420(reduced).unwrap();
    assert_eq!(r.data().0, &[235; 8]);
    assert_eq!(b.to_i420(I420Buffer::new(4, 1)).unwrap_err(), ConvertError::DimensionMismatch);
    let dst = vec![0u8; 32];
    let (_, layout) =
        b.to_argb(I420Buffer::new(4, 2), VideoFormatType::ABGR, &dst, 16, 4, 2).unwrap();
    assert_eq!(layout.byte_len, 32);
    assert_eq!(
        b.to_argb(I420Buffer::new(4, 2), VideoFormatType::ABGR, &dst, 16, 4, 3).unwrap_err(),
        ConvertError::DimensionMismatch
    );
}

#[test]
fn native_buffer_knows_only_its_extent() {
    let n = NativeBuffer::new(1280, 720);
    assert_eq!((n.width(), n.height()), (1280, 720));
}

#[test]
fn native_to_i420_needs_the_platform() {
    let n = NativeBuffer::new(4, 2);
    assert_eq!(n.to_i420(None).unwrap_err(), UnsupportedVariant);
    assert_eq!(n.to_i420(Some(I420Buffer::new(2, 4))).unwrap_err(), UnsupportedVariant);
    let r = n.to_i420(Some(I420Buffer::new(4, 2))).unwrap();
    assert_eq!((r.width(), r.height()), (4, 2));
}

#[test]
fn native_to_argb_without_a_picture_is_unsupported() {
    let n = NativeBuffer::new(4, 2);
    let dst = vec![0u8; 32];
    assert_eq!(
        n.to_argb(None, VideoFormatType::RGBA, &dst, 16, 4, 2).unwrap_err(),
        ConvertError::UnsupportedFormat
    );
    assert_eq!(
        n.to_argb(Some(I420Buffer::new(2, 2)), VideoFormatType::RGBA, &dst, 16, 4, 2).unwrap_err(),
        ConvertError::UnsupportedFormat
    );
    let (_, layout) =
        n.to_argb(Some(I420Buffer::new(4, 2)), VideoFormatType::RGBA, &dst, 16, 4, 2).unwrap();
    assert_eq!(layout.byte_len, 32);
    let small = vec![0u8; 8];
    assert_eq!(
        n.to_argb(Some(I420Buffer::new(4, 2)), VideoFormatType::RGBA, &small, 16, 4, 2)
            .unwrap_err(),
        ConvertError::BufferTooSmall
    );
}
