use livekit_media::i420::I420Buffer;
use livekit_media::nv12::NV12Buffer;
use livekit_media::video_frame::ConvertError;
use livekit_media::video_frame::VideoFormatType;

fn nv12_4x4() -> NV12Buffer {
    let data_y: Vec<u8> = (0..16).collect();
    let data_uv = vec![100, 200, 101, 201, 102, 202, 103, 203];
    NV12Buffer::from_planes(4, 4, 4, 4, data_y, data_uv).unwrap()
}

fn i420_4x4() -> I420Buffer {
    let data_y: Vec<u8> = (0..16).collect();
    I420Buffer::from_planes(4, 4, 4, 2, 2, data_y, vec![100, 101, 102, 103], vec![200, 201, 202, 203])
        .unwrap()
}

#[test]
fn nv12_getters_report_the_layout() {
    let n = nv12_4x4();
    assert_eq!((n.width(), n.height()), (4, 4));
    assert_eq!((n.chroma_width(), n.chroma_height()), (2, 2));
    assert_eq!((n.stride_y(), n.stride_uv()), (4, 4));
    let (y, uv) = n.data();
    assert_eq!(y.len(), 16);
    assert_eq!(uv, &[100, 200, 101, 201, 102, 202, 103, 203]);
}

#[test]
fn nv12_chroma_is_half_rounded_up() {
    let n = NV12Buffer::from_planes(5, 3, 5, 6, vec![0; 15], vec![0; 12]).unwrap();
    assert_eq!((n.chroma_width(), n.chroma_height()), (3, 2));
    let (y, uv) = n.data();
    assert_eq!(y.len() as u32, n.stride_y() * n.height());
    assert_eq!(uv.len() as u32, n.stride_uv() * n.chroma_height());
}

#[test]
fn nv12_from_planes_refuses_bad_layouts() {
    assert!(NV12Buffer::from_planes(4, 4, 3, 4, vec![0; 12], vec![0; 8]).is_none());
    assert!(NV12Buffer::from_planes(4, 4, 4, 3, vec![0; 16], vec![0; 6]).is_none());
    assert!(NV12Buffer::from_planes(4, 4, 4, 4, vec![0; 15], vec![0; 8]).is_none());
    assert!(NV12Buffer::from_planes(4, 4, 4, 4, vec![0; 16], vec![0; 7]).is_none());
    assert!(NV12Buffer::from_planes(5, 1, 5, 5, vec![0; 5], vec![0; 5]).is_none());
    assert!(NV12Buffer::from_planes(5, 1, 5, 6, vec![0; 5], vec![0; 6]).is_some());
}

#[test]
fn nv12_to_i420_takes_the_chroma_pairs_apart() {
    let c = nv12_4x4().to_i420();
    assert_eq!((c.width(), c.height()), (4, 4));
    assert_eq!((c.stride_y(), c.stride_u(), c.stride_v()), (4, 2, 2));
    let (y, u, v) = c.data();
    let expected_y: Vec<u8> = (0..16).collect();
    assert_eq!(y, &expected_y[..]);
    assert_eq!(u, &[100, 101, 102, 103]);
    assert_eq!(v, &[200, 201, 202, 203]);
}

#[test]
fn nv12_to_i420_skips_padding() {
    let n = NV12Buffer::from_planes(
        3,
        2,
        5,
        6,
        vec![1, 2, 3, 0, 0, 4, 5, 6, 0, 0],
        vec![10, 20, 11, 21, 0, 0],
    )
    .unwrap();
    let c = n.to_i420();
    let (y, u, v) = c.data();
    assert_eq!(y, &[1, 2, 3, 4, 5, 6]);
    assert_eq!(u, &[10, 11]);
    assert_eq!(v, &[20, 21]);
}

#[test]
fn nv12_and_i420_with_the_same_samples_reduce_alike() {
    let from_nv12 = nv12_4x4().to_i420();
    let from_i420 = i420_4x4().to_i420();
    assert_eq!(from_nv12.data(), from_i420.data());
    assert_eq!(from_nv12.stride_y(), from_i420.stride_y());
    assert_eq!(from_nv12.stride_u(), from_i420.stride_u());
    assert_eq!(from_nv12.stride_v(), from_i420.stride_v());
}

#[test]
fn nv12_and_i420_ask_the_same_of_the_primitive() {
    let dst = vec![0u8; 64];
    let (planes, layout) = nv12_4x4().to_argb(VideoFormatType::RGBA, &dst, 16, 4, 4).unwrap();
    let other = i420_4x4();
    let other_layout = other.to_argb(VideoFormatType::RGBA, &dst, 16, 4, 4).unwrap();
    assert_eq!(layout, other_layout);
    assert_eq!(planes.data(), other.data());
    assert_eq!(
        (planes.stride_y(), planes.stride_u(), planes.stride_v()),
        (other.stride_y(), other.stride_u(), other.stride_v())
    );
}

#[test]
fn nv12_to_argb_refuses_small_destination() {
    let dst = vec![0u8; 10];
    assert_eq!(
        nv12_4x4().to_argb(VideoFormatType::ABGR, &dst, 16, 4, 4).unwrap_err(),
        ConvertError::BufferTooSmall
    );
    let dst = vec![0u8; 64];
    assert_eq!(
        nv12_4x4().to_argb(VideoFormatType::ABGR, &dst, 16, 4, 5).unwrap_err(),
        ConvertError::DimensionMismatch
    );
}
