//! One type for a frame in any layout, and its construction from what the
//! native layer reports about a buffer.

use vstd::prelude::*;
use crate::i010::I010Buffer;
use crate::i010::I010View;
use crate::i420::lemma_canonical_keeps_picture;
use crate::i420::I420Buffer;
use crate::i420::I420View;
use crate::i420a::I420ABuffer;
use crate::i420a::I420AView;
use crate::i422::I422Buffer;
use crate::i422::I422View;
use crate::i444::I444Buffer;
use crate::i444::I444View;
use crate::layout::ceil_half;
use crate::layout::half_up;
use crate::native::NativeBuffer;
use crate::native::NativeView;
use crate::nv12::lemma_nv12_to_i420_wf;
use crate::nv12::NV12Buffer;
use crate::nv12::NV12View;
use crate::packed::packed_refusal;
use crate::packed::PackedLayout;
use crate::video_frame::ConvertError;
use crate::video_frame::FrameError;
use crate::video_frame::UnsupportedVariant;
use crate::video_frame::VideoFormatType;
use crate::video_frame::VideoFrameBufferType;
use crate::video_frame::VideoRotation;

verus! {

/// The planes of a buffer as the native layer hands them over, copied out
/// of its memory. Strides are in bytes.
#[derive(Debug)]
#[allow(inconsistent_fields)]
pub enum PlaneData {
    /// The samples cannot be read.
    Opaque,
    /// Three planes of 8-bit samples.
    Planar {
        stride_y: u32,
        stride_u: u32,
        stride_v: u32,
        data_y: Vec<u8>,
        data_u: Vec<u8>,
        data_v: Vec<u8>,
    },
    /// Three planes of 8-bit samples and, where the frame has one, an alpha
    /// plane.
    PlanarAlpha {
        stride_y: u32,
        stride_u: u32,
        stride_v: u32,
        stride_a: u32,
        data_y: Vec<u8>,
        data_u: Vec<u8>,
        data_v: Vec<u8>,
        data_a: Option<Vec<u8>>,
    },
    /// Three planes of 16-bit samples.
    PlanarWide {
        stride_y: u32,
        stride_u: u32,
        stride_v: u32,
        data_y: Vec<u16>,
        data_u: Vec<u16>,
        data_v: Vec<u16>,
    },
    /// A luma plane and a plane of interleaved chroma pairs.
    Biplanar { stride_y: u32, stride_uv: u32, data_y: Vec<u8>, data_uv: Vec<u8> },
}

/// What a frame holds, whatever its layout.
pub enum FrameView {
    Native(NativeView),
    I420(I420View),
    I420A(I420AView),
    I422(I422View),
    I444(I444View),
    I010(I010View),
    NV12(NV12View),
}

impl FrameView {
    pub open spec fn kind(self) -> VideoFrameBufferType {
        match self {
            FrameView::Native(_) => VideoFrameBufferType::Native,
            FrameView::I420(_) => VideoFrameBufferType::I420,
            FrameView::I420A(_) => VideoFrameBufferType::I420A,
            FrameView::I422(_) => VideoFrameBufferType::I422,
            FrameView::I444(_) => VideoFrameBufferType::I444,
            FrameView::I010(_) => VideoFrameBufferType::I010,
            FrameView::NV12(_) => VideoFrameBufferType::NV12,
        }
    }

    pub open spec fn width(self) -> int {
        match self {
            FrameView::Native(v) => v.width,
            FrameView::I420(v) => v.width,
            FrameView::I420A(v) => v.color.width,
            FrameView::I422(v) => v.width,
            FrameView::I444(v) => v.width,
            FrameView::I010(v) => v.width,
            FrameView::NV12(v) => v.width,
        }
    }

    pub open spec fn height(self) -> int {
        match self {
            FrameView::Native(v) => v.height,
            FrameView::I420(v) => v.height,
            FrameView::I420A(v) => v.color.height,
            FrameView::I422(v) => v.height,
            FrameView::I444(v) => v.height,
            FrameView::I010(v) => v.height,
            FrameView::NV12(v) => v.height,
        }
    }

    /// Chroma samples per row, as the layout of the frame defines them. A
    /// native frame has no planes; it is given the extent of the I420
    /// picture it reduces to.
    pub open spec fn chroma_width(self) -> int {
        match self {
            FrameView::Native(v) => ceil_half(v.width),
            FrameView::I420(v) => v.chroma_width(),
            FrameView::I420A(v) => v.color.chroma_width(),
            FrameView::I422(v) => v.chroma_width(),
            FrameView::I444(v) => v.chroma_width(),
            FrameView::I010(v) => v.chroma_width(),
            FrameView::NV12(v) => v.chroma_width(),
        }
    }

    /// Chroma rows, as the layout of the frame defines them.
    pub open spec fn chroma_height(self) -> int {
        match self {
            FrameView::Native(v) => ceil_half(v.height),
            FrameView::I420(v) => v.chroma_height(),
            FrameView::I420A(v) => v.color.chroma_height(),
            FrameView::I422(v) => v.chroma_height(),
            FrameView::I444(v) => v.chroma_height(),
            FrameView::I010(v) => v.chroma_height(),
            FrameView::NV12(v) => v.chroma_height(),
        }
    }

    pub open spec fn wf(self) -> bool {
        match self {
            FrameView::Native(v) => 0 <= v.width <= u32::MAX && 0 <= v.height <= u32::MAX,
            FrameView::I420(v) => v.wf(),
            FrameView::I420A(v) => v.wf(),
            FrameView::I422(v) => v.wf(),
            FrameView::I444(v) => v.wf(),
            FrameView::I010(v) => v.wf(),
            FrameView::NV12(v) => v.wf(),
        }
    }

    /// The canonical I420 picture that the frame reduces to. Layouts that
    /// differ from I420 only in where the samples lie are reduced here;
    /// the others take `converted`, the picture that the conversion
    /// primitive or the platform made of the frame, and are refused
    /// without one of the frame's extent.
    pub open spec fn reduce(self, converted: Option<I420View>) -> Result<I420View, FrameError> {
        match self {
            FrameView::I420(v) => Ok(v.canonical()),
            FrameView::I420A(v) => Ok(v.color.canonical()),
            FrameView::NV12(v) => Ok(v.to_i420()),
            FrameView::Native(v) => match converted {
                Some(c) => if c.width == v.width && c.height == v.height {
                    Ok(c)
                } else {
                    Err(FrameError::Unsupported(UnsupportedVariant))
                },
                None => Err(FrameError::Unsupported(UnsupportedVariant)),
            },
            _ => match converted {
                Some(c) => if c.width == self.width() && c.height == self.height() {
                    Ok(c)
                } else {
                    Err(FrameError::Convert(ConvertError::DimensionMismatch))
                },
                None => Err(FrameError::Convert(ConvertError::UnsupportedFormat)),
            },
        }
    }
}

/// In every layout that halves chroma in both directions, a frame of
/// `width` × `height` pixels has `ceil(width / 2)` × `ceil(height / 2)`
/// chroma samples: the least numbers of pairs that cover the width and the
/// height.
pub proof fn lemma_chroma_extent_420(f: FrameView)
    requires
        f.wf(),
        f.kind().is_420(),
    ensures
        f.chroma_width() == ceil_half(f.width()),
        f.chroma_height() == ceil_half(f.height()),
        2 * f.chroma_width() - 1 <= f.width() <= 2 * f.chroma_width(),
        2 * f.chroma_height() - 1 <= f.height() <= 2 * f.chroma_height(),
        f.chroma_width() == f.kind().chroma_width_of(f.width()),
        f.chroma_height() == f.kind().chroma_height_of(f.height()),
{
}

/// The chroma extent of the layouts that keep every row: I422 halves the
/// width only, I444 halves nothing.
pub proof fn lemma_chroma_extent_full_height(f: FrameView)
    requires
        f.wf(),
        f.kind() == VideoFrameBufferType::I422 || f.kind() == VideoFrameBufferType::I444,
    ensures
        f.chroma_height() == f.height(),
        f.kind() == VideoFrameBufferType::I422 ==> f.chroma_width() == ceil_half(f.width()),
        f.kind() == VideoFrameBufferType::I444 ==> f.chroma_width() == f.width(),
        f.chroma_width() == f.kind().chroma_width_of(f.width()),
        f.chroma_height() == f.kind().chroma_height_of(f.height()),
{
}

/// Reduction to I420 keeps width and height, whatever the layout, and
/// every plane of the result holds exactly its stride times its rows.
pub proof fn lemma_reduce_keeps_extent(f: FrameView, converted: Option<I420View>)
    requires
        f.wf(),
        converted matches Some(c) ==> c.wf(),
    ensures
        f.reduce(converted) matches Ok(r) ==> {
            &&& r.wf()
            &&& r.width == f.width()
            &&& r.height == f.height()
            &&& r.data_y.len() == r.stride_y * r.height
            &&& r.data_u.len() == r.stride_u * ceil_half(r.height)
            &&& r.data_v.len() == r.stride_v * ceil_half(r.height)
        },
        f.kind().reducible() ==> f.reduce(converted) is Ok,
{
    match f {
        FrameView::I420(v) => {
            lemma_canonical_keeps_picture(v);
        },
        FrameView::I420A(v) => {
            lemma_canonical_keeps_picture(v.color);
        },
        FrameView::NV12(v) => {
            lemma_nv12_to_i420_wf(v);
        },
        _ => {},
    }
}

/// The frame that the native layer describes by `buffer_type`, an extent
/// and planes, or `None` where the planes are not those of that layout or
/// do not fit the extent.
pub open spec fn described_frame(
    buffer_type: VideoFrameBufferType,
    width: u32,
    height: u32,
    planes: PlaneData,
) -> Option<FrameView> {
    let found = match (buffer_type, planes) {
        (VideoFrameBufferType::Native, PlaneData::Opaque) => Some(
            FrameView::Native(NativeView { width: width as int, height: height as int }),
        ),
        (
            VideoFrameBufferType::I420,
            PlaneData::Planar { stride_y, stride_u, stride_v, data_y, data_u, data_v },
        ) => Some(
            FrameView::I420(
                I420View {
                    width: width as int,
                    height: height as int,
                    stride_y: stride_y as int,
                    stride_u: stride_u as int,
                    stride_v: stride_v as int,
                    data_y: data_y@,
                    data_u: data_u@,
                    data_v: data_v@,
                },
            ),
        ),
        (
            VideoFrameBufferType::I420A,
            PlaneData::PlanarAlpha {
                stride_y,
                stride_u,
                stride_v,
                stride_a,
                data_y,
                data_u,
                data_v,
                data_a,
            },
        ) => Some(
            FrameView::I420A(
                I420AView {
                    color: I420View {
                        width: width as int,
                        height: height as int,
                        stride_y: stride_y as int,
                        stride_u: stride_u as int,
                        stride_v: stride_v as int,
                        data_y: data_y@,
                        data_u: data_u@,
                        data_v: data_v@,
                    },
                    stride_a: stride_a as int,
                    data_a: match data_a {
                        Some(alpha) => Some(alpha@),
                        None => None,
                    },
                },
            ),
        ),
        (
            VideoFrameBufferType::I422,
            PlaneData::Planar { stride_y, stride_u, stride_v, data_y, data_u, data_v },
        ) => Some(
            FrameView::I422(
                I422View {
                    width: width as int,
                    height: height as int,
                    stride_y: stride_y as int,
                    stride_u: stride_u as int,
                    stride_v: stride_v as int,
                    data_y: data_y@,
                    data_u: data_u@,
                    data_v: data_v@,
                },
            ),
        ),
        (
            VideoFrameBufferType::I444,
            PlaneData::Planar { stride_y, stride_u, stride_v, data_y, data_u, data_v },
        ) => Some(
            FrameView::I444(
                I444View {
                    width: width as int,
                    height: height as int,
                    stride_y: stride_y as int,
                    stride_u: stride_u as int,
                    stride_v: stride_v as int,
                    data_y: data_y@,
                    data_u: data_u@,
                    data_v: data_v@,
                },
            ),
        ),
        (
            VideoFrameBufferType::I010,
            PlaneData::PlanarWide { stride_y, stride_u, stride_v, data_y, data_u, data_v },
        ) => Some(
            FrameView::I010(
                I010View {
                    width: width as int,
                    height: height as int,
                    stride_y: stride_y as int,
                    stride_u: stride_u as int,
                    stride_v: stride_v as int,
                    data_y: data_y@,
                    data_u: data_u@,
                    data_v: data_v@,
                },
            ),
        ),
        (
            VideoFrameBufferType::NV12,
            PlaneData::Biplanar { stride_y, stride_uv, data_y, data_uv },
        ) => Some(
            FrameView::NV12(
                NV12View {
                    width: width as int,
                    height: height as int,
                    stride_y: stride_y as int,
                    stride_uv: stride_uv as int,
                    data_y: data_y@,
                    data_uv: data_uv@,
                },
            ),
        ),
        _ => None,
    };
    match found {
        Some(f) => if f.wf() {
            Some(f)
        } else {
            None
        },
        None => None,
    }
}

/// A frame in one of the layouts in which a track delivers frames.
#[derive(Debug)]
pub enum VideoFrameBuffer {
    Native(NativeBuffer),
    I420(I420Buffer),
    I420A(I420ABuffer),
    I422(I422Buffer),
    I444(I444Buffer),
    I010(I010Buffer),
    NV12(NV12Buffer),
}

impl View for VideoFrameBuffer {
    type V = FrameView;

    open spec fn view(&self) -> FrameView {
        match self {
            VideoFrameBuffer::Native(b) => FrameView::Native(b@),
            VideoFrameBuffer::I420(b) => FrameView::I420(b@),
            VideoFrameBuffer::I420A(b) => FrameView::I420A(b@),
            VideoFrameBuffer::I422(b) => FrameView::I422(b@),
            VideoFrameBuffer::I444(b) => FrameView::I444(b@),
            VideoFrameBuffer::I010(b) => FrameView::I010(b@),
            VideoFrameBuffer::NV12(b) => FrameView::NV12(b@),
        }
    }
}

/// Builds the frame that the native layer describes: the layout is chosen
/// by `buffer_type`, and the planes must be those of that layout and fit
/// the extent.
pub fn new_video_frame_buffer(
    buffer_type: VideoFrameBufferType,
    width: u32,
    height: u32,
    planes: PlaneData,
) -> (r: Option<VideoFrameBuffer>)
    ensures
        match r {
            Some(frame) => Some(frame@) == described_frame(buffer_type, width, height, planes),
            None => described_frame(buffer_type, width, height, planes) is None,
        },
{
    match (buffer_type, planes) {
        (VideoFrameBufferType::Native, PlaneData::Opaque) => Some(
            VideoFrameBuffer::Native(NativeBuffer::new(width, height)),
        ),
        (
            VideoFrameBufferType::I420,
            PlaneData::Planar { stride_y, stride_u, stride_v, data_y, data_u, data_v },
        ) => {
            match I420Buffer::from_planes(
                width,
                height,
                stride_y,
                stride_u,
                stride_v,
                data_y,
                data_u,
                data_v,
            ) {
                Some(b) => Some(VideoFrameBuffer::I420(b)),
                None => None,
            }
        },
        (
            VideoFrameBufferType::I420A,
            PlaneData::PlanarAlpha {
                stride_y,
                stride_u,
                stride_v,
                stride_a,
                data_y,
                data_u,
                data_v,
                data_a,
            },
        ) => {
            match I420Buffer::from_planes(
                width,
                height,
                stride_y,
                stride_u,
                stride_v,
                data_y,
                data_u,
                data_v,
            ) {
                Some(color) => match I420ABuffer::from_planes(color, stride_a, data_a) {
                    Some(b) => Some(VideoFrameBuffer::I420A(b)),
                    None => None,
                },
                None => None,
            }
        },
        (
            VideoFrameBufferType::I422,
            PlaneData::Planar { stride_y, stride_u, stride_v, data_y, data_u, data_v },
        ) => {
            match I422Buffer::from_planes(
                width,
                height,
                stride_y,
                stride_u,
                stride_v,
                data_y,
                data_u,
                data_v,
            ) {
                Some(b) => Some(VideoFrameBuffer::I422(b)),
                None => None,
            }
        },
        (
            VideoFrameBufferType::I444,
            PlaneData::Planar { stride_y, stride_u, stride_v, data_y, data_u, data_v },
        ) => {
            match I444Buffer::from_planes(
                width,
                height,
                stride_y,
                stride_u,
                stride_v,
                data_y,
                data_u,
                data_v,
            ) {
                Some(b) => Some(VideoFrameBuffer::I444(b)),
                None => None,
            }
        },
        (
            VideoFrameBufferType::I010,
            PlaneData::PlanarWide { stride_y, stride_u, stride_v, data_y, data_u, data_v },
        ) => {
            match I010Buffer::from_planes(
                width,
                height,
                stride_y,
                stride_u,
                stride_v,
                data_y,
                data_u,
                data_v,
            ) {
                Some(b) => Some(VideoFrameBuffer::I010(b)),
                None => None,
            }
        },
        (
            VideoFrameBufferType::NV12,
            PlaneData::Biplanar { stride_y, stride_uv, data_y, data_uv },
        ) => {
            match NV12Buffer::from_planes(width, height, stride_y, stride_uv, data_y, data_uv) {
                Some(b) => Some(VideoFrameBuffer::NV12(b)),
                None => None,
            }
        },
        _ => None,
    }
}

impl VideoFrameBuffer {
    pub fn buffer_type(&self) -> (r: VideoFrameBufferType)
        ensures
            r == self@.kind(),
    {
        match self {
            VideoFrameBuffer::Native(_) => VideoFrameBufferType::Native,
            VideoFrameBuffer::I420(_) => VideoFrameBufferType::I420,
            VideoFrameBuffer::I420A(_) => VideoFrameBufferType::I420A,
            VideoFrameBuffer::I422(_) => VideoFrameBufferType::I422,
            VideoFrameBuffer::I444(_) => VideoFrameBufferType::I444,
            VideoFrameBuffer::I010(_) => VideoFrameBufferType::I010,
            VideoFrameBuffer::NV12(_) => VideoFrameBufferType::NV12,
        }
    }

    pub fn width(&self) -> (r: u32)
        ensures
            r == self@.width(),
    {
        match self {
            VideoFrameBuffer::Native(b) => b.width(),
            VideoFrameBuffer::I420(b) => b.width(),
            VideoFrameBuffer::I420A(b) => b.width(),
            VideoFrameBuffer::I422(b) => b.width(),
            VideoFrameBuffer::I444(b) => b.width(),
            VideoFrameBuffer::I010(b) => b.width(),
            VideoFrameBuffer::NV12(b) => b.width(),
        }
    }

    pub fn height(&self) -> (r: u32)
        ensures
            r == self@.height(),
    {
        match self {
            VideoFrameBuffer::Native(b) => b.height(),
            VideoFrameBuffer::I420(b) => b.height(),
            VideoFrameBuffer::I420A(b) => b.height(),
            VideoFrameBuffer::I422(b) => b.height(),
            VideoFrameBuffer::I444(b) => b.height(),
            VideoFrameBuffer::I010(b) => b.height(),
            VideoFrameBuffer::NV12(b) => b.height(),
        }
    }

    /// Chroma samples per row, as the layout defines them; for a native
    /// frame, those of the I420 picture it reduces to.
    pub fn chroma_width(&self) -> (r: u32)
        ensures
            r == self@.chroma_width(),
    {
        match self {
            VideoFrameBuffer::Native(b) => half_up(b.width()),
            VideoFrameBuffer::I420(b) => b.chroma_width(),
            VideoFrameBuffer::I420A(b) => b.chroma_width(),
            VideoFrameBuffer::I422(b) => b.chroma_width(),
            VideoFrameBuffer::I444(b) => b.chroma_width(),
            VideoFrameBuffer::I010(b) => b.chroma_width(),
            VideoFrameBuffer::NV12(b) => b.chroma_width(),
        }
    }

    /// Chroma rows, as the layout defines them; for a native frame, those
    /// of the I420 picture it reduces to.
    pub fn chroma_height(&self) -> (r: u32)
        ensures
            r == self@.chroma_height(),
    {
        match self {
            VideoFrameBuffer::Native(b) => half_up(b.height()),
            VideoFrameBuffer::I420(b) => b.chroma_height(),
            VideoFrameBuffer::I420A(b) => b.chroma_height(),
            VideoFrameBuffer::I422(b) => b.chroma_height(),
            VideoFrameBuffer::I444(b) => b.chroma_height(),
            VideoFrameBuffer::I010(b) => b.chroma_height(),
            VideoFrameBuffer::NV12(b) => b.chroma_height(),
        }
    }

    /// Whether reducing this frame to I420 takes a picture from the
    /// conversion primitive or the platform.
    pub fn needs_conversion(&self) -> (r: bool)
        ensures
            r == !self@.kind().reducible(),
    {
        match self {
            VideoFrameBuffer::I420(_) => false,
            VideoFrameBuffer::I420A(_) => false,
            VideoFrameBuffer::NV12(_) => false,
            _ => true,
        }
    }

    /// Reduces the frame to an owned canonical I420 buffer. A layout that
    /// needs no conversion is reduced here and `converted` is set aside;
    /// any other takes `converted` if it has the frame's extent.
    pub fn to_i420(&self, converted: Option<I420Buffer>) -> (r: Result<I420Buffer, FrameError>)
        ensures
            match r {
                Ok(b) => {
                    &&& self@.reduce(option_view(converted)) == Ok::<I420View, FrameError>(b@)
                    &&& b@.wf()
                    &&& b@.width == self@.width()
                    &&& b@.height == self@.height()
                },
                Err(e) => self@.reduce(option_view(converted)) == Err::<I420View, FrameError>(e),
            },
    {
        match self {
            VideoFrameBuffer::I420(b) => Ok(b.to_i420()),
            VideoFrameBuffer::I420A(b) => Ok(b.to_i420()),
            VideoFrameBuffer::NV12(b) => Ok(b.to_i420()),
            VideoFrameBuffer::Native(b) => match b.to_i420(converted) {
                Ok(reduced) => Ok(reduced),
                Err(e) => Err(FrameError::Unsupported(e)),
            },
            VideoFrameBuffer::I422(b) => match converted {
                Some(c) => match b.to_i420(c) {
                    Ok(reduced) => Ok(reduced),
                    Err(e) => Err(FrameError::Convert(e)),
                },
                None => Err(FrameError::Convert(ConvertError::UnsupportedFormat)),
            },
            VideoFrameBuffer::I444(b) => match converted {
                Some(c) => match b.to_i420(c) {
                    Ok(reduced) => Ok(reduced),
                    Err(e) => Err(FrameError::Convert(e)),
                },
                None => Err(FrameError::Convert(ConvertError::UnsupportedFormat)),
            },
            VideoFrameBuffer::I010(b) => match converted {
                Some(c) => match b.to_i420(c) {
                    Ok(reduced) => Ok(reduced),
                    Err(e) => Err(FrameError::Convert(e)),
                },
                None => Err(FrameError::Convert(ConvertError::UnsupportedFormat)),
            },
        }
    }

    /// Reduces the frame as `to_i420` does and holds a packed destination
    /// against the result. `Ok` carries the planes for the conversion
    /// primitive to read and the call it is to make; nothing is written
    /// here.
    pub fn to_argb(
        &self,
        converted: Option<I420Buffer>,
        format: VideoFormatType,
        dst: &[u8],
        dst_stride: u32,
        dst_width: i32,
        dst_height: i32,
    ) -> (r: Result<(I420Buffer, PackedLayout), FrameError>)
        ensures
            packed_frame_outcome(
                match r {
                    Ok(pair) => Ok((pair.0@, pair.1)),
                    Err(e) => Err(e),
                },
                self@,
                option_view(converted),
                format,
                dst@.len() as int,
                dst_stride as int,
                dst_width as int,
                dst_height as int,
            ),
    {
        match self.to_i420(converted) {
            Ok(reduced) => match reduced.to_argb(format, dst, dst_stride, dst_width, dst_height) {
                Ok(layout) => Ok((reduced, layout)),
                Err(e) => Err(FrameError::Convert(e)),
            },
            Err(e) => Err(e),
        }
    }
}

/// One frame of a track: one buffer, the time at which it was captured,
/// and the rotation to show it with. The rotation travels with the frame;
/// nothing here turns the picture.
#[derive(Debug)]
pub struct VideoFrame {
    pub rotation: VideoRotation,
    /// Microseconds on the clock of the sender.
    pub timestamp_us: i64,
    pub buffer: VideoFrameBuffer,
}

/// The picture in a buffer that may be absent.
pub open spec fn option_view(b: Option<I420Buffer>) -> Option<I420View> {
    match b {
        Some(b) => Some(b@),
        None => None,
    }
}

/// What a packed conversion of a frame answers: the reduced picture with
/// the layout of the destination, the error of the reduction, or the
/// refusal of the destination.
pub open spec fn packed_frame_outcome(
    r: Result<(I420View, PackedLayout), FrameError>,
    frame: FrameView,
    converted: Option<I420View>,
    format: VideoFormatType,
    capacity: int,
    dst_stride: int,
    dst_width: int,
    dst_height: int,
) -> bool {
    let refusal = packed_refusal(
        frame.width(),
        frame.height(),
        capacity,
        dst_stride,
        dst_width,
        dst_height,
    );
    match frame.reduce(converted) {
        Err(e) => r == Err::<(I420View, PackedLayout), FrameError>(e),
        Ok(reduced) => match refusal {
            Some(e) => r == Err::<(I420View, PackedLayout), FrameError>(FrameError::Convert(e)),
            None => r == Ok::<(I420View, PackedLayout), FrameError>(
                (
                    reduced,
                    PackedLayout {
                        format,
                        width: frame.width() as u32,
                        height: frame.height() as u32,
                        stride: dst_stride as u32,
                        byte_len: (dst_stride * dst_height) as usize,
                    },
                ),
            ),
        },
    }
}

} // verus!
