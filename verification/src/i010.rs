//! I010: three planes of 16-bit samples, of which ten bits are significant,
//! chroma halved in both directions. Strides are counted in bytes.

use vstd::prelude::*;
use crate::i420::I420Buffer;
use crate::layout::ceil_half;
use crate::layout::half_up;
use crate::layout::plane_len;
use crate::packed::packed_outcome;
use crate::packed::PackedLayout;
use crate::video_frame::ConvertError;
use crate::video_frame::VideoFormatType;

verus! {

/// What an I010 buffer holds: its extent, the distance in bytes between
/// rows of each plane, and the planes as 16-bit samples.
pub struct I010View {
    pub width: int,
    pub height: int,
    pub stride_y: int,
    pub stride_u: int,
    pub stride_v: int,
    pub data_y: Seq<u16>,
    pub data_u: Seq<u16>,
    pub data_v: Seq<u16>,
}

impl I010View {
    pub open spec fn chroma_width(self) -> int {
        ceil_half(self.width)
    }

    pub open spec fn chroma_height(self) -> int {
        ceil_half(self.height)
    }

    /// Every stride covers its row of two-byte samples, and every plane
    /// holds the samples that fit in its stride times its rows.
    pub open spec fn wf(self) -> bool {
        &&& 0 <= self.width <= u32::MAX
        &&& 0 <= self.height <= u32::MAX
        &&& 2 * self.width <= self.stride_y <= u32::MAX
        &&& 2 * self.chroma_width() <= self.stride_u <= u32::MAX
        &&& 2 * self.chroma_width() <= self.stride_v <= u32::MAX
        &&& self.data_y.len() == (self.stride_y * self.height) / 2
        &&& self.data_u.len() == (self.stride_u * self.chroma_height()) / 2
        &&& self.data_v.len() == (self.stride_v * self.chroma_height()) / 2
    }
}

/// Whether a plane of `len` 16-bit samples is what `rows` rows of `stride`
/// bytes hold.
fn plane_fits_wide(len: usize, stride: u32, rows: u32) -> (r: bool)
    ensures
        r <==> len == (stride * rows) / 2,
{
    assert(stride * rows >= 0) by (nonlinear_arith)
        requires
            stride >= 0,
            rows >= 0,
    ;
    match plane_len(stride, rows) {
        Some(bytes) => bytes / 2 == len,
        None => {
            assert(stride * rows <= 0xFFFF_FFFF * 0xFFFF_FFFF) by (nonlinear_arith)
                requires
                    stride <= 0xFFFF_FFFF,
                    rows <= 0xFFFF_FFFF,
            ;
            let wide: u64 = (stride as u64) * (rows as u64);
            (len as u64) == wide / 2
        },
    }
}

/// A frame in I010 layout that owns its planes.
#[derive(Debug)]
pub struct I010Buffer {
    width: u32,
    height: u32,
    stride_y: u32,
    stride_u: u32,
    stride_v: u32,
    data_y: Vec<u16>,
    data_u: Vec<u16>,
    data_v: Vec<u16>,
}

impl View for I010Buffer {
    type V = I010View;

    closed spec fn view(&self) -> I010View {
        I010View {
            width: self.width as int,
            height: self.height as int,
            stride_y: self.stride_y as int,
            stride_u: self.stride_u as int,
            stride_v: self.stride_v as int,
            data_y: self.data_y@,
            data_u: self.data_u@,
            data_v: self.data_v@,
        }
    }
}

impl I010Buffer {
    #[verifier::type_invariant]
    spec fn inv(self) -> bool {
        self@.wf()
    }

    /// A buffer over planes that were filled elsewhere, or `None` where a
    /// stride is shorter than its row or a plane does not hold what its
    /// stride times its rows takes.
    pub fn from_planes(
        width: u32,
        height: u32,
        stride_y: u32,
        stride_u: u32,
        stride_v: u32,
        data_y: Vec<u16>,
        data_u: Vec<u16>,
        data_v: Vec<u16>,
    ) -> (r: Option<I010Buffer>)
        ensures
            r is Some <==> (I010View {
                width: width as int,
                height: height as int,
                stride_y: stride_y as int,
                stride_u: stride_u as int,
                stride_v: stride_v as int,
                data_y: data_y@,
                data_u: data_u@,
                data_v: data_v@,
            }).wf(),
            r matches Some(b) ==> b@ == (I010View {
                width: width as int,
                height: height as int,
                stride_y: stride_y as int,
                stride_u: stride_u as int,
                stride_v: stride_v as int,
                data_y: data_y@,
                data_u: data_u@,
                data_v: data_v@,
            }),
    {
        let cw: u32 = half_up(width);
        let ch: u32 = half_up(height);
        if (stride_y as u64) >= 2 * (width as u64) && (stride_u as u64) >= 2 * (cw as u64) && (
        stride_v as u64) >= 2 * (cw as u64) && plane_fits_wide(data_y.len(), stride_y, height)
            && plane_fits_wide(data_u.len(), stride_u, ch) && plane_fits_wide(
            data_v.len(),
            stride_v,
            ch,
        ) {
            Some(I010Buffer { width, height, stride_y, stride_u, stride_v, data_y, data_u, data_v })
        } else {
            None
        }
    }

    pub fn width(&self) -> (r: u32)
        ensures
            r == self@.width,
    {
        self.width
    }

    pub fn height(&self) -> (r: u32)
        ensures
            r == self@.height,
    {
        self.height
    }

    /// Chroma samples per row: half the width, rounded up.
    pub fn chroma_width(&self) -> (r: u32)
        ensures
            r == ceil_half(self@.width),
    {
        half_up(self.width)
    }

    /// Chroma rows: half the height, rounded up.
    pub fn chroma_height(&self) -> (r: u32)
        ensures
            r == ceil_half(self@.height),
    {
        half_up(self.height)
    }

    pub fn stride_y(&self) -> (r: u32)
        ensures
            r == self@.stride_y,
            r >= 2 * self@.width,
    {
        proof {
            use_type_invariant(self);
        }
        self.stride_y
    }

    pub fn stride_u(&self) -> (r: u32)
        ensures
            r == self@.stride_u,
            r >= 2 * ceil_half(self@.width),
    {
        proof {
            use_type_invariant(self);
        }
        self.stride_u
    }

    pub fn stride_v(&self) -> (r: u32)
        ensures
            r == self@.stride_v,
            r >= 2 * ceil_half(self@.width),
    {
        proof {
            use_type_invariant(self);
        }
        self.stride_v
    }

    /// The planes Y, U and V with their padding, as 16-bit samples: half
    /// as many as the bytes that the stride times the rows takes.
    pub fn data(&self) -> (r: (&[u16], &[u16], &[u16]))
        ensures
            self@.wf(),
            r.0@ == self@.data_y,
            r.1@ == self@.data_u,
            r.2@ == self@.data_v,
            r.0@.len() == (self@.stride_y * self@.height) / 2,
            r.1@.len() == (self@.stride_u * ceil_half(self@.height)) / 2,
            r.2@.len() == (self@.stride_v * ceil_half(self@.height)) / 2,
    {
        proof {
            use_type_invariant(self);
        }
        (self.data_y.as_slice(), self.data_u.as_slice(), self.data_v.as_slice())
    }

    /// Accepts `converted`, the I420 picture that the conversion primitive
    /// reduced from this frame to eight bits, if it has this frame's extent.
    pub fn to_i420(&self, converted: I420Buffer) -> (r: Result<I420Buffer, ConvertError>)
        ensures
            match r {
                Ok(b) => {
                    &&& b == converted
                    &&& b@.wf()
                    &&& b@.width == self@.width
                    &&& b@.height == self@.height
                },
                Err(e) => e == ConvertError::DimensionMismatch && (converted@.width != self@.width
                    || converted@.height != self@.height),
            },
    {
        converted.expect_extent(self.width, self.height)
    }

    /// Accepts `converted` as in `to_i420` and holds a packed destination
    /// against it. `Ok` carries the planes for the conversion primitive to
    /// read and the call it is to make; nothing is written here.
    pub fn to_argb(
        &self,
        converted: I420Buffer,
        format: VideoFormatType,
        dst: &[u8],
        dst_stride: u32,
        dst_width: i32,
        dst_height: i32,
    ) -> (r: Result<(I420Buffer, PackedLayout), ConvertError>)
        ensures
            match r {
                Ok(pair) => {
                    &&& pair.0 == converted
                    &&& converted@.width == self@.width
                    &&& converted@.height == self@.height
                    &&& packed_outcome(
                        Ok(pair.1),
                        self@.width,
                        self@.height,
                        format,
                        dst@.len() as int,
                        dst_stride as int,
                        dst_width as int,
                        dst_height as int,
                    )
                },
                Err(e) => if converted@.width != self@.width || converted@.height
                    != self@.height {
                    e == ConvertError::DimensionMismatch
                } else {
                    packed_outcome(
                        Err(e),
                        self@.width,
                        self@.height,
                        format,
                        dst@.len() as int,
                        dst_stride as int,
                        dst_width as int,
                        dst_height as int,
                    )
                },
            },
    {
        match self.to_i420(converted) {
            Ok(reduced) => match reduced.to_argb(format, dst, dst_stride, dst_width, dst_height) {
                Ok(layout) => Ok((reduced, layout)),
                Err(e) => Err(e),
            },
            Err(e) => Err(e),
        }
    }
}

} // verus!
