//! I422: three planes of 8-bit samples, chroma halved along each row only.

use vstd::prelude::*;
use crate::i420::I420Buffer;
use crate::layout::ceil_half;
use crate::layout::half_up;
use crate::layout::plane_fits;
use crate::layout::plane_offset;
use crate::packed::packed_outcome;
use crate::packed::PackedLayout;
use crate::video_frame::ConvertError;
use crate::video_frame::VideoFormatType;

verus! {

/// What an I422 buffer holds: its extent, the distance between rows of
/// each plane, and the planes with their padding.
pub struct I422View {
    pub width: int,
    pub height: int,
    pub stride_y: int,
    pub stride_u: int,
    pub stride_v: int,
    pub data_y: Seq<u8>,
    pub data_u: Seq<u8>,
    pub data_v: Seq<u8>,
}

impl I422View {
    /// Chroma samples per row: half the width, rounded up.
    pub open spec fn chroma_width(self) -> int {
        ceil_half(self.width)
    }

    /// Chroma has as many rows as luma.
    pub open spec fn chroma_height(self) -> int {
        self.height
    }

    /// Every stride covers its row, and every plane holds exactly its
    /// stride times its rows.
    pub open spec fn wf(self) -> bool {
        &&& 0 <= self.width <= u32::MAX
        &&& 0 <= self.height <= u32::MAX
        &&& self.width <= self.stride_y <= u32::MAX
        &&& self.chroma_width() <= self.stride_u <= u32::MAX
        &&& self.chroma_width() <= self.stride_v <= u32::MAX
        &&& self.data_y.len() == self.stride_y * self.height
        &&& self.data_u.len() == self.stride_u * self.chroma_height()
        &&& self.data_v.len() == self.stride_v * self.chroma_height()
    }

    pub open spec fn y_at(self, row: int, col: int) -> u8 {
        self.data_y[plane_offset(self.stride_y, row, col)]
    }

    pub open spec fn u_at(self, row: int, col: int) -> u8 {
        self.data_u[plane_offset(self.stride_u, row, col)]
    }

    pub open spec fn v_at(self, row: int, col: int) -> u8 {
        self.data_v[plane_offset(self.stride_v, row, col)]
    }
}

/// A frame in I422 layout that owns its planes.
#[derive(Debug)]
pub struct I422Buffer {
    width: u32,
    height: u32,
    stride_y: u32,
    stride_u: u32,
    stride_v: u32,
    data_y: Vec<u8>,
    data_u: Vec<u8>,
    data_v: Vec<u8>,
}

impl View for I422Buffer {
    type V = I422View;

    closed spec fn view(&self) -> I422View {
        I422View {
            width: self.width as int,
            height: self.height as int,
            stride_y: self.stride_y as int,
            stride_u: self.stride_u as int,
            stride_v: self.stride_v as int,
            data_y: self.data_y@,
            data_u: self.data_u@,
            data_v: self.data_v@,
        }
    }
}

impl I422Buffer {
    #[verifier::type_invariant]
    spec fn inv(self) -> bool {
        self@.wf()
    }

    /// A buffer over planes that were filled elsewhere, or `None` where a
    /// stride is shorter than its row or a plane does not hold exactly its
    /// stride times its rows.
    pub fn from_planes(
        width: u32,
        height: u32,
        stride_y: u32,
        stride_u: u32,
        stride_v: u32,
        data_y: Vec<u8>,
        data_u: Vec<u8>,
        data_v: Vec<u8>,
    ) -> (r: Option<I422Buffer>)
        ensures
            r is Some <==> (I422View {
                width: width as int,
                height: height as int,
                stride_y: stride_y as int,
                stride_u: stride_u as int,
                stride_v: stride_v as int,
                data_y: data_y@,
                data_u: data_u@,
                data_v: data_v@,
            }).wf(),
            r matches Some(b) ==> b@ == (I422View {
                width: width as int,
                height: height as int,
                stride_y: stride_y as int,
                stride_u: stride_u as int,
                stride_v: stride_v as int,
                data_y: data_y@,
                data_u: data_u@,
                data_v: data_v@,
            }),
    {
        let cw: u32 = half_up(width);
        if stride_y >= width && stride_u >= cw && stride_v >= cw && plane_fits(
            data_y.len(),
            stride_y,
            height,
        ) && plane_fits(data_u.len(), stride_u, height) && plane_fits(
            data_v.len(),
            stride_v,
            height,
        ) {
            Some(I422Buffer { width, height, stride_y, stride_u, stride_v, data_y, data_u, data_v })
        } else {
            None
        }
    }

    pub fn width(&self) -> (r: u32)
        ensures
            r == self@.width,
    {
        self.width
    }

    pub fn height(&self) -> (r: u32)
        ensures
            r == self@.height,
    {
        self.height
    }

    /// Chroma samples per row: half the width, rounded up.
    pub fn chroma_width(&self) -> (r: u32)
        ensures
            r == self@.chroma_width(),
            r == ceil_half(self@.width),
    {
        half_up(self.width)
    }

    /// Chroma rows: as many as luma rows.
    pub fn chroma_height(&self) -> (r: u32)
        ensures
            r == self@.height,
    {
        self.height
    }

    pub fn stride_y(&self) -> (r: u32)
        ensures
            r == self@.stride_y,
            r >= self@.width,
    {
        proof {
            use_type_invariant(self);
        }
        self.stride_y
    }

    pub fn stride_u(&self) -> (r: u32)
        ensures
            r == self@.stride_u,
            r >= self@.chroma_width(),
    {
        proof {
            use_type_invariant(self);
        }
        self.stride_u
    }

    pub fn stride_v(&self) -> (r: u32)
        ensures
            r == self@.stride_v,
            r >= self@.chroma_width(),
    {
        proof {
            use_type_invariant(self);
        }
        self.stride_v
    }

    /// The planes Y, U and V with their padding: each holds its stride
    /// times the height in bytes.
    pub fn data(&self) -> (r: (&[u8], &[u8], &[u8]))
        ensures
            self@.wf(),
            r.0@ == self@.data_y,
            r.1@ == self@.data_u,
            r.2@ == self@.data_v,
            r.0@.len() == self@.stride_y * self@.height,
            r.1@.len() == self@.stride_u * self@.height,
            r.2@.len() == self@.stride_v * self@.height,
    {
        proof {
            use_type_invariant(self);
        }
        (self.data_y.as_slice(), self.data_u.as_slice(), self.data_v.as_slice())
    }

    /// Accepts `converted`, the I420 picture that the conversion primitive
    /// resampled from this frame, if it has this frame's extent.
    pub fn to_i420(&self, converted: I420Buffer) -> (r: Result<I420Buffer, ConvertError>)
        ensures
            match r {
                Ok(b) => {
                    &&& b == converted
                    &&& b@.wf()
                    &&& b@.width == self@.width
                    &&& b@.height == self@.height
                },
                Err(e) => e == ConvertError::DimensionMismatch && (converted@.width != self@.width
                    || converted@.height != self@.height),
            },
    {
        converted.expect_extent(self.width, self.height)
    }

    /// Accepts `converted` as in `to_i420` and holds a packed destination
    /// against it. `Ok` carries the planes for the conversion primitive to
    /// read and the call it is to make; nothing is written here.
    pub fn to_argb(
        &self,
        converted: I420Buffer,
        format: VideoFormatType,
        dst: &[u8],
        dst_stride: u32,
        dst_width: i32,
        dst_height: i32,
    ) -> (r: Result<(I420Buffer, PackedLayout), ConvertError>)
        ensures
            match r {
                Ok(pair) => {
                    &&& pair.0 == converted
                    &&& converted@.width == self@.width
                    &&& converted@.height == self@.height
                    &&& packed_outcome(
                        Ok(pair.1),
                        self@.width,
                        self@.height,
                        format,
                        dst@.len() as int,
                        dst_stride as int,
                        dst_width as int,
                        dst_height as int,
                    )
                },
                Err(e) => if converted@.width != self@.width || converted@.height
                    != self@.height {
                    e == ConvertError::DimensionMismatch
                } else {
                    packed_outcome(
                        Err(e),
                        self@.width,
                        self@.height,
                        format,
                        dst@.len() as int,
                        dst_stride as int,
                        dst_width as int,
                        dst_height as int,
                    )
                },
            },
    {
        match self.to_i420(converted) {
            Ok(reduced) => match reduced.to_argb(format, dst, dst_stride, dst_width, dst_height) {
                Ok(layout) => Ok((reduced, layout)),
                Err(e) => Err(e),
            },
            Err(e) => Err(e),
        }
    }
}

} // verus!
