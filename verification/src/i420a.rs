//! I420A: I420 with an optional alpha plane of full resolution.

use vstd::prelude::*;
use crate::i420::I420Buffer;
use crate::i420::I420View;
use crate::layout::ceil_half;
use crate::layout::plane_fits;
use crate::packed::packed_outcome;
use crate::packed::PackedLayout;
use crate::video_frame::ConvertError;
use crate::video_frame::VideoFormatType;

verus! {

/// What an I420A buffer holds: the colour planes, and the alpha plane as a
/// whole or not at all.
pub struct I420AView {
    pub color: I420View,
    pub stride_a: int,
    pub data_a: Option<Seq<u8>>,
}

impl I420AView {
    /// The colour planes are well formed, and an alpha plane that is
    /// present covers every pixel: its stride covers a row and it holds
    /// exactly its stride times the height.
    pub open spec fn wf(self) -> bool {
        &&& self.color.wf()
        &&& 0 <= self.stride_a <= u32::MAX
        &&& self.data_a matches Some(alpha) ==> {
            &&& self.color.width <= self.stride_a
            &&& alpha.len() == self.stride_a * self.color.height
        }
    }
}

/// A frame in I420A layout that owns its planes.
#[derive(Debug)]
pub struct I420ABuffer {
    color: I420Buffer,
    stride_a: u32,
    data_a: Option<Vec<u8>>,
}

impl View for I420ABuffer {
    type V = I420AView;

    closed spec fn view(&self) -> I420AView {
        I420AView {
            color: self.color@,
            stride_a: self.stride_a as int,
            data_a: match self.data_a {
                Some(alpha) => Some(alpha@),
                None => None,
            },
        }
    }
}

impl I420ABuffer {
    #[verifier::type_invariant]
    spec fn inv(self) -> bool {
        self@.wf()
    }

    /// A buffer over colour planes and an alpha plane that were filled
    /// elsewhere, or `None` where an alpha plane is given that does not
    /// cover the picture.
    pub fn from_planes(color: I420Buffer, stride_a: u32, data_a: Option<Vec<u8>>) -> (r: Option<
        I420ABuffer,
    >)
        ensures
            r is Some <==> (data_a matches Some(alpha) ==> color@.width <= stride_a && alpha@.len()
                == stride_a * color@.height),
            r matches Some(b) ==> {
                &&& b@.wf()
                &&& b@.color == color@
                &&& b@.stride_a == stride_a
                &&& match data_a {
                    Some(alpha) => b@.data_a == Some(alpha@),
                    None => b@.data_a is None,
                }
            },
    {
        proof {
            use_type_invariant(&color);
        }
        let fits: bool = match &data_a {
            Some(alpha) => stride_a >= color.width() && plane_fits(
                alpha.len(),
                stride_a,
                color.height(),
            ),
            None => true,
        };
        if fits {
            Some(I420ABuffer { color, stride_a, data_a })
        } else {
            None
        }
    }

    pub fn width(&self) -> (r: u32)
        ensures
            r == self@.color.width,
    {
        self.color.width()
    }

    pub fn height(&self) -> (r: u32)
        ensures
            r == self@.color.height,
    {
        self.color.height()
    }

    /// Chroma samples per row: half the width, rounded up.
    pub fn chroma_width(&self) -> (r: u32)
        ensures
            r == ceil_half(self@.color.width),
    {
        self.color.chroma_width()
    }

    /// Chroma rows: half the height, rounded up.
    pub fn chroma_height(&self) -> (r: u32)
        ensures
            r == ceil_half(self@.color.height),
    {
        self.color.chroma_height()
    }

    pub fn stride_y(&self) -> (r: u32)
        ensures
            r == self@.color.stride_y,
            r >= self@.color.width,
    {
        self.color.stride_y()
    }

    pub fn stride_u(&self) -> (r: u32)
        ensures
            r == self@.color.stride_u,
            r >= ceil_half(self@.color.width),
    {
        self.color.stride_u()
    }

    pub fn stride_v(&self) -> (r: u32)
        ensures
            r == self@.color.stride_v,
            r >= ceil_half(self@.color.width),
    {
        self.color.stride_v()
    }

    pub fn stride_a(&self) -> (r: u32)
        ensures
            r == self@.stride_a,
            self@.data_a is Some ==> r >= self@.color.width,
    {
        proof {
            use_type_invariant(self);
        }
        self.stride_a
    }

    /// The planes Y, U and V as in I420, and the alpha plane of
    /// `stride_a * height` bytes where the frame has one.
    pub fn data(&self) -> (r: (&[u8], &[u8], &[u8], Option<&[u8]>))
        ensures
            self@.wf(),
            r.0@ == self@.color.data_y,
            r.1@ == self@.color.data_u,
            r.2@ == self@.color.data_v,
            r.0@.len() == self@.color.stride_y * self@.color.height,
            r.1@.len() == self@.color.stride_u * ceil_half(self@.color.height),
            r.2@.len() == self@.color.stride_v * ceil_half(self@.color.height),
            match r.3 {
                Some(alpha) => self@.data_a == Some(alpha@) && alpha@.len() == self@.stride_a
                    * self@.color.height,
                None => self@.data_a is None,
            },
    {
        proof {
            use_type_invariant(self);
        }
        let (y, u, v) = self.color.data();
        let alpha: Option<&[u8]> = match &self.data_a {
            Some(a) => Some(a.as_slice()),
            None => None,
        };
        (y, u, v, alpha)
    }

    /// The colour planes as an owned canonical I420 buffer; alpha is left
    /// behind.
    pub fn to_i420(&self) -> (r: I420Buffer)
        ensures
            self@.wf(),
            r@ == self@.color.canonical(),
            r@.wf(),
            r@.width == self@.color.width,
            r@.height == self@.color.height,
    {
        proof {
            use_type_invariant(self);
        }
        self.color.to_i420()
    }

    /// Reduces the frame to I420 and holds a packed destination against
    /// it. `Ok` carries the planes for the conversion primitive to read and
    /// the call it is to make; nothing is written here.
    pub fn to_argb(
        &self,
        format: VideoFormatType,
        dst: &[u8],
        dst_stride: u32,
        dst_width: i32,
        dst_height: i32,
    ) -> (r: Result<(I420Buffer, PackedLayout), ConvertError>)
        ensures
            packed_outcome(
                match r {
                    Ok(pair) => Ok(pair.1),
                    Err(e) => Err(e),
                },
                self@.color.width,
                self@.color.height,
                format,
                dst@.len() as int,
                dst_stride as int,
                dst_width as int,
                dst_height as int,
            ),
            r matches Ok(pair) ==> pair.0@ == self@.color.canonical(),
    {
        let reduced = self.to_i420();
        match reduced.to_argb(format, dst, dst_stride, dst_width, dst_height) {
            Ok(layout) => Ok((reduced, layout)),
            Err(e) => Err(e),
        }
    }
}

} // verus!
