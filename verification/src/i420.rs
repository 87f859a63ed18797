//! I420: three planes of 8-bit samples, chroma halved in both directions.
//! This is the canonical layout that every other layout is reduced to.

use vstd::prelude::*;
use crate::layout::ceil_half;
use crate::layout::compact_plane;
use crate::layout::copy_plane;
use crate::layout::half_up;
use crate::layout::lemma_compact_plane_agrees;
use crate::layout::lemma_compact_plane_sample;
use crate::layout::plane_fits;
use crate::layout::plane_offset;
use crate::packed::check_packed;
use crate::packed::packed_outcome;
use crate::packed::PackedLayout;
use crate::video_frame::ConvertError;
use crate::video_frame::VideoFormatType;

verus! {

/// What an I420 buffer holds: its extent, the distance between rows of each
/// plane, and the planes with their padding.
pub struct I420View {
    pub width: int,
    pub height: int,
    pub stride_y: int,
    pub stride_u: int,
    pub stride_v: int,
    pub data_y: Seq<u8>,
    pub data_u: Seq<u8>,
    pub data_v: Seq<u8>,
}

impl I420View {
    pub open spec fn chroma_width(self) -> int {
        ceil_half(self.width)
    }

    pub open spec fn chroma_height(self) -> int {
        ceil_half(self.height)
    }

    /// Every stride covers its row, and every plane holds exactly its
    /// stride times its rows.
    pub open spec fn wf(self) -> bool {
        &&& 0 <= self.width <= u32::MAX
        &&& 0 <= self.height <= u32::MAX
        &&& self.width <= self.stride_y <= u32::MAX
        &&& self.chroma_width() <= self.stride_u <= u32::MAX
        &&& self.chroma_width() <= self.stride_v <= u32::MAX
        &&& self.data_y.len() == self.stride_y * self.height
        &&& self.data_u.len() == self.stride_u * self.chroma_height()
        &&& self.data_v.len() == self.stride_v * self.chroma_height()
    }

    /// The luma sample of the pixel at (`row`, `col`).
    pub open spec fn y_at(self, row: int, col: int) -> u8 {
        self.data_y[plane_offset(self.stride_y, row, col)]
    }

    /// The U sample shared by the pixels of chroma position (`row`, `col`).
    pub open spec fn u_at(self, row: int, col: int) -> u8 {
        self.data_u[plane_offset(self.stride_u, row, col)]
    }

    /// The V sample shared by the pixels of chroma position (`row`, `col`).
    pub open spec fn v_at(self, row: int, col: int) -> u8 {
        self.data_v[plane_offset(self.stride_v, row, col)]
    }

    /// No plane has padding.
    pub open spec fn is_canonical(self) -> bool {
        &&& self.stride_y == self.width
        &&& self.stride_u == self.chroma_width()
        &&& self.stride_v == self.chroma_width()
    }

    /// The same picture with the padding of every plane left out.
    pub open spec fn canonical(self) -> I420View {
        I420View {
            width: self.width,
            height: self.height,
            stride_y: self.width,
            stride_u: self.chroma_width(),
            stride_v: self.chroma_width(),
            data_y: compact_plane(self.data_y, self.stride_y, self.width, self.height),
            data_u: compact_plane(
                self.data_u,
                self.stride_u,
                self.chroma_width(),
                self.chroma_height(),
            ),
            data_v: compact_plane(
                self.data_v,
                self.stride_v,
                self.chroma_width(),
                self.chroma_height(),
            ),
        }
    }

    /// Two pictures of one extent that agree on every sample, whatever
    /// their padding.
    pub open spec fn same_picture(self, other: I420View) -> bool {
        &&& self.width == other.width
        &&& self.height == other.height
        &&& forall|row: int, col: int|
            0 <= row < self.height && 0 <= col < self.width ==> #[trigger] self.y_at(row, col)
                == other.y_at(row, col)
        &&& forall|row: int, col: int|
            0 <= row < self.chroma_height() && 0 <= col < self.chroma_width()
                ==> #[trigger] self.u_at(row, col) == other.u_at(row, col)
        &&& forall|row: int, col: int|
            0 <= row < self.chroma_height() && 0 <= col < self.chroma_width()
                ==> #[trigger] self.v_at(row, col) == other.v_at(row, col)
    }
}

/// The canonical form of a well-formed picture is well formed, has no
/// padding, shows the same picture, and is its own canonical form.
pub proof fn lemma_canonical_keeps_picture(v: I420View)
    requires
        v.wf(),
    ensures
        v.canonical().wf(),
        v.canonical().is_canonical(),
        v.same_picture(v.canonical()),
        v.canonical().canonical() == v.canonical(),
{
    let c = v.canonical();
    let cw = v.chroma_width();
    let ch = v.chroma_height();
    assert(c.data_y.len() == c.stride_y * c.height);
    assert forall|row: int, col: int| 0 <= row < v.height && 0 <= col < v.width implies v.y_at(
        row,
        col,
    ) == c.y_at(row, col) by {
        lemma_compact_plane_sample(v.data_y, v.stride_y, v.width, v.height, row, col);
    }
    assert forall|row: int, col: int| 0 <= row < ch && 0 <= col < cw implies v.u_at(row, col)
        == c.u_at(row, col) by {
        lemma_compact_plane_sample(v.data_u, v.stride_u, cw, ch, row, col);
    }
    assert forall|row: int, col: int| 0 <= row < ch && 0 <= col < cw implies v.v_at(row, col)
        == c.v_at(row, col) by {
        lemma_compact_plane_sample(v.data_v, v.stride_v, cw, ch, row, col);
    }
    lemma_same_picture_same_canonical(c, v);
}

/// Pictures that agree on every sample have one canonical form: padding
/// does not show.
pub proof fn lemma_same_picture_same_canonical(a: I420View, b: I420View)
    requires
        a.wf(),
        b.wf(),
        a.same_picture(b),
    ensures
        a.canonical() == b.canonical(),
{
    let cw = a.chroma_width();
    let ch = a.chroma_height();
    assert forall|row: int, col: int| 0 <= row < a.height && 0 <= col < a.width implies a.data_y[
    #[trigger] plane_offset(a.stride_y, row, col)] == b.data_y[plane_offset(
        b.stride_y,
        row,
        col,
    )] by {
        assert(a.y_at(row, col) == b.y_at(row, col));
    }
    assert forall|row: int, col: int| 0 <= row < ch && 0 <= col < cw implies a.data_u[
    #[trigger] plane_offset(a.stride_u, row, col)] == b.data_u[plane_offset(
        b.stride_u,
        row,
        col,
    )] by {
        assert(a.u_at(row, col) == b.u_at(row, col));
    }
    assert forall|row: int, col: int| 0 <= row < ch && 0 <= col < cw implies a.data_v[
    #[trigger] plane_offset(a.stride_v, row, col)] == b.data_v[plane_offset(
        b.stride_v,
        row,
        col,
    )] by {
        assert(a.v_at(row, col) == b.v_at(row, col));
    }
    lemma_compact_plane_agrees(a.data_y, a.stride_y, b.data_y, b.stride_y, a.width, a.height);
    lemma_compact_plane_agrees(a.data_u, a.stride_u, b.data_u, b.stride_u, cw, ch);
    lemma_compact_plane_agrees(a.data_v, a.stride_v, b.data_v, b.stride_v, cw, ch);
}

/// A frame in I420 layout that owns its planes.
#[derive(Debug)]
pub struct I420Buffer {
    width: u32,
    height: u32,
    stride_y: u32,
    stride_u: u32,
    stride_v: u32,
    data_y: Vec<u8>,
    data_u: Vec<u8>,
    data_v: Vec<u8>,
}

impl View for I420Buffer {
    type V = I420View;

    closed spec fn view(&self) -> I420View {
        I420View {
            width: self.width as int,
            height: self.height as int,
            stride_y: self.stride_y as int,
            stride_u: self.stride_u as int,
            stride_v: self.stride_v as int,
            data_y: self.data_y@,
            data_u: self.data_u@,
            data_v: self.data_v@,
        }
    }
}

impl I420Buffer {
    #[verifier::type_invariant]
    pub open spec fn inv(self) -> bool {
        self@.wf()
    }

    /// A buffer of `width` × `height` pixels without padding, every sample
    /// zero.
    pub fn new(width: u32, height: u32) -> (r: I420Buffer)
        requires
            width <= i32::MAX,
            height <= i32::MAX,
            width * height <= usize::MAX,
        ensures
            r@.wf(),
            r@.is_canonical(),
            r@.width == width,
            r@.height == height,
            r@.data_y == Seq::new((width * height) as nat, |i: int| 0u8),
            r@.data_u == Seq::new((ceil_half(width as int) * ceil_half(height as int)) as nat, |i: int| 0u8),
            r@.data_v == r@.data_u,
    {
        let cw: u32 = half_up(width);
        let ch: u32 = half_up(height);
        assert(cw * ch <= width * height) by (nonlinear_arith)
            requires
                0 <= cw <= width,
                0 <= ch <= height,
        ;
        let luma: usize = (width as usize) * (height as usize);
        let chroma: usize = (cw as usize) * (ch as usize);
        let data_y: Vec<u8> = vec![0u8; luma];
        let data_u: Vec<u8> = vec![0u8; chroma];
        let data_v: Vec<u8> = vec![0u8; chroma];
        assert(data_y@ =~= Seq::new((width * height) as nat, |i: int| 0u8));
        assert(data_u@ =~= Seq::new((cw * ch) as nat, |i: int| 0u8));
        assert(data_v@ =~= data_u@);
        I420Buffer {
            width,
            height,
            stride_y: width,
            stride_u: cw,
            stride_v: cw,
            data_y,
            data_u,
            data_v,
        }
    }

    /// A buffer over planes that are known to fit their strides.
    pub(crate) fn assemble(
        width: u32,
        height: u32,
        stride_y: u32,
        stride_u: u32,
        stride_v: u32,
        data_y: Vec<u8>,
        data_u: Vec<u8>,
        data_v: Vec<u8>,
    ) -> (r: I420Buffer)
        requires
            (I420View {
                width: width as int,
                height: height as int,
                stride_y: stride_y as int,
                stride_u: stride_u as int,
                stride_v: stride_v as int,
                data_y: data_y@,
                data_u: data_u@,
                data_v: data_v@,
            }).wf(),
        ensures
            r@ == (I420View {
                width: width as int,
                height: height as int,
                stride_y: stride_y as int,
                stride_u: stride_u as int,
                stride_v: stride_v as int,
                data_y: data_y@,
                data_u: data_u@,
                data_v: data_v@,
            }),
    {
        I420Buffer { width, height, stride_y, stride_u, stride_v, data_y, data_u, data_v }
    }

    /// A buffer over planes that were filled elsewhere, or `None` where a
    /// stride is shorter than its row or a plane does not hold exactly its
    /// stride times its rows.
    pub fn from_planes(
        width: u32,
        height: u32,
        stride_y: u32,
        stride_u: u32,
        stride_v: u32,
        data_y: Vec<u8>,
        data_u: Vec<u8>,
        data_v: Vec<u8>,
    ) -> (r: Option<I420Buffer>)
        ensures
            r is Some <==> (I420View {
                width: width as int,
                height: height as int,
                stride_y: stride_y as int,
                stride_u: stride_u as int,
                stride_v: stride_v as int,
                data_y: data_y@,
                data_u: data_u@,
                data_v: data_v@,
            }).wf(),
            r matches Some(b) ==> b@ == (I420View {
                width: width as int,
                height: height as int,
                stride_y: stride_y as int,
                stride_u: stride_u as int,
                stride_v: stride_v as int,
                data_y: data_y@,
                data_u: data_u@,
                data_v: data_v@,
            }),
    {
        let cw: u32 = half_up(width);
        let ch: u32 = half_up(height);
        if stride_y >= width && stride_u >= cw && stride_v >= cw && plane_fits(
            data_y.len(),
            stride_y,
            height,
        ) && plane_fits(data_u.len(), stride_u, ch) && plane_fits(data_v.len(), stride_v, ch) {
            Some(I420Buffer { width, height, stride_y, stride_u, stride_v, data_y, data_u, data_v })
        } else {
            None
        }
    }

    pub fn width(&self) -> (r: u32)
        ensures
            r == self@.width,
    {
        self.width
    }

    pub fn height(&self) -> (r: u32)
        ensures
            r == self@.height,
    {
        self.height
    }

    /// Chroma samples per row: half the width, rounded up.
    pub fn chroma_width(&self) -> (r: u32)
        ensures
            r == ceil_half(self@.width),
    {
        half_up(self.width)
    }

    /// Chroma rows: half the height, rounded up.
    pub fn chroma_height(&self) -> (r: u32)
        ensures
            r == ceil_half(self@.height),
    {
        half_up(self.height)
    }

    pub fn stride_y(&self) -> (r: u32)
        ensures
            r == self@.stride_y,
            r >= self@.width,
    {
        proof {
            use_type_invariant(self);
        }
        self.stride_y
    }

    pub fn stride_u(&self) -> (r: u32)
        ensures
            r == self@.stride_u,
            r >= ceil_half(self@.width),
    {
        proof {
            use_type_invariant(self);
        }
        self.stride_u
    }

    pub fn stride_v(&self) -> (r: u32)
        ensures
            r == self@.stride_v,
            r >= ceil_half(self@.width),
    {
        proof {
            use_type_invariant(self);
        }
        self.stride_v
    }

    /// The planes Y, U and V with their padding: `stride_y * height` bytes
    /// of luma and `stride * chroma_height` bytes of each chroma plane.
    pub fn data(&self) -> (r: (&[u8], &[u8], &[u8]))
        ensures
            self@.wf(),
            r.0@ == self@.data_y,
            r.1@ == self@.data_u,
            r.2@ == self@.data_v,
            r.0@.len() == self@.stride_y * self@.height,
            r.1@.len() == self@.stride_u * ceil_half(self@.height),
            r.2@.len() == self@.stride_v * ceil_half(self@.height),
    {
        proof {
            use_type_invariant(self);
        }
        (self.data_y.as_slice(), self.data_u.as_slice(), self.data_v.as_slice())
    }

    /// An owned copy in canonical form: the same picture in planes of its
    /// own, without padding.
    pub fn to_i420(&self) -> (r: I420Buffer)
        ensures
            self@.wf(),
            r@ == self@.canonical(),
            r@.wf(),
            r@.width == self@.width,
            r@.height == self@.height,
    {
        proof {
            use_type_invariant(self);
            lemma_canonical_keeps_picture(self@);
        }
        let cw: u32 = half_up(self.width);
        let ch: u32 = half_up(self.height);
        let data_y: Vec<u8> = copy_plane(
            self.data_y.as_slice(),
            self.stride_y,
            self.width,
            self.height,
        );
        let data_u: Vec<u8> = copy_plane(self.data_u.as_slice(), self.stride_u, cw, ch);
        let data_v: Vec<u8> = copy_plane(self.data_v.as_slice(), self.stride_v, cw, ch);
        I420Buffer {
            width: self.width,
            height: self.height,
            stride_y: self.width,
            stride_u: cw,
            stride_v: cw,
            data_y,
            data_u,
            data_v,
        }
    }

    /// Accepts this buffer as what the conversion primitive made of a
    /// frame of `width` × `height` pixels: the extent must be that of the
    /// frame.
    pub fn expect_extent(self, width: u32, height: u32) -> (r: Result<I420Buffer, ConvertError>)
        ensures
            match r {
                Ok(b) => b == self && b@.wf() && self@.width == width && self@.height == height,
                Err(e) => e == ConvertError::DimensionMismatch && (self@.width != width
                    || self@.height != height),
            },
    {
        proof {
            use_type_invariant(&self);
        }
        if self.width == width && self.height == height {
            Ok(self)
        } else {
            Err(ConvertError::DimensionMismatch)
        }
    }

    /// Holds a packed destination against this frame. `Ok` describes the
    /// call that the conversion primitive is to make on the planes of this
    /// buffer; nothing is written here.
    pub fn to_argb(
        &self,
        format: VideoFormatType,
        dst: &[u8],
        dst_stride: u32,
        dst_width: i32,
        dst_height: i32,
    ) -> (r: Result<PackedLayout, ConvertError>)
        ensures
            packed_outcome(
                r,
                self@.width,
                self@.height,
                format,
                dst@.len() as int,
                dst_stride as int,
                dst_width as int,
                dst_height as int,
            ),
    {
        check_packed(
            self.width,
            self.height,
            format,
            dst.len(),
            dst_stride,
            dst_width,
            dst_height,
        )
    }
}

} // verus!
