//! NV12: a luma plane and one chroma plane in which U and V alternate.

use vstd::prelude::*;
use crate::i420::I420Buffer;
use crate::i420::I420View;
use crate::layout::ceil_half;
use crate::layout::compact_plane;
use crate::layout::copy_deinterleaved;
use crate::layout::copy_plane;
use crate::layout::deinterleaved_plane;
use crate::layout::half_up;
use crate::layout::lemma_position_in_window;
use crate::layout::plane_fits;
use crate::layout::plane_offset;
use crate::packed::packed_outcome;
use crate::packed::PackedLayout;
use crate::video_frame::ConvertError;
use crate::video_frame::VideoFormatType;

verus! {

/// What an NV12 buffer holds. Each row of `data_uv` holds `chroma_width`
/// pairs, U first.
pub struct NV12View {
    pub width: int,
    pub height: int,
    pub stride_y: int,
    pub stride_uv: int,
    pub data_y: Seq<u8>,
    pub data_uv: Seq<u8>,
}

impl NV12View {
    pub open spec fn chroma_width(self) -> int {
        ceil_half(self.width)
    }

    pub open spec fn chroma_height(self) -> int {
        ceil_half(self.height)
    }

    /// Every stride covers its row (two bytes per chroma position), and
    /// every plane holds exactly its stride times its rows.
    pub open spec fn wf(self) -> bool {
        &&& 0 <= self.width <= u32::MAX
        &&& 0 <= self.height <= u32::MAX
        &&& self.width <= self.stride_y <= u32::MAX
        &&& 2 * self.chroma_width() <= self.stride_uv <= u32::MAX
        &&& self.data_y.len() == self.stride_y * self.height
        &&& self.data_uv.len() == self.stride_uv * self.chroma_height()
    }

    pub open spec fn y_at(self, row: int, col: int) -> u8 {
        self.data_y[plane_offset(self.stride_y, row, col)]
    }

    pub open spec fn u_at(self, row: int, col: int) -> u8 {
        self.data_uv[plane_offset(self.stride_uv, row, 2 * col)]
    }

    pub open spec fn v_at(self, row: int, col: int) -> u8 {
        self.data_uv[plane_offset(self.stride_uv, row, 2 * col + 1)]
    }

    /// The same picture in canonical I420: luma without padding, and the
    /// chroma pairs taken apart into a U plane and a V plane.
    pub open spec fn to_i420(self) -> I420View {
        I420View {
            width: self.width,
            height: self.height,
            stride_y: self.width,
            stride_u: self.chroma_width(),
            stride_v: self.chroma_width(),
            data_y: compact_plane(self.data_y, self.stride_y, self.width, self.height),
            data_u: deinterleaved_plane(
                self.data_uv,
                self.stride_uv,
                self.chroma_width(),
                self.chroma_height(),
                0,
            ),
            data_v: deinterleaved_plane(
                self.data_uv,
                self.stride_uv,
                self.chroma_width(),
                self.chroma_height(),
                1,
            ),
        }
    }

    /// This picture and an I420 picture of one extent agree on every
    /// sample.
    pub open spec fn same_picture(self, other: I420View) -> bool {
        &&& self.width == other.width
        &&& self.height == other.height
        &&& forall|row: int, col: int|
            0 <= row < self.height && 0 <= col < self.width ==> #[trigger] self.y_at(row, col)
                == other.y_at(row, col)
        &&& forall|row: int, col: int|
            0 <= row < self.chroma_height() && 0 <= col < self.chroma_width()
                ==> #[trigger] self.u_at(row, col) == other.u_at(row, col)
        &&& forall|row: int, col: int|
            0 <= row < self.chroma_height() && 0 <= col < self.chroma_width()
                ==> #[trigger] self.v_at(row, col) == other.v_at(row, col)
    }
}

/// Reducing NV12 to I420 gives a well-formed canonical picture of the same
/// extent.
pub proof fn lemma_nv12_to_i420_wf(n: NV12View)
    requires
        n.wf(),
    ensures
        n.to_i420().wf(),
        n.to_i420().is_canonical(),
        n.to_i420().width == n.width,
        n.to_i420().height == n.height,
{
}

/// An NV12 picture and an I420 picture that carry the same samples reduce
/// to one canonical I420 picture. What the conversion primitive is handed
/// is then the same for both, and so is every packed output it writes.
pub proof fn lemma_nv12_and_i420_reduce_alike(n: NV12View, b: I420View)
    requires
        n.wf(),
        b.wf(),
        n.same_picture(b),
    ensures
        n.to_i420() == b.canonical(),
{
    let cw = n.chroma_width();
    let ch = n.chroma_height();
    let r = n.to_i420();
    let c = b.canonical();
    assert forall|i: int| 0 <= i < r.data_y.len() implies r.data_y[i] == c.data_y[i] by {
        lemma_position_in_window(n.width, n.height, i);
        assert(n.y_at(i / n.width, i % n.width) == b.y_at(i / n.width, i % n.width));
    }
    assert(r.data_y =~= c.data_y);
    assert forall|i: int| 0 <= i < r.data_u.len() implies r.data_u[i] == c.data_u[i] by {
        lemma_position_in_window(cw, ch, i);
        assert(n.u_at(i / cw, i % cw) == b.u_at(i / cw, i % cw));
    }
    assert(r.data_u =~= c.data_u);
    assert forall|i: int| 0 <= i < r.data_v.len() implies r.data_v[i] == c.data_v[i] by {
        lemma_position_in_window(cw, ch, i);
        assert(n.v_at(i / cw, i % cw) == b.v_at(i / cw, i % cw));
    }
    assert(r.data_v =~= c.data_v);
}

/// A frame in NV12 layout that owns its planes.
#[derive(Debug)]
pub struct NV12Buffer {
    width: u32,
    height: u32,
    stride_y: u32,
    stride_uv: u32,
    data_y: Vec<u8>,
    data_uv: Vec<u8>,
}

impl View for NV12Buffer {
    type V = NV12View;

    closed spec fn view(&self) -> NV12View {
        NV12View {
            width: self.width as int,
            height: self.height as int,
            stride_y: self.stride_y as int,
            stride_uv: self.stride_uv as int,
            data_y: self.data_y@,
            data_uv: self.data_uv@,
        }
    }
}

impl NV12Buffer {
    #[verifier::type_invariant]
    spec fn inv(self) -> bool {
        self@.wf()
    }

    /// A buffer over planes that were filled elsewhere, or `None` where a
    /// stride is shorter than its row or a plane does not hold exactly its
    /// stride times its rows.
    pub fn from_planes(
        width: u32,
        height: u32,
        stride_y: u32,
        stride_uv: u32,
        data_y: Vec<u8>,
        data_uv: Vec<u8>,
    ) -> (r: Option<NV12Buffer>)
        ensures
            r is Some <==> (NV12View {
                width: width as int,
                height: height as int,
                stride_y: stride_y as int,
                stride_uv: stride_uv as int,
                data_y: data_y@,
                data_uv: data_uv@,
            }).wf(),
            r matches Some(b) ==> b@ == (NV12View {
                width: width as int,
                height: height as int,
                stride_y: stride_y as int,
                stride_uv: stride_uv as int,
                data_y: data_y@,
                data_uv: data_uv@,
            }),
    {
        let cw: u32 = half_up(width);
        let ch: u32 = half_up(height);
        if stride_y >= width && (stride_uv as u64) >= 2 * (cw as u64) && plane_fits(
            data_y.len(),
            stride_y,
            height,
        ) && plane_fits(data_uv.len(), stride_uv, ch) {
            Some(NV12Buffer { width, height, stride_y, stride_uv, data_y, data_uv })
        } else {
            None
        }
    }

    pub fn width(&self) -> (r: u32)
        ensures
            r == self@.width,
    {
        self.width
    }

    pub fn height(&self) -> (r: u32)
        ensures
            r == self@.height,
    {
        self.height
    }

    /// Chroma positions per row: half the width, rounded up.
    pub fn chroma_width(&self) -> (r: u32)
        ensures
            r == ceil_half(self@.width),
    {
        half_up(self.width)
    }

    /// Chroma rows: half the height, rounded up.
    pub fn chroma_height(&self) -> (r: u32)
        ensures
            r == ceil_half(self@.height),
    {
        half_up(self.height)
    }

    pub fn stride_y(&self) -> (r: u32)
        ensures
            r == self@.stride_y,
            r >= self@.width,
    {
        proof {
            use_type_invariant(self);
        }
        self.stride_y
    }

    pub fn stride_uv(&self) -> (r: u32)
        ensures
            r == self@.stride_uv,
            r >= 2 * ceil_half(self@.width),
    {
        proof {
            use_type_invariant(self);
        }
        self.stride_uv
    }

    /// The luma plane and the interleaved chroma plane with their padding:
    /// `stride_y * height` and `stride_uv * chroma_height` bytes.
    pub fn data(&self) -> (r: (&[u8], &[u8]))
        ensures
            self@.wf(),
            r.0@ == self@.data_y,
            r.1@ == self@.data_uv,
            r.0@.len() == self@.stride_y * self@.height,
            r.1@.len() == self@.stride_uv * ceil_half(self@.height),
    {
        proof {
            use_type_invariant(self);
        }
        (self.data_y.as_slice(), self.data_uv.as_slice())
    }

    /// The same picture as an owned canonical I420 buffer; the chroma
    /// pairs are taken apart.
    pub fn to_i420(&self) -> (r: I420Buffer)
        ensures
            self@.wf(),
            r@ == self@.to_i420(),
            r@.wf(),
            r@.width == self@.width,
            r@.height == self@.height,
    {
        proof {
            use_type_invariant(self);
        }
        let cw: u32 = half_up(self.width);
        let ch: u32 = half_up(self.height);
        let data_y: Vec<u8> = copy_plane(
            self.data_y.as_slice(),
            self.stride_y,
            self.width,
            self.height,
        );
        let data_u: Vec<u8> = copy_deinterleaved(self.data_uv.as_slice(), self.stride_uv, cw, ch, 0);
        let data_v: Vec<u8> = copy_deinterleaved(self.data_uv.as_slice(), self.stride_uv, cw, ch, 1);
        proof {
            lemma_nv12_to_i420_wf(self@);
        }
        I420Buffer::assemble(self.width, self.height, self.width, cw, cw, data_y, data_u, data_v)
    }

    /// Reduces the frame to I420 and holds a packed destination against
    /// it. `Ok` carries the planes for the conversion primitive to read and
    /// the call it is to make; nothing is written here.
    pub fn to_argb(
        &self,
        format: VideoFormatType,
        dst: &[u8],
        dst_stride: u32,
        dst_width: i32,
        dst_height: i32,
    ) -> (r: Result<(I420Buffer, PackedLayout), ConvertError>)
        ensures
            packed_outcome(
                match r {
                    Ok(pair) => Ok(pair.1),
                    Err(e) => Err(e),
                },
                self@.width,
                self@.height,
                format,
                dst@.len() as int,
                dst_stride as int,
                dst_width as int,
                dst_height as int,
            ),
            r matches Ok(pair) ==> pair.0@ == self@.to_i420(),
    {
        let reduced = self.to_i420();
        match reduced.to_argb(format, dst, dst_stride, dst_width, dst_height) {
            Ok(layout) => Ok((reduced, layout)),
            Err(e) => Err(e),
        }
    }
}

} // verus!
