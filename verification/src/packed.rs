//! The checks that stand before a conversion from I420 into a packed
//! destination of four bytes per pixel.

use vstd::prelude::*;
use crate::video_frame::ConvertError;
use crate::video_frame::VideoFormatType;

verus! {

/// A conversion that passed every check: what the conversion primitive is
/// asked to write, and where.
#[derive(Clone, Copy, Debug, PartialEq, Eq, Structural)]
pub struct PackedLayout {
    pub format: VideoFormatType,
    pub width: u32,
    pub height: u32,
    /// Bytes from the start of one destination row to the next.
    pub stride: u32,
    /// Bytes of the destination that the rows span: `stride * height`.
    pub byte_len: usize,
}

/// The error with which a packed conversion of a `src_width` × `src_height`
/// frame is refused, or `None` where it goes ahead: first the dimensions and
/// the stride are held against the source, then the capacity against the
/// rows.
pub open spec fn packed_refusal(
    src_width: int,
    src_height: int,
    capacity: int,
    dst_stride: int,
    dst_width: int,
    dst_height: int,
) -> Option<ConvertError> {
    if dst_width != src_width || dst_height != src_height || dst_stride < 4 * dst_width {
        Some(ConvertError::DimensionMismatch)
    } else if capacity < dst_stride * dst_height {
        Some(ConvertError::BufferTooSmall)
    } else {
        None
    }
}

/// What `check_packed` answers: the layout, or the refusal.
pub open spec fn packed_outcome(
    r: Result<PackedLayout, ConvertError>,
    src_width: int,
    src_height: int,
    format: VideoFormatType,
    capacity: int,
    dst_stride: int,
    dst_width: int,
    dst_height: int,
) -> bool {
    match r {
        Ok(layout) => {
            &&& packed_refusal(src_width, src_height, capacity, dst_stride, dst_width, dst_height)
                is None
            &&& layout.format == format
            &&& layout.width == src_width
            &&& layout.height == src_height
            &&& layout.stride == dst_stride
            &&& layout.byte_len == dst_stride * dst_height
        },
        Err(e) => packed_refusal(
            src_width,
            src_height,
            capacity,
            dst_stride,
            dst_width,
            dst_height,
        ) == Some(e),
    }
}

/// Holds a packed destination of `capacity` bytes against a source frame of
/// `src_width` × `src_height` pixels.
pub fn check_packed(
    src_width: u32,
    src_height: u32,
    format: VideoFormatType,
    capacity: usize,
    dst_stride: u32,
    dst_width: i32,
    dst_height: i32,
) -> (r: Result<PackedLayout, ConvertError>)
    ensures
        packed_outcome(
            r,
            src_width as int,
            src_height as int,
            format,
            capacity as int,
            dst_stride as int,
            dst_width as int,
            dst_height as int,
        ),
{
    if dst_width < 0 || dst_height < 0 {
        return Err(ConvertError::DimensionMismatch);
    }
    if dst_width as u32 != src_width || dst_height as u32 != src_height {
        return Err(ConvertError::DimensionMismatch);
    }
    if (dst_stride as u64) < 4 * (src_width as u64) {
        return Err(ConvertError::DimensionMismatch);
    }
    assert(dst_stride * src_height <= 0xFFFF_FFFF * 0xFFFF_FFFF) by (nonlinear_arith)
        requires
            dst_stride <= 0xFFFF_FFFF,
            src_height <= 0xFFFF_FFFF,
    ;
    let needed: u64 = (dst_stride as u64) * (src_height as u64);
    if (capacity as u64) < needed {
        return Err(ConvertError::BufferTooSmall);
    }
    Ok(
        PackedLayout {
            format,
            width: src_width,
            height: src_height,
            stride: dst_stride,
            byte_len: needed as usize,
        },
    )
}

/// A destination that is refused for one source frame says nothing about
/// the next: whether a conversion goes ahead depends on that conversion's
/// own arguments alone, and a tight destination of `4 * width * height`
/// bytes is never refused.
pub proof fn lemma_tight_destination_accepted(width: int, height: int)
    requires
        0 <= width,
        0 <= height,
    ensures
        packed_refusal(width, height, 4 * width * height, 4 * width, width, height) is None,
{
    assert(4 * width * height == (4 * width) * height) by (nonlinear_arith);
}

} // verus!
