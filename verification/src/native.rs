//! A frame that the platform holds in a layout of its own. Its samples
//! cannot be read here: the platform has to reduce it to I420 first.

use vstd::prelude::*;
use crate::i420::I420Buffer;
use crate::packed::packed_outcome;
use crate::packed::PackedLayout;
use crate::video_frame::ConvertError;
use crate::video_frame::UnsupportedVariant;
use crate::video_frame::VideoFormatType;

verus! {

/// A frame of which only the extent is known.
#[derive(Clone, Copy, Debug, PartialEq, Eq, Structural)]
pub struct NativeBuffer {
    width: u32,
    height: u32,
}

/// The extent of a native frame.
pub struct NativeView {
    pub width: int,
    pub height: int,
}

impl View for NativeBuffer {
    type V = NativeView;

    closed spec fn view(&self) -> NativeView {
        NativeView { width: self.width as int, height: self.height as int }
    }
}

impl NativeBuffer {
    pub fn new(width: u32, height: u32) -> (r: NativeBuffer)
        ensures
            r@.width == width,
            r@.height == height,
    {
        NativeBuffer { width, height }
    }

    pub fn width(&self) -> (r: u32)
        ensures
            r == self@.width,
    {
        self.width
    }

    pub fn height(&self) -> (r: u32)
        ensures
            r == self@.height,
    {
        self.height
    }

    /// Whether the platform reduced this frame: it handed back a picture,
    /// and the picture has this frame's extent.
    pub open spec fn reduced_by(self, converted: Option<I420Buffer>) -> bool {
        converted matches Some(b) && b@.width == self@.width && b@.height == self@.height
    }

    /// Accepts `converted`, what the platform made of this frame. `None`,
    /// or a picture of another extent, means that the platform cannot
    /// reduce the frame.
    pub fn to_i420(&self, converted: Option<I420Buffer>) -> (r: Result<
        I420Buffer,
        UnsupportedVariant,
    >)
        ensures
            r is Ok <==> self.reduced_by(converted),
            r matches Ok(b) ==> Some(b) == converted && b@.wf(),
    {
        match converted {
            Some(b) => match b.expect_extent(self.width, self.height) {
                Ok(b) => Ok(b),
                Err(_) => Err(UnsupportedVariant),
            },
            None => Err(UnsupportedVariant),
        }
    }

    /// Accepts `converted` as in `to_i420` and holds a packed destination
    /// against it. A frame that the platform did not reduce has no packed
    /// form.
    pub fn to_argb(
        &self,
        converted: Option<I420Buffer>,
        format: VideoFormatType,
        dst: &[u8],
        dst_stride: u32,
        dst_width: i32,
        dst_height: i32,
    ) -> (r: Result<(I420Buffer, PackedLayout), ConvertError>)
        ensures
            match r {
                Ok(pair) => {
                    &&& self.reduced_by(converted)
                    &&& Some(pair.0) == converted
                    &&& packed_outcome(
                        Ok(pair.1),
                        self@.width,
                        self@.height,
                        format,
                        dst@.len() as int,
                        dst_stride as int,
                        dst_width as int,
                        dst_height as int,
                    )
                },
                Err(e) => if !self.reduced_by(converted) {
                    e == ConvertError::UnsupportedFormat
                } else {
                    packed_outcome(
                        Err(e),
                        self@.width,
                        self@.height,
                        format,
                        dst@.len() as int,
                        dst_stride as int,
                        dst_width as int,
                        dst_height as int,
                    )
                },
            },
    {
        match self.to_i420(converted) {
            Ok(reduced) => match reduced.to_argb(format, dst, dst_stride, dst_width, dst_height) {
                Ok(layout) => Ok((reduced, layout)),
                Err(e) => Err(e),
            },
            Err(_) => Err(ConvertError::UnsupportedFormat),
        }
    }
}

} // verus!
