//! The vocabulary shared by all frame buffers: rotation, packed formats,
//! buffer kinds and the errors of a conversion.

use vstd::prelude::*;

verus! {

/// Clockwise rotation that accompanies a frame. It is carried with the frame
/// and never applied to the samples.
#[derive(Clone, Copy, Debug, PartialEq, Eq, Structural)]
pub enum VideoRotation {
    VideoRotation0,
    VideoRotation90,
    VideoRotation180,
    VideoRotation270,
}

impl VideoRotation {
    /// The rotation in degrees.
    pub open spec fn angle(self) -> int {
        match self {
            VideoRotation::VideoRotation0 => 0,
            VideoRotation::VideoRotation90 => 90,
            VideoRotation::VideoRotation180 => 180,
            VideoRotation::VideoRotation270 => 270,
        }
    }

    /// Whether `degrees` is one of the four rotations a frame can carry.
    pub open spec fn is_angle(degrees: int) -> bool {
        degrees == 0 || degrees == 90 || degrees == 180 || degrees == 270
    }

    /// The number by which the native layer names this rotation.
    pub fn degrees(self) -> (r: i32)
        ensures
            r == self.angle(),
    {
        match self {
            VideoRotation::VideoRotation0 => 0,
            VideoRotation::VideoRotation90 => 90,
            VideoRotation::VideoRotation180 => 180,
            VideoRotation::VideoRotation270 => 270,
        }
    }

    /// The rotation that the native layer names by `degrees`, if there is one.
    pub fn from_degrees(degrees: i32) -> (r: Option<VideoRotation>)
        ensures
            r is Some <==> Self::is_angle(degrees as int),
            r matches Some(rotation) ==> rotation.angle() == degrees,
    {
        if degrees == 0 {
            Some(VideoRotation::VideoRotation0)
        } else if degrees == 90 {
            Some(VideoRotation::VideoRotation90)
        } else if degrees == 180 {
            Some(VideoRotation::VideoRotation180)
        } else if degrees == 270 {
            Some(VideoRotation::VideoRotation270)
        } else {
            None
        }
    }
}

/// A rotation is determined by its angle: two rotations with one angle are
/// the same rotation, so going to degrees and back loses nothing.
pub proof fn lemma_rotation_angle_injective(a: VideoRotation, b: VideoRotation)
    ensures
        VideoRotation::is_angle(a.angle()),
        a.angle() == b.angle() ==> a == b,
{
}

/// Byte order of a packed destination; every pixel takes four bytes.
#[allow(clippy::upper_case_acronyms)]
#[derive(Clone, Copy, Debug, PartialEq, Eq, Structural)]
pub enum VideoFormatType {
    ARGB,
    BGRA,
    ABGR,
    RGBA,
}

/// The pixel layouts in which a frame can arrive.
#[derive(Clone, Copy, Debug, PartialEq, Eq, Structural)]
pub enum VideoFrameBufferType {
    Native,
    I420,
    I420A,
    I422,
    I444,
    I010,
    NV12,
}

impl VideoFrameBufferType {
    /// The number by which the native layer names this layout.
    pub open spec fn index(self) -> int {
        match self {
            VideoFrameBufferType::Native => 0,
            VideoFrameBufferType::I420 => 1,
            VideoFrameBufferType::I420A => 2,
            VideoFrameBufferType::I422 => 3,
            VideoFrameBufferType::I444 => 4,
            VideoFrameBufferType::I010 => 5,
            VideoFrameBufferType::NV12 => 6,
        }
    }

    /// Whether chroma is halved in both directions.
    pub open spec fn is_420(self) -> bool {
        self == VideoFrameBufferType::I420 || self == VideoFrameBufferType::I420A || self
            == VideoFrameBufferType::I010 || self == VideoFrameBufferType::NV12
    }

    /// Whether the layout can be brought to I420 by moving samples alone,
    /// without resampling, bit-depth reduction or the platform's help.
    pub open spec fn reducible(self) -> bool {
        self == VideoFrameBufferType::I420 || self == VideoFrameBufferType::I420A || self
            == VideoFrameBufferType::NV12
    }

    /// Chroma samples per row for `width` luma samples, for a layout with
    /// planes.
    pub open spec fn chroma_width_of(self, width: int) -> int {
        if self == VideoFrameBufferType::I444 {
            width
        } else {
            crate::layout::ceil_half(width)
        }
    }

    /// Chroma rows for `height` luma rows, for a layout with planes.
    pub open spec fn chroma_height_of(self, height: int) -> int {
        if self.is_420() {
            crate::layout::ceil_half(height)
        } else {
            height
        }
    }

    pub fn repr(self) -> (r: i32)
        ensures
            r == self.index(),
    {
        match self {
            VideoFrameBufferType::Native => 0,
            VideoFrameBufferType::I420 => 1,
            VideoFrameBufferType::I420A => 2,
            VideoFrameBufferType::I422 => 3,
            VideoFrameBufferType::I444 => 4,
            VideoFrameBufferType::I010 => 5,
            VideoFrameBufferType::NV12 => 6,
        }
    }

    /// The layout that the native layer names by `repr`, if there is one.
    pub fn from_repr(repr: i32) -> (r: Option<VideoFrameBufferType>)
        ensures
            r is Some <==> 0 <= repr <= 6,
            r matches Some(kind) ==> kind.index() == repr,
    {
        if repr == 0 {
            Some(VideoFrameBufferType::Native)
        } else if repr == 1 {
            Some(VideoFrameBufferType::I420)
        } else if repr == 2 {
            Some(VideoFrameBufferType::I420A)
        } else if repr == 3 {
            Some(VideoFrameBufferType::I422)
        } else if repr == 4 {
            Some(VideoFrameBufferType::I444)
        } else if repr == 5 {
            Some(VideoFrameBufferType::I010)
        } else if repr == 6 {
            Some(VideoFrameBufferType::NV12)
        } else {
            None
        }
    }
}

/// Why a conversion was refused. The frame concerned is dropped; later
/// frames are not affected.
#[derive(Clone, Copy, Debug, PartialEq, Eq, Structural)]
pub enum ConvertError {
    /// The two sides disagree on width or height, or the destination stride
    /// is shorter than one row of pixels.
    DimensionMismatch,
    /// The destination holds fewer bytes than its stride times its height.
    BufferTooSmall,
    /// The source layout cannot be brought to the packed format without
    /// samples that only the conversion primitive can produce.
    UnsupportedFormat,
}

/// A native buffer that the platform could not reduce to I420.
#[derive(Clone, Copy, Debug, PartialEq, Eq, Structural)]
pub struct UnsupportedVariant;

/// Why a frame was dropped on its way to a packed destination.
#[derive(Clone, Copy, Debug, PartialEq, Eq, Structural)]
pub enum FrameError {
    Convert(ConvertError),
    Unsupported(UnsupportedVariant),
}

} // verus!
