//! The state behind one renderer: the staging buffer that packed pixels are
//! converted into, the extent of the texture that shows them, and the
//! handle by which the host UI refers to that texture.
//!
//! Creating a texture and registering it with the UI are the host's work.
//! The cache decides when they are due and is told when they are done.

use vstd::prelude::*;
use vstd::slice::slice_to_vec;
use crate::i420::I420Buffer;
use crate::packed::packed_refusal;
use crate::packed::PackedLayout;
use crate::video_frame::VideoFormatType;

verus! {

/// The texture could not be created. The renderer shows nothing new until
/// it is made anew.
#[derive(Clone, Copy, Debug, PartialEq, Eq, Structural)]
pub struct ResourceError;

/// What the host has to do before the staging buffer can be uploaded.
#[derive(Clone, Copy, Debug, PartialEq, Eq, Structural)]
pub enum TextureRequest {
    /// Nothing: the texture has the extent asked for, or nothing can be
    /// shown at that extent.
    Keep,
    /// Create a texture and its view, and register them under a new
    /// handle.
    Register { width: u32, height: u32 },
    /// Create a texture and its view, and put them behind `handle` in
    /// place of the texture it showed.
    Update { width: u32, height: u32, handle: u64 },
}

/// An upload of the whole staging buffer into the texture.
#[derive(Clone, Copy, Debug, PartialEq, Eq, Structural)]
pub struct Upload {
    pub width: u32,
    pub height: u32,
    pub bytes_per_row: u32,
}

/// What a texture cache holds.
pub struct TextureView {
    pub width: int,
    pub height: int,
    /// Packed pixels, four bytes each, row after row.
    pub staging: Seq<u8>,
    /// Extent of the texture that the host created last.
    pub texture: Option<(int, int)>,
    /// The handle that the host UI holds.
    pub handle: Option<u64>,
    pub failed: bool,
}

impl TextureView {
    /// The staging buffer holds four bytes for each pixel of the current
    /// extent; a texture is never empty; and texture and handle exist
    /// together.
    pub open spec fn wf(self) -> bool {
        &&& 0 <= self.width <= u32::MAX
        &&& 0 <= self.height <= u32::MAX
        &&& 4 * self.width <= u32::MAX
        &&& self.staging.len() == 4 * self.width * self.height
        &&& self.texture matches Some(extent) ==> 0 < extent.0 <= u32::MAX && 0 < extent.1
            <= u32::MAX
        &&& self.texture is Some <==> self.handle is Some
    }

    /// A cache before the first frame.
    pub open spec fn empty() -> TextureView {
        TextureView {
            width: 0,
            height: 0,
            staging: Seq::empty(),
            texture: None,
            handle: None,
            failed: false,
        }
    }

    /// Whether a staging buffer for `width` × `height` pixels can exist:
    /// a row must fit the `u32` that the upload counts it in, and the
    /// whole the address space.
    pub open spec fn fits(width: int, height: int) -> bool {
        4 * width <= u32::MAX && 4 * width * height <= usize::MAX
    }

    /// What `ensure_size` asks of the host in this state.
    pub open spec fn request(self, width: int, height: int) -> TextureRequest {
        if width == 0 || height == 0 || self.texture == Some((width, height)) {
            TextureRequest::Keep
        } else {
            match self.handle {
                Some(handle) => TextureRequest::Update {
                    width: width as u32,
                    height: height as u32,
                    handle,
                },
                None => TextureRequest::Register { width: width as u32, height: height as u32 },
            }
        }
    }

    /// The staging buffer after a change of extent: what fits of the old
    /// bytes stays, the rest is zero.
    pub open spec fn resized(self, width: int, height: int) -> Seq<u8> {
        Seq::new(
            (4 * width * height) as nat,
            |i: int|
                if i < self.staging.len() {
                    self.staging[i]
                } else {
                    0u8
                },
        )
    }

    /// The state after `ensure_size(width, height)`, where it succeeds.
    pub open spec fn after_ensure_size(self, width: int, height: int) -> TextureView {
        if width == self.width && height == self.height {
            self
        } else {
            TextureView { width, height, staging: self.resized(width, height), ..self }
        }
    }

    /// The state after the host reports a texture of `width` × `height`,
    /// registered under `registered` if it registered one. The first
    /// handle stays for good; an empty texture, or a first texture without
    /// a handle, changes nothing.
    pub open spec fn after_allocated(
        self,
        width: int,
        height: int,
        registered: Option<u64>,
    ) -> TextureView {
        if width == 0 || height == 0 {
            self
        } else {
            match (self.handle, registered) {
                (Some(_), _) => TextureView { texture: Some((width, height)), ..self },
                (None, Some(handle)) => TextureView {
                    texture: Some((width, height)),
                    handle: Some(handle),
                    ..self
                },
                (None, None) => self,
            }
        }
    }

    /// Whether `bytes` can be uploaded: the cache works, the texture has
    /// the current extent, and `bytes` fills the staging buffer.
    pub open spec fn accepts(self, bytes: Seq<u8>) -> bool {
        &&& !self.failed
        &&& self.texture == Some((self.width, self.height))
        &&& bytes.len() == self.staging.len()
    }
}

/// One thing that happens to a texture cache.
pub enum TextureEvent {
    EnsureSize { width: u32, height: u32 },
    Allocated { width: u32, height: u32, registered: Option<u64> },
    Failed,
    Write { bytes: Seq<u8> },
}

impl TextureView {
    /// The state after `event`.
    pub open spec fn after(self, event: TextureEvent) -> TextureView {
        match event {
            TextureEvent::EnsureSize { width, height } => if self.failed || !Self::fits(
                width as int,
                height as int,
            ) {
                self
            } else {
                self.after_ensure_size(width as int, height as int)
            },
            TextureEvent::Allocated { width, height, registered } => self.after_allocated(
                width as int,
                height as int,
                registered,
            ),
            TextureEvent::Failed => TextureView { failed: true, ..self },
            TextureEvent::Write { bytes } => if self.accepts(bytes) {
                TextureView { staging: bytes, ..self }
            } else {
                self
            },
        }
    }

    /// The state after all of `events`, in their order.
    pub open spec fn after_all(self, events: Seq<TextureEvent>) -> TextureView
        decreases events.len(),
    {
        if events.len() == 0 {
            self
        } else {
            self.after_all(events.drop_last()).after(events.last())
        }
    }
}

/// Every event leaves a well-formed cache well formed, and leaves a handle
/// that exists as it is.
pub proof fn lemma_event_keeps_handle(s: TextureView, event: TextureEvent)
    requires
        s.wf(),
    ensures
        s.after(event).wf(),
        s.handle is Some ==> s.after(event).handle == s.handle,
{
    match event {
        TextureEvent::EnsureSize { width, height } => {
            if !s.failed && TextureView::fits(width as int, height as int) {
                assert(4 * width * height >= 0) by (nonlinear_arith)
                    requires
                        width >= 0,
                        height >= 0,
                ;
            }
        },
        _ => {},
    }
}

/// Once the host UI holds a handle, it holds that handle for the life of
/// the renderer: no sequence of resizes, allocations, failures and uploads
/// changes it.
pub proof fn lemma_handle_is_stable(s: TextureView, events: Seq<TextureEvent>)
    requires
        s.wf(),
    ensures
        s.after_all(events).wf(),
        s.handle is Some ==> s.after_all(events).handle == s.handle,
    decreases events.len(),
{
    if events.len() > 0 {
        lemma_handle_is_stable(s, events.drop_last());
        lemma_event_keeps_handle(s.after_all(events.drop_last()), events.last());
    }
}

/// Asking twice for one extent is asking once: the second call changes
/// nothing, neither the staging buffer nor the handle. Once the host has
/// created the texture that the first call asked for, be it the first of
/// the renderer or a later one, the second call asks for nothing, and
/// the handle is the one that was there or, for the first texture, the
/// one that the host registered.
pub proof fn lemma_ensure_size_idempotent(
    s: TextureView,
    width: u32,
    height: u32,
    registered: Option<u64>,
)
    requires
        s.wf(),
    ensures
        ({
            let once = s.after(TextureEvent::EnsureSize { width, height });
            let twice = once.after(TextureEvent::EnsureSize { width, height });
            twice == once
        }),
        ({
            let once = s.after(TextureEvent::EnsureSize { width, height });
            let shown = once.after(TextureEvent::Allocated { width, height, registered });
            once.request(width as int, height as int) != TextureRequest::Keep && (s.handle is Some
                || registered is Some) && once.width == width && once.height == height ==> {
                &&& shown.request(width as int, height as int) == TextureRequest::Keep
                &&& shown.after(TextureEvent::EnsureSize { width, height }) == shown
                &&& shown.handle == if s.handle is Some {
                    s.handle
                } else {
                    registered
                }
            }
        }),
{
}

/// A new extent gives the staging buffer exactly four bytes per pixel, and
/// the handle stays.
pub proof fn lemma_resize_is_exact(s: TextureView, width: u32, height: u32)
    requires
        s.wf(),
        !s.failed,
        TextureView::fits(width as int, height as int),
    ensures
        s.after(TextureEvent::EnsureSize { width, height }).staging.len() == 4 * width * height,
        s.after(TextureEvent::EnsureSize { width, height }).handle == s.handle,
{
    assert(4 * width * height >= 0) by (nonlinear_arith)
        requires
            width >= 0,
            height >= 0,
    ;
}

/// The cache of one renderer.
#[derive(Debug)]
pub struct TextureCache {
    width: u32,
    height: u32,
    rgba_data: Vec<u8>,
    /// Extent and handle of the texture on show: they exist together.
    shown: Option<(u32, u32, u64)>,
    failed: bool,
}

impl View for TextureCache {
    type V = TextureView;

    closed spec fn view(&self) -> TextureView {
        TextureView {
            width: self.width as int,
            height: self.height as int,
            staging: self.rgba_data@,
            texture: match self.shown {
                Some(shown) => Some((shown.0 as int, shown.1 as int)),
                None => None,
            },
            handle: match self.shown {
                Some(shown) => Some(shown.2),
                None => None,
            },
            failed: self.failed,
        }
    }
}

/// Bytes of a staging buffer for `width` × `height` pixels, or `None`
/// where no such buffer can exist.
fn staging_len(width: u32, height: u32) -> (r: Option<usize>)
    ensures
        r is Some <==> TextureView::fits(width as int, height as int),
        r matches Some(n) ==> n == 4 * width * height,
{
    if width > u32::MAX / 4 {
        assert(4 * width > u32::MAX);
        return None;
    }
    let row: u32 = 4 * width;
    assert(row * height == 4 * width * height) by (nonlinear_arith)
        requires
            row == 4 * width,
    ;
    crate::layout::plane_len(row, height)
}

impl TextureCache {
    #[verifier::type_invariant]
    spec fn inv(self) -> bool {
        self@.wf()
    }

    /// A cache before the first frame: no pixels, no texture, no handle.
    pub fn new() -> (r: TextureCache)
        ensures
            r@ == TextureView::empty(),
            r@.wf(),
    {
        let r = TextureCache {
            width: 0,
            height: 0,
            rgba_data: Vec::new(),
            shown: None,
            failed: false,
        };
        assert(r@.staging =~= Seq::<u8>::empty());
        r
    }

    pub fn width(&self) -> (r: u32)
        ensures
            r == self@.width,
    {
        self.width
    }

    pub fn height(&self) -> (r: u32)
        ensures
            r == self@.height,
    {
        self.height
    }

    /// The handle by which the host UI shows the frames: nothing before
    /// the first texture, and from then on always the same.
    pub fn handle(&self) -> (r: Option<u64>)
        ensures
            r == self@.handle,
            r is Some <==> self@.texture is Some,
    {
        proof {
            use_type_invariant(self);
        }
        match self.shown {
            Some(shown) => Some(shown.2),
            None => None,
        }
    }

    /// Whether a failure was reported.
    pub fn has_failed(&self) -> (r: bool)
        ensures
            r == self@.failed,
    {
        self.failed
    }

    /// The staging buffer: four bytes for each pixel of the current
    /// extent.
    pub fn staging(&self) -> (r: &[u8])
        ensures
            r@ == self@.staging,
            r@.len() == 4 * self@.width * self@.height,
    {
        proof {
            use_type_invariant(self);
        }
        self.rgba_data.as_slice()
    }

    /// Brings the staging buffer to `width` × `height` pixels and says
    /// what the host has to create. With the extent that the cache has,
    /// nothing changes. A cache that failed, and an extent whose pixels
    /// do not fit in memory, give `ResourceError` and change nothing.
    pub fn ensure_size(&mut self, width: u32, height: u32) -> (r: Result<
        TextureRequest,
        ResourceError,
    >)
        ensures
            old(self)@.wf(),
            final(self)@.wf(),
            final(self)@ == old(self)@.after(TextureEvent::EnsureSize { width, height }),
            r is Err <==> old(self)@.failed || !TextureView::fits(width as int, height as int),
            r matches Ok(request) ==> request == final(self)@.request(width as int, height as int),
            final(self)@.handle == old(self)@.handle,
            r is Ok ==> final(self)@.staging.len() == 4 * width * height,
    {
        proof {
            use_type_invariant(&*self);
        }
        if self.failed {
            return Err(ResourceError);
        }
        let len: usize = match staging_len(width, height) {
            Some(len) => len,
            None => {
                return Err(ResourceError);
            },
        };
        if self.width != width || self.height != height {
            let ghost before = self.rgba_data@;
            let mut staging: Vec<u8> = slice_to_vec(self.rgba_data.as_slice());
            staging.resize(len, 0u8);
            assert(staging@ =~= old(self)@.resized(width as int, height as int)) by {
                assert(staging@.len() == len);
                assert forall|i: int| 0 <= i < len implies staging@[i] == old(self)@.resized(
                    width as int,
                    height as int,
                )[i] by {
                    if len <= before.len() {
                        assert(staging@[i] == before.subrange(0, len as int)[i]);
                    } else if i < before.len() {
                        assert(staging@.subrange(0, before.len() as int)[i] == before[i]);
                    } else {
                    }
                }
            }
            *self = TextureCache {
                width,
                height,
                rgba_data: staging,
                shown: self.shown,
                failed: self.failed,
            };
        }
        let request: TextureRequest = if width == 0 || height == 0 {
            TextureRequest::Keep
        } else {
            match self.shown {
                Some(shown) => if shown.0 == width && shown.1 == height {
                    TextureRequest::Keep
                } else {
                    TextureRequest::Update { width, height, handle: shown.2 }
                },
                None => TextureRequest::Register { width, height },
            }
        };
        Ok(request)
    }

    /// Takes note that the host created a texture of `width` × `height`
    /// and, if it registered one, under which handle. The first handle
    /// stays for good.
    pub fn allocated(&mut self, width: u32, height: u32, registered: Option<u64>)
        ensures
            final(self)@.wf(),
            final(self)@ == old(self)@.after(TextureEvent::Allocated { width, height, registered }),
            old(self)@.handle is Some ==> final(self)@.handle == old(self)@.handle,
    {
        proof {
            use_type_invariant(&*self);
        }
        if width == 0 || height == 0 {
            return ;
        }
        match (self.shown, registered) {
            (Some(shown), _) => {
                self.shown = Some((width, height, shown.2));
            },
            (None, Some(handle)) => {
                self.shown = Some((width, height, handle));
            },
            (None, None) => {},
        }
    }

    /// Takes note that the host could not create the texture. From now on
    /// the cache refuses every frame.
    pub fn allocation_failed(&mut self)
        ensures
            final(self)@.wf(),
            final(self)@ == old(self)@.after(TextureEvent::Failed),
            final(self)@.failed,
            final(self)@.handle == old(self)@.handle,
    {
        proof {
            use_type_invariant(&*self);
        }
        self.failed = true;
    }

    /// Puts `bytes` into the staging buffer and says what to upload, if
    /// the texture has the current extent and `bytes` is a whole picture
    /// of it. Otherwise nothing changes: before any extent has been
    /// established there is nothing to write to.
    pub fn write(&mut self, bytes: &[u8]) -> (r: Option<Upload>)
        ensures
            final(self)@.wf(),
            final(self)@ == old(self)@.after(TextureEvent::Write { bytes: bytes@ }),
            r is Some <==> old(self)@.accepts(bytes@),
            r matches Some(upload) ==> {
                &&& upload.width == old(self)@.width
                &&& upload.height == old(self)@.height
                &&& upload.bytes_per_row == 4 * old(self)@.width
                &&& final(self)@.staging == bytes@
            },
            final(self)@.handle == old(self)@.handle,
    {
        proof {
            use_type_invariant(&*self);
        }
        let shown: bool = match self.shown {
            Some(shown) => shown.0 == self.width && shown.1 == self.height,
            None => false,
        };
        if self.failed || !shown || bytes.len() != self.rgba_data.len() {
            return None;
        }
        self.rgba_data = slice_to_vec(bytes);
        Some(Upload { width: self.width, height: self.height, bytes_per_row: 4 * self.width })
    }

    /// Makes room for `frame` and lays out its conversion into the
    /// staging buffer: tightly packed rows in the byte order R, G, B, A.
    /// The layout is one that `to_argb` accepts for this frame and the
    /// staging buffer.
    pub fn prepare(&mut self, frame: &I420Buffer) -> (r: Result<
        (TextureRequest, PackedLayout),
        ResourceError,
    >)
        ensures
            final(self)@.wf(),
            final(self)@ == old(self)@.after(
                TextureEvent::EnsureSize { width: frame@.width as u32, height: frame@.height as u32 },
            ),
            r is Err <==> old(self)@.failed || !TextureView::fits(frame@.width, frame@.height),
            r matches Ok(plan) ==> {
                &&& plan.0 == final(self)@.request(frame@.width, frame@.height)
                &&& plan.1.format == VideoFormatType::ABGR
                &&& plan.1.width == frame@.width
                &&& plan.1.height == frame@.height
                &&& plan.1.stride == 4 * frame@.width
                &&& plan.1.byte_len == final(self)@.staging.len()
                &&& packed_refusal(
                    frame@.width,
                    frame@.height,
                    final(self)@.staging.len() as int,
                    plan.1.stride as int,
                    frame@.width,
                    frame@.height,
                ) is None
            },
            final(self)@.handle == old(self)@.handle,
    {
        let width: u32 = frame.width();
        let height: u32 = frame.height();
        let request: TextureRequest = match self.ensure_size(width, height) {
            Ok(request) => request,
            Err(e) => {
                return Err(e);
            },
        };
        proof {
            crate::packed::lemma_tight_destination_accepted(width as int, height as int);
        }
        let layout = PackedLayout {
            format: VideoFormatType::ABGR,
            width,
            height,
            stride: 4 * width,
            byte_len: self.rgba_data.len(),
        };
        Ok((request, layout))
    }
}

} // verus!
