//! The order in which the frames of one track reach the screen.
//!
//! Frames arrive faster or slower than they can be converted and uploaded.
//! At most one frame is with the worker at any time; a frame that arrives
//! meanwhile waits in a single slot, and a later arrival takes its place.
//! So frames are shown in the order in which they arrived, and no frame is
//! ever shown after a later one.

use vstd::prelude::*;
use crate::texture::ResourceError;
use crate::video_frame::FrameError;

verus! {

/// How the work on one frame ended.
#[derive(Clone, Copy, Debug, PartialEq, Eq, Structural)]
pub enum WorkOutcome {
    /// The frame is on the screen.
    Rendered,
    /// The frame could not be converted and was dropped. The frame shown
    /// before stays, and later frames are worked on as usual.
    Dropped(FrameError),
    /// The texture could not be created. The pipeline stops.
    Failed(ResourceError),
}

/// What becomes of a frame on arrival.
#[derive(Debug)]
pub enum Dispatch<F> {
    /// The worker was idle: it takes the frame now, under `ticket`.
    Start { ticket: u64, frame: F },
    /// The worker is busy: the frame waits. `superseded` is the ticket of
    /// the frame that waited before and is now dropped.
    Queued { ticket: u64, superseded: Option<u64> },
    /// The pipeline takes no more frames; this one is dropped.
    Closed,
}

/// What a pipeline holds. Tickets count the frames in their order of
/// arrival.
pub struct PipelineView<F> {
    /// The ticket of the next frame to arrive.
    pub next_ticket: int,
    /// The frame with the worker.
    pub in_flight: Option<int>,
    /// The frame that waits for the worker.
    pub pending: Option<(int, F)>,
    /// The frame on the screen.
    pub last_rendered: Option<int>,
    pub ended: bool,
    pub failed: bool,
}

/// One thing that happens to a pipeline.
pub enum PipelineEvent<F> {
    /// A frame arrives.
    Frame(F),
    /// The worker reports on the frame with this ticket.
    Done(u64, WorkOutcome),
    /// The track ends.
    End,
}

impl<F> PipelineView<F> {
    /// A pipeline before the first frame.
    pub open spec fn start() -> PipelineView<F> {
        PipelineView {
            next_ticket: 0,
            in_flight: None,
            pending: None,
            last_rendered: None,
            ended: false,
            failed: false,
        }
    }

    /// Tickets are handed out in order: what is on the screen arrived
    /// before what the worker holds, and that before what waits; and a
    /// frame waits only while the worker is busy.
    pub open spec fn wf(self) -> bool {
        &&& 0 <= self.next_ticket <= u64::MAX
        &&& self.in_flight matches Some(t) ==> 0 <= t < self.next_ticket
        &&& self.pending matches Some(p) ==> {
            &&& 0 <= p.0 < self.next_ticket
            &&& self.in_flight matches Some(t) && t < p.0
        }
        &&& self.last_rendered matches Some(r) ==> {
            &&& 0 <= r < self.next_ticket
            &&& self.in_flight matches Some(t) ==> r < t
            &&& self.pending matches Some(p) ==> r < p.0
        }
        &&& self.failed ==> self.pending is None
    }

    /// Whether a frame that arrives now is taken.
    pub open spec fn open(self) -> bool {
        !self.ended && !self.failed && self.next_ticket < u64::MAX
    }

    /// Nothing is left to do: the track ended, or the texture failed, and
    /// the worker is idle.
    pub open spec fn finished(self) -> bool {
        (self.ended || self.failed) && self.in_flight is None && self.pending is None
    }

    /// The state after a frame arrives.
    pub open spec fn after_frame(self, frame: F) -> PipelineView<F> {
        if !self.open() {
            self
        } else if self.in_flight is None {
            PipelineView {
                next_ticket: self.next_ticket + 1,
                in_flight: Some(self.next_ticket),
                ..self
            }
        } else {
            PipelineView {
                next_ticket: self.next_ticket + 1,
                pending: Some((self.next_ticket, frame)),
                ..self
            }
        }
    }

    /// The state after the worker reports on `ticket`. A report on a
    /// frame that the worker does not hold is set aside.
    pub open spec fn after_done(self, ticket: int, outcome: WorkOutcome) -> PipelineView<F> {
        if self.in_flight != Some(ticket) {
            self
        } else {
            let failed = self.failed || outcome is Failed;
            PipelineView {
                next_ticket: self.next_ticket,
                in_flight: match self.pending {
                    Some(p) => if failed {
                        None
                    } else {
                        Some(p.0)
                    },
                    None => None,
                },
                pending: None,
                last_rendered: if outcome is Rendered {
                    Some(ticket)
                } else {
                    self.last_rendered
                },
                ended: self.ended,
                failed,
            }
        }
    }

    /// The state after `event`.
    pub open spec fn after(self, event: PipelineEvent<F>) -> PipelineView<F> {
        match event {
            PipelineEvent::Frame(frame) => self.after_frame(frame),
            PipelineEvent::Done(ticket, outcome) => self.after_done(ticket as int, outcome),
            PipelineEvent::End => PipelineView { ended: true, ..self },
        }
    }

    /// The state after all of `events`, in their order.
    pub open spec fn after_all(self, events: Seq<PipelineEvent<F>>) -> PipelineView<F>
        decreases events.len(),
    {
        if events.len() == 0 {
            self
        } else {
            self.after_all(events.drop_last()).after(events.last())
        }
    }

    /// Whether the frame on the screen in `self` arrived no later than
    /// the one on the screen in `later`.
    pub open spec fn not_ahead_of(self, later: PipelineView<F>) -> bool {
        match (self.last_rendered, later.last_rendered) {
            (Some(a), Some(b)) => a <= b,
            (Some(_), None) => false,
            (None, _) => true,
        }
    }
}

/// Every event leaves a well-formed pipeline well formed, and never puts
/// an earlier frame on the screen than the one that is there.
pub proof fn lemma_event_keeps_order<F>(s: PipelineView<F>, event: PipelineEvent<F>)
    requires
        s.wf(),
    ensures
        s.after(event).wf(),
        s.not_ahead_of(s.after(event)),
        s.next_ticket <= s.after(event).next_ticket,
{
}

/// Frames reach the screen in their order of arrival: whatever happens,
/// and in whatever order the worker's reports come in, the frame on the
/// screen is never replaced by one that arrived before it.
pub proof fn lemma_never_reordered<F>(s: PipelineView<F>, events: Seq<PipelineEvent<F>>)
    requires
        s.wf(),
    ensures
        s.after_all(events).wf(),
        s.not_ahead_of(s.after_all(events)),
        s.next_ticket <= s.after_all(events).next_ticket,
    decreases events.len(),
{
    if events.len() > 0 {
        let before = s.after_all(events.drop_last());
        lemma_never_reordered(s, events.drop_last());
        lemma_event_keeps_order(before, events.last());
    }
}

/// A dropped frame stops nothing. When the worker drops the frame it
/// holds, the pipeline goes on: the frame that waits is started at once,
/// and where none waits, the next frame to arrive is started on arrival;
/// either way that frame reaches the screen when the worker renders it.
pub proof fn lemma_drop_does_not_stop<F>(
    s: PipelineView<F>,
    ticket: u64,
    error: FrameError,
    next: F,
)
    requires
        s.wf(),
        s.in_flight == Some(ticket as int),
        !s.failed,
    ensures
        ({
            let dropped = s.after(PipelineEvent::Done(ticket, WorkOutcome::Dropped(error)));
            &&& !dropped.failed
            &&& dropped.last_rendered == s.last_rendered
            &&& s.pending matches Some(p) ==> {
                &&& dropped.in_flight == Some(p.0)
                &&& dropped.after(
                    PipelineEvent::Done(p.0 as u64, WorkOutcome::Rendered),
                ).last_rendered == Some(p.0)
            }
            &&& s.pending is None && s.open() ==> {
                let arrived = dropped.after(PipelineEvent::Frame(next));
                &&& arrived.in_flight == Some(s.next_ticket)
                &&& arrived.after(
                    PipelineEvent::Done(s.next_ticket as u64, WorkOutcome::Rendered),
                ).last_rendered == Some(s.next_ticket)
            }
        }),
{
}

/// The pipeline of one track.
#[derive(Debug)]
pub struct FramePipeline<F> {
    next_ticket: u64,
    in_flight: Option<u64>,
    pending: Option<(u64, F)>,
    last_rendered: Option<u64>,
    ended: bool,
    failed: bool,
}

impl<F> View for FramePipeline<F> {
    type V = PipelineView<F>;

    closed spec fn view(&self) -> PipelineView<F> {
        PipelineView {
            next_ticket: self.next_ticket as int,
            in_flight: match self.in_flight {
                Some(t) => Some(t as int),
                None => None,
            },
            pending: match self.pending {
                Some(p) => Some((p.0 as int, p.1)),
                None => None,
            },
            last_rendered: match self.last_rendered {
                Some(r) => Some(r as int),
                None => None,
            },
            ended: self.ended,
            failed: self.failed,
        }
    }
}

impl<F> FramePipeline<F> {
    #[verifier::type_invariant]
    spec fn inv(self) -> bool {
        self@.wf()
    }

    /// A pipeline before the first frame.
    pub fn new() -> (r: FramePipeline<F>)
        ensures
            r@ == PipelineView::<F>::start(),
            r@.wf(),
    {
        FramePipeline {
            next_ticket: 0,
            in_flight: None,
            pending: None,
            last_rendered: None,
            ended: false,
            failed: false,
        }
    }

    /// The ticket of the frame on the screen.
    pub fn last_rendered(&self) -> (r: Option<u64>)
        ensures
            match r {
                Some(t) => self@.last_rendered == Some(t as int),
                None => self@.last_rendered is None,
            },
    {
        self.last_rendered
    }

    /// The ticket of the frame with the worker.
    pub fn in_flight(&self) -> (r: Option<u64>)
        ensures
            match r {
                Some(t) => self@.in_flight == Some(t as int),
                None => self@.in_flight is None,
            },
    {
        self.in_flight
    }

    /// Whether the texture failed.
    pub fn has_failed(&self) -> (r: bool)
        ensures
            r == self@.failed,
    {
        self.failed
    }

    /// Whether nothing is left to do.
    pub fn is_finished(&self) -> (r: bool)
        ensures
            r == self@.finished(),
    {
        (self.ended || self.failed) && self.in_flight.is_none() && self.pending.is_none()
    }

    /// A frame arrives. An idle worker gets it at once; a busy one gets
    /// it when it is done, unless a later frame has arrived by then.
    pub fn on_frame(&mut self, frame: F) -> (r: Dispatch<F>)
        ensures
            final(self)@.wf(),
            final(self)@ == old(self)@.after(PipelineEvent::Frame(frame)),
            match r {
                Dispatch::Start { ticket, frame: started } => {
                    &&& old(self)@.open()
                    &&& old(self)@.in_flight is None
                    &&& ticket == old(self)@.next_ticket
                    &&& started == frame
                },
                Dispatch::Queued { ticket, superseded } => {
                    &&& old(self)@.open()
                    &&& old(self)@.in_flight is Some
                    &&& ticket == old(self)@.next_ticket
                    &&& match superseded {
                        Some(t) => old(self)@.pending matches Some(p) && p.0 == t,
                        None => old(self)@.pending is None,
                    }
                },
                Dispatch::Closed => !old(self)@.open(),
            },
    {
        proof {
            use_type_invariant(&*self);
        }
        if self.ended || self.failed || self.next_ticket == u64::MAX {
            return Dispatch::Closed;
        }
        let ticket: u64 = self.next_ticket;
        self.next_ticket = ticket + 1;
        if self.in_flight.is_none() {
            self.in_flight = Some(ticket);
            Dispatch::Start { ticket, frame }
        } else {
            let mut before: Option<(u64, F)> = None;
            core::mem::swap(&mut before, &mut self.pending);
            self.pending = Some((ticket, frame));
            let superseded: Option<u64> = match before {
                Some(p) => Some(p.0),
                None => None,
            };
            Dispatch::Queued { ticket, superseded }
        }
    }

    /// The worker reports on the frame with `ticket`. The answer is the
    /// frame that the worker takes next, if one waits and the pipeline
    /// did not fail. A report on a frame that the worker does not hold
    /// changes nothing.
    pub fn on_done(&mut self, ticket: u64, outcome: WorkOutcome) -> (r: Option<(u64, F)>)
        ensures
            final(self)@.wf(),
            final(self)@ == old(self)@.after(PipelineEvent::Done(ticket, outcome)),
            old(self)@.not_ahead_of(final(self)@),
            match r {
                Some(next) => {
                    &&& old(self)@.in_flight == Some(ticket as int)
                    &&& !(outcome is Failed)
                    &&& old(self)@.pending == Some((next.0 as int, next.1))
                    &&& final(self)@.in_flight == Some(next.0 as int)
                },
                None => final(self)@.in_flight is None || old(self)@.in_flight != Some(
                    ticket as int,
                ),
            },
    {
        proof {
            use_type_invariant(&*self);
        }
        if self.in_flight != Some(ticket) {
            return None;
        }
        let mut waiting: Option<(u64, F)> = None;
        core::mem::swap(&mut waiting, &mut self.pending);
        let failed: bool = match outcome {
            WorkOutcome::Failed(_) => true,
            _ => false,
        };
        let next: Option<(u64, F)> = if failed {
            None
        } else {
            waiting
        };
        self.in_flight = match &next {
            Some(p) => Some(p.0),
            None => None,
        };
        match outcome {
            WorkOutcome::Rendered => {
                self.last_rendered = Some(ticket);
            },
            _ => {},
        }
        if failed {
            self.failed = true;
        }
        next
    }

    /// The track ends. What the worker holds and what waits is still
    /// worked on; no further frame is taken.
    pub fn on_end(&mut self)
        ensures
            final(self)@.wf(),
            final(self)@ == old(self)@.after(PipelineEvent::End),
            final(self)@.last_rendered == old(self)@.last_rendered,
    {
        proof {
            use_type_invariant(&*self);
        }
        self.ended = true;
    }
}

} // verus!
