//! The publication of a track by another participant.

use vstd::prelude::*;
use crate::track::RemoteTrack;
use crate::track::Track;
use crate::track::TrackDimension;
use crate::track::TrackInfo;
use crate::track::TrackKind;
use crate::track::TrackSid;
use crate::track::TrackSource;

verus! {

/// What a publication holds.
pub struct PublicationView {
    pub sid: Seq<char>,
    pub name: Seq<char>,
    pub kind: TrackKind,
    pub source: TrackSource,
    pub simulcasted: bool,
    pub dimension: TrackDimension,
    pub mime_type: Seq<char>,
    pub muted: bool,
    pub track: Option<Track>,
}

impl PublicationView {
    /// What a publication holds once the signalling layer has reported
    /// `info` about it, with `track` as its track.
    pub open spec fn published(info: TrackInfo, track: Option<Track>) -> PublicationView
        recommends
            info.decodable(),
    {
        PublicationView {
            sid: info.sid@,
            name: info.name@,
            kind: TrackKind::decode(info.track_type as int).unwrap(),
            source: TrackSource::decode(info.source as int).unwrap(),
            simulcasted: info.simulcast,
            dimension: TrackDimension(info.width, info.height),
            mime_type: info.mime_type@,
            muted: info.muted,
            track,
        }
    }

    /// The track of a remote publication, where it has one, is remote.
    pub open spec fn wf(self) -> bool {
        self.track matches Some(t) ==> t.is_remote()
    }
}

/// A track that another participant published, subscribed to or not.
#[derive(Debug)]
pub struct RemoteTrackPublication {
    sid: TrackSid,
    name: String,
    kind: TrackKind,
    source: TrackSource,
    simulcasted: bool,
    dimension: TrackDimension,
    mime_type: String,
    muted: bool,
    track: Option<Track>,
}

impl View for RemoteTrackPublication {
    type V = PublicationView;

    closed spec fn view(&self) -> PublicationView {
        PublicationView {
            sid: self.sid@,
            name: self.name@,
            kind: self.kind,
            source: self.source,
            simulcasted: self.simulcasted,
            dimension: self.dimension,
            mime_type: self.mime_type@,
            muted: self.muted,
            track: self.track,
        }
    }
}

impl Clone for RemoteTrackPublication {
    fn clone(&self) -> (r: RemoteTrackPublication)
        ensures
            r@ == self@,
    {
        proof {
            use_type_invariant(self);
        }
        RemoteTrackPublication {
            sid: TrackSid(self.sid.0.clone()),
            name: self.name.clone(),
            kind: self.kind,
            source: self.source,
            simulcasted: self.simulcasted,
            dimension: self.dimension,
            mime_type: self.mime_type.clone(),
            muted: self.muted,
            track: self.track,
        }
    }
}

impl RemoteTrackPublication {
    #[verifier::type_invariant]
    spec fn inv(self) -> bool {
        self@.wf()
    }

    /// The publication that `info` describes, with `track` as its track
    /// where the track is subscribed to.
    pub fn new(info: TrackInfo, track: Option<RemoteTrack>) -> (r: RemoteTrackPublication)
        requires
            info.decodable(),
        ensures
            r@ == PublicationView::published(
                info,
                match track {
                    Some(t) => Some(Track::of_remote(t)),
                    None => None,
                },
            ),
            r@.wf(),
    {
        let kind: TrackKind = TrackKind::from_type(info.track_type).unwrap();
        let source: TrackSource = TrackSource::from_i32(info.source).unwrap();
        let track: Option<Track> = match track {
            Some(t) => Some(Track::from_remote(t)),
            None => None,
        };
        RemoteTrackPublication {
            sid: TrackSid(info.sid),
            name: info.name,
            kind,
            source,
            simulcasted: info.simulcast,
            dimension: TrackDimension(info.width, info.height),
            mime_type: info.mime_type,
            muted: info.muted,
            track,
        }
    }

    #[inline]
    pub fn sid(&self) -> (r: TrackSid)
        ensures
            r@ == self@.sid,
    {
        TrackSid(self.sid.0.clone())
    }

    #[inline]
    pub fn name(&self) -> (r: String)
        ensures
            r@ == self@.name,
    {
        self.name.clone()
    }

    #[inline]
    pub fn kind(&self) -> (r: TrackKind)
        ensures
            r == self@.kind,
    {
        self.kind
    }

    #[inline]
    pub fn source(&self) -> (r: TrackSource)
        ensures
            r == self@.source,
    {
        self.source
    }

    #[inline]
    pub fn simulcasted(&self) -> (r: bool)
        ensures
            r == self@.simulcasted,
    {
        self.simulcasted
    }

    #[inline]
    pub fn dimension(&self) -> (r: TrackDimension)
        ensures
            r == self@.dimension,
    {
        self.dimension
    }

    /// The track, where it is subscribed to.
    #[inline]
    pub fn track(&self) -> (r: Option<RemoteTrack>)
        ensures
            self@.wf(),
            match self@.track {
                Some(t) => r == t.remote() && r is Some,
                None => r is None,
            },
    {
        proof {
            use_type_invariant(self);
        }
        match self.track {
            Some(t) => t.try_into_remote(),
            None => None,
        }
    }

    #[inline]
    pub fn mime_type(&self) -> (r: String)
        ensures
            r@ == self@.mime_type,
    {
        self.mime_type.clone()
    }

    #[inline]
    pub fn is_muted(&self) -> (r: bool)
        ensures
            r == self@.muted,
    {
        self.muted
    }

    #[inline]
    pub fn is_remote(&self) -> (r: bool)
        ensures
            r,
    {
        true
    }

    /// Gives the publication a track, or takes its track away.
    #[inline]
    pub fn update_track(&mut self, track: Option<Track>)
        requires
            track matches Some(t) ==> t.is_remote(),
        ensures
            final(self)@ == (PublicationView { track, ..old(self)@ }),
            final(self)@.wf(),
    {
        self.track = track;
    }

    /// Takes over what the signalling layer now reports about the track;
    /// the track itself stays.
    #[inline]
    pub fn update_info(&mut self, info: TrackInfo)
        requires
            info.decodable(),
        ensures
            final(self)@ == PublicationView::published(info, old(self)@.track),
            final(self)@.wf(),
    {
        proof {
            use_type_invariant(&*self);
        }
        let kind: TrackKind = TrackKind::from_type(info.track_type).unwrap();
        let source: TrackSource = TrackSource::from_i32(info.source).unwrap();
        self.sid = TrackSid(info.sid);
        self.name = info.name;
        self.kind = kind;
        self.source = source;
        self.simulcasted = info.simulcast;
        self.dimension = TrackDimension(info.width, info.height);
        self.mime_type = info.mime_type;
        self.muted = info.muted;
    }
}

} // verus!
