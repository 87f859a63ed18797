//! What a publication says about its track: identity, kind, source and
//! picture size, as the signalling layer reports them.

use vstd::prelude::*;

verus! {

/// The server's name for a track.
#[derive(Clone, Debug, PartialEq, Eq, Hash)]
pub struct TrackSid(pub String);

impl View for TrackSid {
    type V = Seq<char>;

    open spec fn view(&self) -> Seq<char> {
        self.0@
    }
}

impl TrackSid {
    pub fn as_str(&self) -> (r: &str)
        ensures
            r@ == self@,
    {
        self.0.as_str()
    }
}

/// Whether a track carries sound or pictures.
#[derive(Clone, Copy, Debug, PartialEq, Eq, Structural)]
pub enum TrackKind {
    Audio,
    Video,
}

impl TrackKind {
    /// The kind that the signalling layer names by `number`: 0 is audio
    /// and 1 is video. Its other track types are not media tracks.
    pub open spec fn decode(number: int) -> Option<TrackKind> {
        if number == 0 {
            Some(TrackKind::Audio)
        } else if number == 1 {
            Some(TrackKind::Video)
        } else {
            None
        }
    }

    pub fn from_type(number: i32) -> (r: Option<TrackKind>)
        ensures
            r == Self::decode(number as int),
    {
        if number == 0 {
            Some(TrackKind::Audio)
        } else if number == 1 {
            Some(TrackKind::Video)
        } else {
            None
        }
    }
}

/// Where the media of a track comes from.
#[derive(Clone, Copy, Debug, PartialEq, Eq, Structural)]
pub enum TrackSource {
    Unknown,
    Camera,
    Microphone,
    Screenshare,
    ScreenshareAudio,
}

impl TrackSource {
    /// The source that the signalling layer names by `number`, 0 to 4 in
    /// the order of the variants.
    pub open spec fn decode(number: int) -> Option<TrackSource> {
        if number == 0 {
            Some(TrackSource::Unknown)
        } else if number == 1 {
            Some(TrackSource::Camera)
        } else if number == 2 {
            Some(TrackSource::Microphone)
        } else if number == 3 {
            Some(TrackSource::Screenshare)
        } else if number == 4 {
            Some(TrackSource::ScreenshareAudio)
        } else {
            None
        }
    }

    pub fn from_i32(number: i32) -> (r: Option<TrackSource>)
        ensures
            r == Self::decode(number as int),
    {
        if number == 0 {
            Some(TrackSource::Unknown)
        } else if number == 1 {
            Some(TrackSource::Camera)
        } else if number == 2 {
            Some(TrackSource::Microphone)
        } else if number == 3 {
            Some(TrackSource::Screenshare)
        } else if number == 4 {
            Some(TrackSource::ScreenshareAudio)
        } else {
            None
        }
    }
}

/// Width and height of the pictures of a video track.
#[derive(Clone, Copy, Debug, PartialEq, Eq, Structural)]
pub struct TrackDimension(pub u32, pub u32);

/// A track received from another participant. The number is the key under
/// which the owner of the publication keeps the track itself.
#[derive(Clone, Copy, Debug, PartialEq, Eq, Structural)]
pub enum RemoteTrack {
    Audio(u64),
    Video(u64),
}

/// Any track of a room, sent or received.
#[derive(Clone, Copy, Debug, PartialEq, Eq, Structural)]
pub enum Track {
    LocalAudio(u64),
    LocalVideo(u64),
    RemoteAudio(u64),
    RemoteVideo(u64),
}

impl Track {
    pub open spec fn is_remote(self) -> bool {
        self is RemoteAudio || self is RemoteVideo
    }

    /// The track as a remote track, where it is one.
    pub open spec fn remote(self) -> Option<RemoteTrack> {
        match self {
            Track::RemoteAudio(key) => Some(RemoteTrack::Audio(key)),
            Track::RemoteVideo(key) => Some(RemoteTrack::Video(key)),
            _ => None,
        }
    }

    /// A remote track as a track of the room.
    pub open spec fn of_remote(track: RemoteTrack) -> Track {
        match track {
            RemoteTrack::Audio(key) => Track::RemoteAudio(key),
            RemoteTrack::Video(key) => Track::RemoteVideo(key),
        }
    }

    pub fn from_remote(track: RemoteTrack) -> (r: Track)
        ensures
            r == Self::of_remote(track),
            r.is_remote(),
    {
        match track {
            RemoteTrack::Audio(key) => Track::RemoteAudio(key),
            RemoteTrack::Video(key) => Track::RemoteVideo(key),
        }
    }

    pub fn try_into_remote(self) -> (r: Option<RemoteTrack>)
        ensures
            r == self.remote(),
            r is Some <==> self.is_remote(),
    {
        match self {
            Track::RemoteAudio(key) => Some(RemoteTrack::Audio(key)),
            Track::RemoteVideo(key) => Some(RemoteTrack::Video(key)),
            _ => None,
        }
    }
}

/// A remote track stays what it is on its way through `Track`, and a
/// track is remote exactly if it comes from a remote track.
pub proof fn lemma_remote_track_round_trip(remote: RemoteTrack, track: Track)
    ensures
        Track::of_remote(remote).remote() == Some(remote),
        track.remote() matches Some(r) ==> Track::of_remote(r) == track,
        track.is_remote() <==> track.remote() is Some,
{
}

/// What the signalling layer reports about a track, with kind and source
/// as the numbers it sends.
#[derive(Clone, Debug, PartialEq, Eq)]
pub struct TrackInfo {
    pub sid: String,
    pub name: String,
    pub track_type: i32,
    pub source: i32,
    pub simulcast: bool,
    pub width: u32,
    pub height: u32,
    pub mime_type: String,
    pub muted: bool,
}

impl TrackInfo {
    /// Whether kind and source are numbers that name a media track.
    pub open spec fn decodable(self) -> bool {
        TrackKind::decode(self.track_type as int) is Some && TrackSource::decode(
            self.source as int,
        ) is Some
    }

    pub fn is_decodable(&self) -> (r: bool)
        ensures
            r == self.decodable(),
    {
        TrackKind::from_type(self.track_type).is_some() && TrackSource::from_i32(
            self.source,
        ).is_some()
    }
}

} // verus!
