//! The calls of the room service: which method each one names, what it
//! sends and what it must be allowed to do. Sending a call and signing
//! its grants are the caller's work.

use vstd::prelude::*;

verus! {

/// Auto-egress settings of a room, as the protocol crate defines them. They
/// are taken from the options to the request as they are.
#[verifier::external_type_specification]
#[verifier::external_body]
pub struct ExRoomEgress(livekit_protocol::RoomEgress);

/// What a participant may do, as the protocol crate defines it. It is
/// taken from the options to the request as it is.
#[verifier::external_type_specification]
#[verifier::external_body]
pub struct ExParticipantPermission(livekit_protocol::ParticipantPermission);

/// The name of the service that every call of this module goes to.
pub const SVC: &'static str = "RoomService";

/// Why a client could not be made.
#[derive(Clone, Copy, Debug, PartialEq, Eq, Structural)]
pub enum ServiceError {
    /// The environment holds no API key.
    MissingApiKey,
    /// The environment holds an API key but no API secret.
    MissingApiSecret,
}

pub type ServiceResult<T> = Result<T, ServiceError>;

/// The methods of the room service.
#[derive(Clone, Copy, Debug, PartialEq, Eq, Structural)]
pub enum RoomMethod {
    CreateRoom,
    ListRooms,
    DeleteRoom,
    UpdateRoomMetadata,
    ListParticipants,
    GetParticipant,
    RemoveParticipant,
    MutePublishedTrack,
    UpdateParticipant,
    UpdateSubscriptions,
    SendData,
}

impl RoomMethod {
    /// The name under which the service knows the method.
    pub fn name(self) -> (r: &'static str)
        ensures
            r@ == match self {
                RoomMethod::CreateRoom => "CreateRoom"@,
                RoomMethod::ListRooms => "ListRooms"@,
                RoomMethod::DeleteRoom => "DeleteRoom"@,
                RoomMethod::UpdateRoomMetadata => "UpdateRoomMetadata"@,
                RoomMethod::ListParticipants => "ListParticipants"@,
                RoomMethod::GetParticipant => "GetParticipant"@,
                RoomMethod::RemoveParticipant => "RemoveParticipant"@,
                RoomMethod::MutePublishedTrack => "MutePublishedTrack"@,
                RoomMethod::UpdateParticipant => "UpdateParticipant"@,
                RoomMethod::UpdateSubscriptions => "UpdateSubscriptions"@,
                RoomMethod::SendData => "SendData"@,
            },
    {
        match self {
            RoomMethod::CreateRoom => "CreateRoom",
            RoomMethod::ListRooms => "ListRooms",
            RoomMethod::DeleteRoom => "DeleteRoom",
            RoomMethod::UpdateRoomMetadata => "UpdateRoomMetadata",
            RoomMethod::ListParticipants => "ListParticipants",
            RoomMethod::GetParticipant => "GetParticipant",
            RoomMethod::RemoveParticipant => "RemoveParticipant",
            RoomMethod::MutePublishedTrack => "MutePublishedTrack",
            RoomMethod::UpdateParticipant => "UpdateParticipant",
            RoomMethod::UpdateSubscriptions => "UpdateSubscriptions",
            RoomMethod::SendData => "SendData",
        }
    }
}

/// What a call must be allowed to do.
#[derive(Clone, Debug, PartialEq, Eq)]
pub struct VideoGrants {
    pub room_create: bool,
    pub room_list: bool,
    pub room_admin: bool,
    /// The room that the grants are for; empty where they are for none.
    pub room: String,
}

/// What grants hold.
pub struct GrantsView {
    pub room_create: bool,
    pub room_list: bool,
    pub room_admin: bool,
    pub room: Seq<char>,
}

impl View for VideoGrants {
    type V = GrantsView;

    open spec fn view(&self) -> GrantsView {
        GrantsView {
            room_create: self.room_create,
            room_list: self.room_list,
            room_admin: self.room_admin,
            room: self.room@,
        }
    }
}

impl GrantsView {
    /// Grants that allow nothing.
    pub open spec fn none() -> GrantsView {
        GrantsView {
            room_create: false,
            room_list: false,
            room_admin: false,
            room: Seq::empty(),
        }
    }

    /// The right to create and delete rooms.
    pub open spec fn create() -> GrantsView {
        GrantsView { room_create: true, ..Self::none() }
    }

    /// The right to list rooms.
    pub open spec fn list() -> GrantsView {
        GrantsView { room_list: true, ..Self::none() }
    }

    /// The right to administer `room`, and nothing else.
    pub open spec fn admin(room: Seq<char>) -> GrantsView {
        GrantsView { room_admin: true, room, ..Self::none() }
    }
}

impl Default for VideoGrants {
    fn default() -> (r: VideoGrants)
        ensures
            r@ == GrantsView::none(),
    {
        VideoGrants { room_create: false, room_list: false, room_admin: false, room: String::new() }
    }
}

/// How a data packet is delivered.
#[derive(Clone, Copy, Debug, PartialEq, Eq, Structural)]
pub enum DataPacketKind {
    Reliable,
    Lossy,
}

impl DataPacketKind {
    /// The number that the protocol sends for the kind.
    pub open spec fn number(self) -> int {
        match self {
            DataPacketKind::Reliable => 0,
            DataPacketKind::Lossy => 1,
        }
    }

    pub fn as_i32(self) -> (r: i32)
        ensures
            r == self.number(),
    {
        match self {
            DataPacketKind::Reliable => 0,
            DataPacketKind::Lossy => 1,
        }
    }
}

impl Default for DataPacketKind {
    fn default() -> (r: DataPacketKind)
        ensures
            r == DataPacketKind::Reliable,
    {
        DataPacketKind::Reliable
    }
}

#[derive(Debug)]
pub struct CreateRoomOptions {
    pub empty_timeout: u32,
    pub max_participants: u32,
    pub node_id: String,
    pub metadata: String,
    pub egress: Option<livekit_protocol::RoomEgress>,
}

impl Default for CreateRoomOptions {
    fn default() -> (r: CreateRoomOptions)
        ensures
            r.empty_timeout == 0,
            r.max_participants == 0,
            r.node_id@ == Seq::<char>::empty(),
            r.metadata@ == Seq::<char>::empty(),
            r.egress is None,
    {
        CreateRoomOptions {
            empty_timeout: 0,
            max_participants: 0,
            node_id: String::new(),
            metadata: String::new(),
            egress: None,
        }
    }
}

#[derive(Debug)]
pub struct UpdateParticipantOptions {
    pub metadata: String,
    pub permission: Option<livekit_protocol::ParticipantPermission>,
    /// No effect if left empty.
    pub name: String,
}

impl Default for UpdateParticipantOptions {
    fn default() -> (r: UpdateParticipantOptions)
        ensures
            r.metadata@ == Seq::<char>::empty(),
            r.permission is None,
            r.name@ == Seq::<char>::empty(),
    {
        UpdateParticipantOptions { metadata: String::new(), permission: None, name: String::new() }
    }
}

#[derive(Debug)]
pub struct SendDataOptions {
    pub kind: DataPacketKind,
    pub destination_sids: Vec<String>,
    pub topic: Option<String>,
}

impl Default for SendDataOptions {
    fn default() -> (r: SendDataOptions)
        ensures
            r.kind == DataPacketKind::Reliable,
            r.destination_sids@ == Seq::<String>::empty(),
            r.topic is None,
    {
        SendDataOptions { kind: DataPacketKind::Reliable, destination_sids: Vec::new(), topic: None }
    }
}

#[derive(Debug)]
pub struct CreateRoomRequest {
    pub name: String,
    pub empty_timeout: u32,
    pub max_participants: u32,
    pub node_id: String,
    pub metadata: String,
    pub egress: Option<livekit_protocol::RoomEgress>,
}

#[derive(Debug)]
pub struct ListRoomsRequest {
    pub names: Vec<String>,
}

#[derive(Debug)]
pub struct DeleteRoomRequest {
    pub room: String,
}

#[derive(Debug)]
pub struct UpdateRoomMetadataRequest {
    pub room: String,
    pub metadata: String,
}

#[derive(Debug)]
pub struct ListParticipantsRequest {
    pub room: String,
}

#[derive(Debug)]
pub struct RoomParticipantIdentity {
    pub room: String,
    pub identity: String,
}

#[derive(Debug)]
pub struct MuteRoomTrackRequest {
    pub room: String,
    pub identity: String,
    pub track_sid: String,
    pub muted: bool,
}

#[derive(Debug)]
pub struct UpdateParticipantRequest {
    pub room: String,
    pub identity: String,
    pub permission: Option<livekit_protocol::ParticipantPermission>,
    pub metadata: String,
    pub name: String,
}

#[derive(Debug)]
pub struct UpdateSubscriptionsRequest {
    pub room: String,
    pub identity: String,
    pub track_sids: Vec<String>,
    pub subscribe: bool,
}

#[derive(Debug)]
pub struct SendDataRequest {
    pub room: String,
    pub data: Vec<u8>,
    pub destination_sids: Vec<String>,
    pub topic: Option<String>,
    pub kind: i32,
}

/// A call of the room service, ready to be signed and sent.
#[derive(Debug)]
pub struct RoomCall<R> {
    pub method: RoomMethod,
    pub grants: VideoGrants,
    pub request: R,
}

/// What a client holds.
pub struct RoomClientView {
    pub host: Seq<char>,
    pub api_key: Seq<char>,
    pub api_secret: Seq<char>,
}

/// A client of the room service of one server.
#[derive(Debug)]
pub struct RoomClient {
    host: String,
    api_key: String,
    api_secret: String,
}

impl View for RoomClient {
    type V = RoomClientView;

    closed spec fn view(&self) -> RoomClientView {
        RoomClientView { host: self.host@, api_key: self.api_key@, api_secret: self.api_secret@ }
    }
}

/// Grants to administer `room`.
fn admin_grants(room: &str) -> (r: VideoGrants)
    ensures
        r@ == GrantsView::admin(room@),
{
    VideoGrants { room_create: false, room_list: false, room_admin: true, room: room.to_owned() }
}

impl RoomClient {
    /// A client for the server at `host` that signs with the given key
    /// and secret.
    pub fn with_api_key(host: &str, api_key: &str, api_secret: &str) -> (r: RoomClient)
        ensures
            r@.host == host@,
            r@.api_key == api_key@,
            r@.api_secret == api_secret@,
    {
        RoomClient {
            host: host.to_owned(),
            api_key: api_key.to_owned(),
            api_secret: api_secret.to_owned(),
        }
    }

    /// A client for the server at `host` that signs with the key and the
    /// secret that the environment holds, given here as the caller found
    /// them there.
    pub fn new(host: &str, api_key: Option<String>, api_secret: Option<String>) -> (r:
        ServiceResult<RoomClient>)
        ensures
            match r {
                Ok(client) => {
                    &&& api_key matches Some(key) && client@.api_key == key@
                    &&& api_secret matches Some(secret) && client@.api_secret == secret@
                    &&& client@.host == host@
                },
                Err(ServiceError::MissingApiKey) => api_key is None,
                Err(ServiceError::MissingApiSecret) => api_key is Some && api_secret is None,
            },
    {
        match api_key {
            None => Err(ServiceError::MissingApiKey),
            Some(key) => match api_secret {
                None => Err(ServiceError::MissingApiSecret),
                Some(secret) => Ok(Self::with_api_key(host, key.as_str(), secret.as_str())),
            },
        }
    }

    pub fn host(&self) -> (r: &str)
        ensures
            r@ == self@.host,
    {
        self.host.as_str()
    }

    pub fn api_key(&self) -> (r: &str)
        ensures
            r@ == self@.api_key,
    {
        self.api_key.as_str()
    }

    pub fn api_secret(&self) -> (r: &str)
        ensures
            r@ == self@.api_secret,
    {
        self.api_secret.as_str()
    }

    pub fn create_room(&self, name: &str, options: CreateRoomOptions) -> (r: RoomCall<
        CreateRoomRequest,
    >)
        ensures
            r.method == RoomMethod::CreateRoom,
            r.grants@ == GrantsView::create(),
            r.request.name@ == name@,
            r.request.empty_timeout == options.empty_timeout,
            r.request.max_participants == options.max_participants,
            r.request.node_id == options.node_id,
            r.request.metadata == options.metadata,
            r.request.egress == options.egress,
    {
        RoomCall {
            method: RoomMethod::CreateRoom,
            grants: VideoGrants {
                room_create: true,
                room_list: false,
                room_admin: false,
                room: String::new(),
            },
            request: CreateRoomRequest {
                name: name.to_owned(),
                empty_timeout: options.empty_timeout,
                max_participants: options.max_participants,
                node_id: options.node_id,
                metadata: options.metadata,
                egress: options.egress,
            },
        }
    }

    pub fn list_rooms(&self, names: Vec<String>) -> (r: RoomCall<ListRoomsRequest>)
        ensures
            r.method == RoomMethod::ListRooms,
            r.grants@ == GrantsView::list(),
            r.request.names == names,
    {
        RoomCall {
            method: RoomMethod::ListRooms,
            grants: VideoGrants {
                room_create: false,
                room_list: true,
                room_admin: false,
                room: String::new(),
            },
            request: ListRoomsRequest { names },
        }
    }

    pub fn delete_room(&self, room: &str) -> (r: RoomCall<DeleteRoomRequest>)
        ensures
            r.method == RoomMethod::DeleteRoom,
            r.grants@ == GrantsView::create(),
            r.request.room@ == room@,
    {
        RoomCall {
            method: RoomMethod::DeleteRoom,
            grants: VideoGrants {
                room_create: true,
                room_list: false,
                room_admin: false,
                room: String::new(),
            },
            request: DeleteRoomRequest { room: room.to_owned() },
        }
    }

    pub fn update_room_metadata(&self, room: &str, metadata: &str) -> (r: RoomCall<
        UpdateRoomMetadataRequest,
    >)
        ensures
            r.method == RoomMethod::UpdateRoomMetadata,
            r.grants@ == GrantsView::admin(room@),
            r.request.room@ == room@,
            r.request.metadata@ == metadata@,
    {
        RoomCall {
            method: RoomMethod::UpdateRoomMetadata,
            grants: admin_grants(room),
            request: UpdateRoomMetadataRequest {
                room: room.to_owned(),
                metadata: metadata.to_owned(),
            },
        }
    }

    pub fn list_participants(&self, room: &str) -> (r: RoomCall<ListParticipantsRequest>)
        ensures
            r.method == RoomMethod::ListParticipants,
            r.grants@ == GrantsView::admin(room@),
            r.request.room@ == room@,
    {
        RoomCall {
            method: RoomMethod::ListParticipants,
            grants: admin_grants(room),
            request: ListParticipantsRequest { room: room.to_owned() },
        }
    }

    pub fn get_participant(&self, room: &str, identity: &str) -> (r: RoomCall<
        RoomParticipantIdentity,
    >)
        ensures
            r.method == RoomMethod::GetParticipant,
            r.grants@ == GrantsView::admin(room@),
            r.request.room@ == room@,
            r.request.identity@ == identity@,
    {
        RoomCall {
            method: RoomMethod::GetParticipant,
            grants: admin_grants(room),
            request: RoomParticipantIdentity {
                room: room.to_owned(),
                identity: identity.to_owned(),
            },
        }
    }

    pub fn remove_participant(&self, room: &str, identity: &str) -> (r: RoomCall<
        RoomParticipantIdentity,
    >)
        ensures
            r.method == RoomMethod::RemoveParticipant,
            r.grants@ == GrantsView::admin(room@),
            r.request.room@ == room@,
            r.request.identity@ == identity@,
    {
        RoomCall {
            method: RoomMethod::RemoveParticipant,
            grants: admin_grants(room),
            request: RoomParticipantIdentity {
                room: room.to_owned(),
                identity: identity.to_owned(),
            },
        }
    }

    pub fn mute_published_track(
        &self,
        room: &str,
        identity: &str,
        track_sid: &str,
        muted: bool,
    ) -> (r: RoomCall<MuteRoomTrackRequest>)
        ensures
            r.method == RoomMethod::MutePublishedTrack,
            r.grants@ == GrantsView::admin(room@),
            r.request.room@ == room@,
            r.request.identity@ == identity@,
            r.request.track_sid@ == track_sid@,
            r.request.muted == muted,
    {
        RoomCall {
            method: RoomMethod::MutePublishedTrack,
            grants: admin_grants(room),
            request: MuteRoomTrackRequest {
                room: room.to_owned(),
                identity: identity.to_owned(),
                track_sid: track_sid.to_owned(),
                muted,
            },
        }
    }

    pub fn update_participant(
        &self,
        room: &str,
        identity: &str,
        options: UpdateParticipantOptions,
    ) -> (r: RoomCall<UpdateParticipantRequest>)
        ensures
            r.method == RoomMethod::UpdateParticipant,
            r.grants@ == GrantsView::admin(room@),
            r.request.room@ == room@,
            r.request.identity@ == identity@,
            r.request.permission == options.permission,
            r.request.metadata == options.metadata,
            r.request.name == options.name,
    {
        RoomCall {
            method: RoomMethod::UpdateParticipant,
            grants: admin_grants(room),
            request: UpdateParticipantRequest {
                room: room.to_owned(),
                identity: identity.to_owned(),
                permission: options.permission,
                metadata: options.metadata,
                name: options.name,
            },
        }
    }

    pub fn update_subscriptions(
        &self,
        room: &str,
        identity: &str,
        track_sids: Vec<String>,
        subscribe: bool,
    ) -> (r: RoomCall<UpdateSubscriptionsRequest>)
        ensures
            r.method == RoomMethod::UpdateSubscriptions,
            r.grants@ == GrantsView::admin(room@),
            r.request.room@ == room@,
            r.request.identity@ == identity@,
            r.request.track_sids == track_sids,
            r.request.subscribe == subscribe,
    {
        RoomCall {
            method: RoomMethod::UpdateSubscriptions,
            grants: admin_grants(room),
            request: UpdateSubscriptionsRequest {
                room: room.to_owned(),
                identity: identity.to_owned(),
                track_sids,
                subscribe,
            },
        }
    }

    pub fn send_data(&self, room: &str, data: Vec<u8>, options: SendDataOptions) -> (r: RoomCall<
        SendDataRequest,
    >)
        ensures
            r.method == RoomMethod::SendData,
            r.grants@ == GrantsView::admin(room@),
            r.request.room@ == room@,
            r.request.data == data,
            r.request.destination_sids == options.destination_sids,
            r.request.topic == options.topic,
            r.request.kind == options.kind.number(),
    {
        RoomCall {
            method: RoomMethod::SendData,
            grants: admin_grants(room),
            request: SendDataRequest {
                room: room.to_owned(),
                data,
                destination_sids: options.destination_sids,
                topic: options.topic,
                kind: options.kind.as_i32(),
            },
        }
    }
}

} // verus!
