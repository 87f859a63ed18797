use livekit_media::room::CreateRoomOptions;
use livekit_media::room::DataPacketKind;
use livekit_media::room::RoomClient;
use livekit_media::room::RoomMethod;
use livekit_media::room::SendDataOptions;
use livekit_media::room::ServiceError;
use livekit_media::room::UpdateParticipantOptions;
use livekit_media::room::VideoGrants;
use livekit_media::room::SVC;

fn client() -> RoomClient {
    RoomClient::with_api_key("https://example.test", "key", "secret")
}

fn admin_of(room: &str) -> VideoGrants {
    VideoGrants { room_create: false, room_list: false, room_admin: true, room: room.to_string() }
}

#[test]
fn with_api_key_keeps_host_key_and_secret() {
    let c = client();
    assert_eq!(c.host(), "https://example.test");
    assert_eq!(c.api_key(), "key");
    assert_eq!(c.api_secret(), "secret");
}

#[test]
fn new_takes_the_keys_of_the_environment() {
    let c = RoomClient::new("host", Some("k".to_string()), Some("s".to_string())).unwrap();
    assert_eq!((c.host(), c.api_key(), c.api_secret()), ("host", "k", "s"));
}

#[test]
fn new_names_the_missing_key() {
    assert_eq!(
        RoomClient::new("host", None, Some("s".to_string())).unwrap_err(),
        ServiceError::MissingApiKey
    );
    assert_eq!(RoomClient::new("host", None, None).unwrap_err(), ServiceError::MissingApiKey);
    assert_eq!(
        RoomClient::new("host", Some("k".to_string()), None).unwrap_err(),
        ServiceError::MissingApiSecret
    );
}

#[test]
fn service_and_method_names() {
    assert_eq!(SVC, "RoomService");
    assert_eq!(RoomMethod::CreateRoom.name(), "CreateRoom");
    assert_eq!(RoomMethod::ListRooms.name(), "ListRooms");
    assert_eq!(RoomMethod::DeleteRoom.name(), "DeleteRoom");
    assert_eq!(RoomMethod::UpdateRoomMetadata.name(), "UpdateRoomMetadata");
    assert_eq!(RoomMethod::ListParticipants.name(), "ListParticipants");
    assert_eq!(RoomMethod::GetParticipant.name(), "GetParticipant");
    assert_eq!(RoomMethod::RemoveParticipant.name(), "RemoveParticipant");
    assert_eq!(RoomMethod::MutePublishedTrack.name(), "MutePublishedTrack");
    assert_eq!(RoomMethod::UpdateParticipant.name(), "UpdateParticipant");
    assert_eq!(RoomMethod::UpdateSubscriptions.name(), "UpdateSubscriptions");
    assert_eq!(RoomMethod::SendData.name(), "SendData");
}

#[test]
fn default_grants_allow_nothing() {
    assert_eq!(
        VideoGrants::default(),
        VideoGrants { room_create: false, room_list: false, room_admin: false, room: String::new() }
    );
}

#[test]
fn default_options_are_empty() {
    let o = CreateRoomOptions::default();
    assert_eq!((o.empty_timeout, o.max_participants), (0, 0));
    assert!(o.node_id.is_empty() && o.metadata.is_empty() && o.egress.is_none());
    let o = UpdateParticipantOptions::default();
    assert!(o.metadata.is_empty() && o.name.is_empty() && o.permission.is_none());
    let o = SendDataOptions::default();
    assert_eq!(o.kind, DataPacketKind::Reliable);
    assert!(o.destination_sids.is_empty() && o.topic.is_none());
}

#[test]
fn data_packet_kinds_have_the_numbers_of_the_protocol() {
    assert_eq!(DataPacketKind::Reliable.as_i32(), livekit_protocol::data_packet::Kind::Reliable as i32);
    assert_eq!(DataPacketKind::Lossy.as_i32(), livekit_protocol::data_packet::Kind::Lossy as i32);
    assert_eq!(DataPacketKind::Reliable.as_i32(), 0);
    assert_eq!(DataPacketKind::Lossy.as_i32(), 1);
    assert_eq!(DataPacketKind::default(), DataPacketKind::Reliable);
}

#[test]
fn create_room_sends_the_options() {
    let mut egress = livekit_protocol::RoomEgress::default();
    egress.tracks = Some(livekit_protocol::AutoTrackEgress::default());
    let options = CreateRoomOptions {
        empty_timeout: 30,
        max_participants: 8,
        node_id: "node".to_string(),
        metadata: "meta".to_string(),
        egress: Some(egress.clone()),
    };
    let call = client().create_room("lobby", options);
    assert_eq!(call.method, RoomMethod::CreateRoom);
    assert_eq!(
        call.grants,
        VideoGrants { room_create: true, room_list: false, room_admin: false, room: String::new() }
    );
    assert_eq!(call.request.name, "lobby");
    assert_eq!(call.request.empty_timeout, 30);
    assert_eq!(call.request.max_participants, 8);
    assert_eq!(call.request.node_id, "node");
    assert_eq!(call.request.metadata, "meta");
    assert_eq!(call.request.egress, Some(egress));
}

#[test]
fn list_rooms_needs_the_right_to_list() {
    let call = client().list_rooms(vec!["a".to_string(), "b".to_string()]);
    assert_eq!(call.method, RoomMethod::ListRooms);
    assert_eq!(
        call.grants,
        VideoGrants { room_create: false, room_list: true, room_admin: false, room: String::new() }
    );
    assert_eq!(call.request.names, vec!["a".to_string(), "b".to_string()]);
}

#[test]
fn delete_room_needs_the_right_to_create() {
    let call = client().delete_room("lobby");
    assert_eq!(call.method, RoomMethod::DeleteRoom);
    assert!(call.grants.room_create && !call.grants.room_admin && !call.grants.room_list);
    assert!(call.grants.room.is_empty());
    assert_eq!(call.request.room, "lobby");
}

#[test]
fn update_room_metadata_is_for_admins_of_the_room() {
    let call = client().update_room_metadata("lobby", "new");
    assert_eq!(call.method, RoomMethod::UpdateRoomMetadata);
    assert_eq!(call.grants, admin_of("lobby"));
    assert_eq!((call.request.room.as_str(), call.request.metadata.as_str()), ("lobby", "new"));
}

#[test]
fn participant_calls_name_room_and_identity() {
    let call = client().list_participants("lobby");
    assert_eq!(call.method, RoomMethod::ListParticipants);
    assert_eq!(call.grants, admin_of("lobby"));
    assert_eq!(call.request.room, "lobby");

    let call = client().get_participant("lobby", "ann");
    assert_eq!(call.method, RoomMethod::GetParticipant);
    assert_eq!(call.grants, admin_of("lobby"));
    assert_eq!((call.request.room.as_str(), call.request.identity.as_str()), ("lobby", "ann"));

    let call = client().remove_participant("hall", "bob");
    assert_eq!(call.method, RoomMethod::RemoveParticipant);
    assert_eq!(call.grants, admin_of("hall"));
    assert_eq!((call.request.room.as_str(), call.request.identity.as_str()), ("hall", "bob"));
}

#[test]
fn mute_published_track_names_the_track() {
    let call = client().mute_published_track("lobby", "ann", "TR_1", true);
    assert_eq!(call.method, RoomMethod::MutePublishedTrack);
    assert_eq!(call.grants, admin_of("lobby"));
    assert_eq!(call.request.room, "lobby");
    assert_eq!(call.request.identity, "ann");
    assert_eq!(call.request.track_sid, "TR_1");
    assert!(call.request.muted);
    assert!(!client().mute_published_track("lobby", "ann", "TR_1", false).request.muted);
}

#[test]
fn update_participant_sends_the_permission_as_it_is() {
    let mut permission = livekit_protocol::ParticipantPermission::default();
    permission.can_publish = true;
    permission.hidden = true;
    let options = UpdateParticipantOptions {
        metadata: "m".to_string(),
        permission: Some(permission.clone()),
        name: "Ann".to_string(),
    };
    let call = client().update_participant("lobby", "ann", options);
    assert_eq!(call.method, RoomMethod::UpdateParticipant);
    assert_eq!(call.grants, admin_of("lobby"));
    assert_eq!(call.request.room, "lobby");
    assert_eq!(call.request.identity, "ann");
    assert_eq!(call.request.permission, Some(permission));
    assert_eq!(call.request.metadata, "m");
    assert_eq!(call.request.name, "Ann");
}

#[test]
fn update_subscriptions_lists_the_tracks() {
    let call = client().update_subscriptions("lobby", "ann", vec!["TR_1".to_string()], false);
    assert_eq!(call.method, RoomMethod::UpdateSubscriptions);
    assert_eq!(call.grants, admin_of("lobby"));
    assert_eq!(call.request.room, "lobby");
    assert_eq!(call.request.identity, "ann");
    assert_eq!(call.request.track_sids, vec!["TR_1".to_string()]);
    assert!(!call.request.subscribe);
}

#[test]
fn send_data_sends_the_number_of_the_kind() {
    let options = SendDataOptions {
        kind: DataPacketKind::Lossy,
        destination_sids: vec!["PA_1".to_string()],
        topic: Some("chat".to_string()),
    };
    let call = client().send_data("lobby", vec![1, 2, 3], options);
    assert_eq!(call.method, RoomMethod::SendData);
    assert_eq!(call.grants, admin_of("lobby"));
    assert_eq!(call.request.room, "lobby");
    assert_eq!(call.request.data, vec![1, 2, 3]);
    assert_eq!(call.request.destination_sids, vec!["PA_1".to_string()]);
    assert_eq!(call.request.topic, Some("chat".to_string()));
    assert_eq!(call.request.kind, 1);
    let call = client().send_data("lobby", vec![], SendDataOptions::default());
    assert_eq!(call.request.kind, 0);
    assert!(call.request.topic.is_none());
}
