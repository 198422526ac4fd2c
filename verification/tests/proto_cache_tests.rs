use gouda::chat::{
    ResponseContent, Room, RoomChangeEvent, RoomLeftEvent, RoomListResponse, User, UserChangeEvent,
    UserStatus,
};
use gouda::proto_cache::{
    decode_proto_messages, encode_proto_messages, next_save_phase, ProtoCache, ProtoCacheError,
    ProtoCacheInner, SavePhase,
};
use prost::bytes::{Buf, BufMut};
use prost::encoding::{DecodeContext, WireType};
use prost::{DecodeError, Message};

/// A login request with username and password, encoded as the protocol does.
#[derive(Debug, Default, PartialEq)]
struct LoginUsernamePasswordRequest {
    username: String,
    password: String,
}

impl Message for LoginUsernamePasswordRequest {
    fn encode_raw(&self, buf: &mut impl BufMut) {
        if !self.username.is_empty() {
            prost::encoding::string::encode(1, &self.username, buf);
        }
        if !self.password.is_empty() {
            prost::encoding::string::encode(2, &self.password, buf);
        }
    }

    fn merge_field(
        &mut self,
        tag: u32,
        wire_type: WireType,
        buf: &mut impl Buf,
        ctx: DecodeContext,
    ) -> Result<(), DecodeError> {
        match tag {
            1 => prost::encoding::string::merge(wire_type, &mut self.username, buf, ctx),
            2 => prost::encoding::string::merge(wire_type, &mut self.password, buf, ctx),
            _ => prost::encoding::skip_field(wire_type, tag, buf, ctx),
        }
    }

    fn encoded_len(&self) -> usize {
        let mut len = 0;
        if !self.username.is_empty() {
            len += prost::encoding::string::encoded_len(1, &self.username);
        }
        if !self.password.is_empty() {
            len += prost::encoding::string::encoded_len(2, &self.password);
        }
        len
    }

    fn clear(&mut self) {
        self.username.clear();
        self.password.clear();
    }
}

const ENCODED: &[u8] = &[
    // Size 1
    0x1D, 0x00, 0x00, 0x00, 0x00, 0x00, 0x00, 0x00,
    // Message 1
    0x0A, 0x09, 0x73, 0x6F, 0x6D, 0x65, 0x75, 0x73, 0x65, 0x72, 0x31, 0x12, 0x10, 0x6D,
    0x79, 0x76, 0x65, 0x72, 0x79, 0x67, 0x6F, 0x6F, 0x64, 0x73, 0x65, 0x63, 0x72, 0x65,
    0x74,
    // Size 2
    0x1E, 0x00, 0x00, 0x00, 0x00, 0x00, 0x00, 0x00,
    // Message 2
    0x0A, 0x09, 0x73, 0x6F, 0x6D, 0x65, 0x75, 0x73, 0x65, 0x72, 0x32, 0x12, 0x11, 0x6D,
    0x79, 0x76, 0x65, 0x72, 0x79, 0x67, 0x6F, 0x6F, 0x64, 0x73, 0x65, 0x63, 0x72, 0x65,
    0x74, 0x32
];

fn requests() -> Vec<LoginUsernamePasswordRequest> {
    vec![
        LoginUsernamePasswordRequest {
            password: "myverygoodsecret".to_owned(),
            username: "someuser1".to_owned(),
        },
        LoginUsernamePasswordRequest {
            password: "myverygoodsecret2".to_owned(),
            username: "someuser2".to_owned(),
        },
    ]
}

#[test]
fn test_encode_proto_messages() {
    let messages = requests();
    let buffers: Vec<Vec<u8>> = messages.iter().map(|m| m.encode_to_vec()).collect();

    let encoded = encode_proto_messages(&buffers);

    assert_eq!(encoded, ENCODED);
}

#[test]
fn test_decode_proto_messages() {
    let expected = requests();

    let frames = decode_proto_messages(ENCODED).unwrap();
    let decoded: Vec<LoginUsernamePasswordRequest> = frames
        .iter()
        .map(|f| LoginUsernamePasswordRequest::decode(f.as_slice()).unwrap())
        .collect();

    assert_eq!(decoded, expected);
}

#[test]
fn proto_cache_decode_of_encode_gives_back_the_messages() {
    let messages = vec![vec![1u8, 2, 3], Vec::new(), vec![9u8; 300]];
    let encoded = encode_proto_messages(&messages);
    assert_eq!(encoded.len(), 3 * 8 + 3 + 300);
    assert_eq!(decode_proto_messages(&encoded), Ok(messages));
}

#[test]
fn proto_cache_decode_empty_input() {
    assert_eq!(decode_proto_messages(&[]), Ok(Vec::new()));
}

#[test]
fn proto_cache_decode_short_size_fails() {
    assert_eq!(decode_proto_messages(&[0x01, 0x00, 0x00]), Err(ProtoCacheError::DecodeError));
}

#[test]
fn proto_cache_decode_short_message_fails() {
    let data = [0x05u8, 0, 0, 0, 0, 0, 0, 0, 1, 2];
    assert_eq!(decode_proto_messages(&data), Err(ProtoCacheError::DecodeError));
}

fn cache_with(rooms: Option<Vec<Room>>, users: Option<Vec<User>>) -> ProtoCache {
    let mut inner = ProtoCacheInner::new();
    if let Some(rooms) = rooms {
        inner.restore_rooms(rooms);
    }
    if let Some(users) = users {
        inner.restore_users(users);
    }
    ProtoCache::from_inner(inner)
}

fn room(id: &str, name: &str) -> Room {
    Room { room_id: id.to_owned(), display_name: Some(name.to_owned()), ..Default::default() }
}

fn user(id: &str, name: &str) -> User {
    User { user_id: id.to_owned(), display_name: Some(name.to_owned()), ..Default::default() }
}

#[test]
fn test_proto_cache_sync_token() {
    let mut cache = cache_with(None, None);
    cache.set_sync_token("some-sync-token".to_owned());
    assert_eq!(cache.sync_token(), Some("some-sync-token".to_owned()));
}

#[test]
fn test_proto_cache_sync_token_none() {
    let cache = cache_with(None, None);
    assert_eq!(cache.sync_token(), None);
}

#[test]
fn test_proto_cache_user_status() {
    let mut cache = cache_with(None, None);
    let status = UserStatus { state: 1, status_message: Some("msg".to_owned()) };
    cache.set_user_status(status.clone());
    assert_eq!(cache.user_status(), Some(status));
}

#[test]
fn test_proto_cache_user_status_none() {
    let cache = cache_with(None, None);
    assert_eq!(cache.user_status(), None);
}

#[test]
fn test_proto_cache_cached_rooms() {
    let expected = vec![room("", "Room 1"), room("", "Room 2")];
    let cache = cache_with(Some(vec![room("", "Room 1"), room("", "Room 2")]), None);
    assert_eq!(cache.cached_rooms(), Some(expected));
}

#[test]
fn test_proto_cache_cached_rooms_none() {
    let cache = cache_with(None, None);
    assert_eq!(cache.cached_rooms(), None);
}

#[test]
fn test_proto_cache_cache_response_content_room_list_response() {
    let mut cache = cache_with(None, None);
    let response = ResponseContent::RoomListResponse(RoomListResponse {
        room_list: vec![room("room-1", "Room 1"), room("room-2", "Room 2")],
    });
    cache.cache_response_content(&response);
    assert_eq!(cache.cached_rooms(), Some(vec![room("room-1", "Room 1"), room("room-2", "Room 2")]));
}

#[test]
fn test_proto_cache_cache_response_content_room_created_event() {
    let mut cache = cache_with(None, None);
    cache.cache_response_content(&ResponseContent::RoomCreatedEvent(room("room-1", "Room 1")));
    assert_eq!(cache.cached_rooms(), Some(vec![room("room-1", "Room 1")]));
}

#[test]
fn test_proto_cache_cache_response_content_room_left_event() {
    let mut cache = cache_with(Some(vec![room("room-1", "Room 1")]), None);
    let response = ResponseContent::RoomLeftEvent(RoomLeftEvent { room_id: "room-1".to_owned() });
    cache.cache_response_content(&response);
    assert_eq!(cache.cached_rooms(), Some(vec![]));
}

#[test]
fn test_proto_cache_cache_response_content_room_change_event() {
    let mut cache = cache_with(Some(vec![room("room-1", "Room 1")]), None);
    let response = ResponseContent::RoomChangeEvent(RoomChangeEvent {
        room_id: "room-1".to_owned(),
        display_name: Some("Room 1 New Name".to_owned()),
        ..Default::default()
    });
    cache.cache_response_content(&response);
    assert_eq!(cache.cached_rooms(), Some(vec![room("room-1", "Room 1 New Name")]));
}

#[test]
fn test_proto_cache_cache_response_content_user_response() {
    let mut cache = cache_with(None, None);
    cache.cache_response_content(&ResponseContent::UserResponse(user("user-1", "User 1")));
    assert_eq!(cache.cached_user("user-1"), Some(user("user-1", "User 1")));
}

#[test]
fn test_proto_cache_cache_response_content_user_change_event() {
    let mut cache = cache_with(None, Some(vec![user("user-1", "User 1")]));
    let response = ResponseContent::UserChangeEvent(UserChangeEvent {
        user_id: "user-1".to_owned(),
        display_name: Some("User 1 New Name".to_owned()),
        ..Default::default()
    });
    cache.cache_response_content(&response);
    assert_eq!(cache.cached_user("user-1"), Some(user("user-1", "User 1 New Name")));
}

#[test]
fn test_proto_cache_cached_user() {
    let cache = cache_with(None, Some(vec![user("user-1", "User 1")]));
    assert_eq!(cache.cached_user("user-1"), Some(user("user-1", "User 1")));
}

#[test]
fn test_proto_cache_cached_user_none() {
    let cache = cache_with(None, None);
    assert_eq!(cache.cached_user("user-1"), None);
}

#[test]
fn proto_cache_cached_user_reads_back() {
    let mut inner = ProtoCacheInner::new();
    inner.restore_users(vec![user("user-1", "User 1"), user("user-2", "User 2")]);
    inner.cache_user(user("user-1", "Renamed")).unwrap();
    assert_eq!(inner.get_user("user-1").unwrap(), Some(user("user-1", "Renamed")));
    assert_eq!(inner.get_user("user-2").unwrap(), Some(user("user-2", "User 2")));
    inner.cache_user(user("user-3", "User 3")).unwrap();
    assert_eq!(inner.get_user("user-3").unwrap(), Some(user("user-3", "User 3")));
}

#[test]
fn proto_cache_save_writes_info_last() {
    let mut phase = SavePhase::Rooms;
    let mut order = Vec::new();
    while phase != SavePhase::Done {
        order.push(phase);
        phase = next_save_phase(phase, true);
    }
    assert_eq!(order, vec![SavePhase::Rooms, SavePhase::Users, SavePhase::Info]);

    assert_eq!(next_save_phase(SavePhase::Rooms, false), SavePhase::Done);
    assert_eq!(next_save_phase(SavePhase::Users, false), SavePhase::Done);
    assert_eq!(next_save_phase(SavePhase::Info, false), SavePhase::Done);
}
