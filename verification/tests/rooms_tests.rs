use gouda::bridge::{JoinRule, JoinRuleKind, MembershipState};
use gouda::chat::{RoomJoinRule, RoomPermissions, RoomSettings, UserRoomState};
use gouda::notifications::RoomNotificationMode;
use gouda::rooms::{
    assemble_chat_room, convert_public_rooms_chunk, create_dm_room_request, create_room_request,
    get_room_members, get_room_permissions, get_room_settings, needs_direct_check, PublicRoomsChunk,
    RoomParts,
};
use gouda::strmap::StrMap;

#[test]
fn rooms_members() {
    let members = get_room_members(vec![
        ("@a:s".to_owned(), MembershipState::Join),
        ("@b:s".to_owned(), MembershipState::Invite),
        ("@a:s".to_owned(), MembershipState::Ban),
    ]);
    assert_eq!(members.len(), 2);
    assert_eq!(members.get("@a:s"), Some(&UserRoomState::Banned.to_i32()));
    assert_eq!(members.get("@b:s"), Some(&UserRoomState::Invited.to_i32()));
}

#[test]
fn rooms_permissions_and_settings() {
    let p = get_room_permissions(true, false, true, false, true);
    assert_eq!(p, RoomPermissions { can_edit: false, can_invite: true, can_kick: false, can_ban: true });
    assert!(get_room_permissions(true, true, false, false, false).can_edit);
    assert_eq!(get_room_settings(Some(RoomNotificationMode::Mute)), RoomSettings { notification_setting: Some(0) });
    assert_eq!(get_room_settings(None), RoomSettings { notification_setting: None });
    assert!(needs_direct_check(2));
    assert!(!needs_direct_check(3));
}

fn parts(members: StrMap<i32>, is_direct: bool) -> RoomParts {
    RoomParts {
        room_id: "!r:s".to_owned(),
        display_name: Some("Room".to_owned()),
        unread_messages: 5_000_000_000,
        members,
        join_rule: None,
        latest_message_timestamp: Some(17),
        avatar_path: None,
        is_direct,
        permissions: RoomPermissions::default(),
        is_favourite: true,
        room_settings: RoomSettings::default(),
    }
}

#[test]
fn rooms_assemble() {
    let mut members = StrMap::new();
    members.insert("@a:s".to_owned(), 1);
    let room = assemble_chat_room(parts(members, true));
    assert_eq!(room.room_id, "!r:s");
    assert_eq!(room.unread_count, u32::MAX);
    assert_eq!(room.join_rule, RoomJoinRule::Invite.to_i32());
    assert!(room.is_direct);
    assert!(room.is_favorite);
    assert_eq!(room.latest_message_timestamp, Some(17));

    let mut members = StrMap::new();
    for id in ["@a:s", "@b:s", "@c:s"] {
        members.insert(id.to_owned(), 1);
    }
    let room = assemble_chat_room(parts(members, true));
    assert!(!room.is_direct);
}

#[test]
fn rooms_public_chunk() {
    let rooms = convert_public_rooms_chunk(vec![
        PublicRoomsChunk {
            room_id: "!p:s".to_owned(),
            name: Some("Public".to_owned()),
            num_joined_members: 20,
            topic: None,
            join_rule: JoinRuleKind::Public,
        },
        PublicRoomsChunk {
            room_id: "!q:s".to_owned(),
            name: None,
            num_joined_members: u64::MAX,
            topic: Some("t".to_owned()),
            join_rule: JoinRuleKind::Restricted,
        },
    ]);
    assert_eq!(rooms.len(), 2);
    assert_eq!(rooms[0].num_joined_members, 20);
    assert_eq!(rooms[0].join_rule, RoomJoinRule::Public.to_i32());
    assert_eq!(rooms[1].num_joined_members, u32::MAX);
    assert_eq!(rooms[1].join_rule, RoomJoinRule::Invite.to_i32());
}

#[test]
fn rooms_create_requests() {
    let r = create_room_request(Some("G".to_owned()), vec!["@a:s".to_owned()], RoomJoinRule::Knock);
    assert!(r.public);
    assert_eq!(r.join_rule, JoinRule::Knock);
    assert!(!r.is_direct);
    let r = create_dm_room_request(None, "@b:s".to_owned());
    assert!(!r.public);
    assert!(r.is_direct);
    assert!(r.trusted_private_chat);
    assert_eq!(r.invite, vec!["@b:s".to_owned()]);
}
