use gouda::builder::{MessageChangeEventBuilder, RoomChangeEventBuilder, UserChangeEventBuilder};
use gouda::chat::{
    MessageChangeContent, MessageChangeEvent, MessageContentText, NotificationSetting,
    PresenceState, Room, RoomChangeEvent, RoomJoinRule, RoomPermissions, RoomSettings, User,
    UserChangeEvent, UserRoomState, UserStatus,
};
use gouda::strmap::StrMap;

fn members(pairs: &[(&str, i32)]) -> StrMap<i32> {
    StrMap::from_pairs(pairs.iter().map(|(k, v)| (k.to_string(), *v)).collect())
}

#[test]
fn test_room_change_event_builder_compare_rooms() {
    let old = Room {
        room_id: "room-1".to_owned(),
        display_name: Some("Room 1".to_owned()),
        user_id_list: members(&[("user-1", PresenceState::Online.to_i32())]),
        space_id: Vec::new(),
        unread_count: 5,
        is_direct: true,
        join_rule: RoomJoinRule::Public.to_i32(),
        permissions: Some(RoomPermissions { can_edit: true, can_invite: false, can_kick: true, can_ban: false }),
        latest_message_timestamp: None,
        avatar_path: Some("avatar-1.png".to_string()),
        is_favorite: true,
        room_settings: Some(RoomSettings {
            notification_setting: Some(NotificationSetting::AllMessages.to_i32()),
        }),
    };

    let new = Room {
        room_id: "room-1".to_owned(),
        display_name: Some("Room 2".to_owned()),
        user_id_list: members(&[("user-2", PresenceState::Online.to_i32())]),
        space_id: Vec::new(),
        unread_count: 6,
        is_direct: false,
        join_rule: RoomJoinRule::Invite.to_i32(),
        permissions: Some(RoomPermissions { can_edit: false, can_invite: true, can_kick: false, can_ban: true }),
        latest_message_timestamp: None,
        avatar_path: Some("avatar-2.png".to_string()),
        is_favorite: false,
        room_settings: Some(RoomSettings { notification_setting: Some(NotificationSetting::Mute.to_i32()) }),
    };

    let expected = RoomChangeEventBuilder {
        room_id: "room-1".to_string(),
        user_id_list: Some(members(&[("user-2", PresenceState::Online.to_i32())])),
        typing_user_id_list: None,
        display_name: Some("Room 2".to_owned()),
        unread_count: Some(6),
        join_rule: Some(RoomJoinRule::Invite),
        is_direct: Some(false),
        permissions: Some(RoomPermissions { can_edit: false, can_invite: true, can_kick: false, can_ban: true }),
        avatar_path: Some("avatar-2.png".to_string()),
        is_favourite: Some(false),
        room_settings: Some(RoomSettings { notification_setting: Some(NotificationSetting::Mute.to_i32()) }),
    };

    let result = RoomChangeEventBuilder::compare_rooms(&old, &new);

    assert_eq!(result, expected);
}

#[test]
fn test_room_change_event_builder_compare_rooms_empty_display_name() {
    let old = Room { room_id: "room-1".to_owned(), display_name: Some("Old display name".to_owned()), ..Default::default() };
    let new = Room { room_id: "room-1".to_owned(), display_name: None, ..Default::default() };
    let expected = RoomChangeEventBuilder {
        room_id: "room-1".to_string(),
        display_name: Some(String::new()),
        ..Default::default()
    };

    let result = RoomChangeEventBuilder::compare_rooms(&old, &new);

    assert_eq!(result, expected);
}

#[test]
fn test_room_change_event_builder_compare_rooms_empty_avatar_path() {
    let old = Room { room_id: "room-1".to_owned(), avatar_path: Some("avatar".to_owned()), ..Default::default() };
    let new = Room { room_id: "room-1".to_owned(), avatar_path: None, ..Default::default() };
    let expected = RoomChangeEventBuilder {
        room_id: "room-1".to_string(),
        avatar_path: Some(String::new()),
        ..Default::default()
    };

    let result = RoomChangeEventBuilder::compare_rooms(&old, &new);

    assert_eq!(result, expected);
}

#[test]
fn test_room_change_event_builder_to_proto() {
    let builder = RoomChangeEventBuilder {
        room_id: "room-1".to_string(),
        user_id_list: Some(members(&[("user-2", PresenceState::Online.to_i32())])),
        typing_user_id_list: Some(vec!["user-1".to_owned()]),
        display_name: Some("Room 2".to_owned()),
        unread_count: Some(6),
        join_rule: Some(RoomJoinRule::Invite),
        is_direct: Some(false),
        permissions: Some(RoomPermissions { can_edit: false, can_invite: true, can_kick: false, can_ban: true }),
        avatar_path: Some("avatar-2.png".to_string()),
        is_favourite: Some(false),
        room_settings: Some(RoomSettings { notification_setting: Some(NotificationSetting::Mute.to_i32()) }),
    };

    let expected = RoomChangeEvent {
        room_id: "room-1".to_owned(),
        has_user_id_list_changed: true,
        user_id_list: members(&[("user-2", PresenceState::Online.to_i32())]),
        has_typing_user_id_list_changed: true,
        typing_user_id_list: vec!["user-1".to_owned()],
        display_name: Some("Room 2".to_owned()),
        unread_count: Some(6),
        join_rule: Some(RoomJoinRule::Invite.to_i32()),
        is_direct: Some(false),
        permissions: Some(RoomPermissions { can_edit: false, can_invite: true, can_kick: false, can_ban: true }),
        avatar_path: Some("avatar-2.png".to_string()),
        is_favorite: Some(false),
        room_settings: Some(RoomSettings { notification_setting: Some(NotificationSetting::Mute.to_i32()) }),
    };

    let result = builder.to_proto();

    assert_eq!(result, expected);
}

#[test]
fn test_room_change_event_builder_to_proto_no_changes() {
    let builder = RoomChangeEventBuilder::new("room-id".to_string());
    let expected = RoomChangeEvent { room_id: "room-id".to_owned(), ..Default::default() };

    let result = builder.to_proto();

    assert_eq!(result, expected);
}

#[test]
fn test_user_change_event_builder_compare_users() {
    let old = User {
        user_id: "user-1".to_owned(),
        display_name: Some("User 1".to_owned()),
        avatar_path: Some("avatar-1.png".to_string()),
        status: Some(UserStatus {
            state: UserRoomState::Knocked.to_i32(),
            status_message: Some("hello-world".to_owned()),
        }),
    };
    let new = User {
        user_id: "user-1".to_owned(),
        display_name: Some("User 2".to_owned()),
        avatar_path: Some("avatar-2.png".to_string()),
        status: Some(UserStatus {
            state: UserRoomState::Knocked.to_i32(),
            status_message: Some("hello-world 2".to_owned()),
        }),
    };
    let expected = UserChangeEventBuilder {
        user_id: "user-1".to_string(),
        display_name: Some("User 2".to_owned()),
        avatar_path: Some("avatar-2.png".to_string()),
        status: Some(UserStatus {
            state: UserRoomState::Knocked.to_i32(),
            status_message: Some("hello-world 2".to_owned()),
        }),
    };

    let result = UserChangeEventBuilder::compare_users(&old, &new);

    assert_eq!(result, expected);
}

#[test]
fn test_user_change_event_builder_compare_users_empty_display_name() {
    let old = User { user_id: "user-1".to_owned(), display_name: Some("Old display name".to_owned()), ..Default::default() };
    let new = User { user_id: "user-1".to_owned(), display_name: None, ..Default::default() };
    let expected = UserChangeEventBuilder {
        user_id: "user-1".to_string(),
        display_name: Some(String::new()),
        ..Default::default()
    };

    let result = UserChangeEventBuilder::compare_users(&old, &new);

    assert_eq!(result, expected);
}

#[test]
fn test_user_change_event_builder_compare_users_empty_avatar_path() {
    let old = User { user_id: "user-1".to_owned(), avatar_path: Some("avatar".to_owned()), ..Default::default() };
    let new = User { user_id: "user-1".to_owned(), avatar_path: None, ..Default::default() };
    let expected = UserChangeEventBuilder {
        user_id: "user-1".to_string(),
        avatar_path: Some(String::new()),
        ..Default::default()
    };

    let result = UserChangeEventBuilder::compare_users(&old, &new);

    assert_eq!(result, expected);
}

#[test]
fn test_user_change_event_builder_to_proto() {
    let builder = UserChangeEventBuilder {
        user_id: "user-1".to_string(),
        display_name: Some("User 2".to_owned()),
        avatar_path: Some("avatar-2.png".to_string()),
        status: Some(UserStatus {
            state: UserRoomState::Banned.to_i32(),
            status_message: Some("Hello world".to_owned()),
        }),
    };
    let expected = UserChangeEvent {
        user_id: "user-1".to_owned(),
        display_name: Some("User 2".to_owned()),
        avatar_path: Some("avatar-2.png".to_string()),
        status: Some(UserStatus {
            state: UserRoomState::Banned.to_i32(),
            status_message: Some("Hello world".to_owned()),
        }),
    };

    let result = builder.to_proto();

    assert_eq!(result, expected);
}

#[test]
fn test_user_change_event_builder_to_proto_no_changes() {
    let builder = UserChangeEventBuilder::new("user-id".to_string());
    let expected = UserChangeEvent { user_id: "user-id".to_owned(), ..Default::default() };

    let result = builder.to_proto();

    assert_eq!(result, expected);
}

#[test]
fn test_message_change_event_builder_to_proto() {
    let builder = MessageChangeEventBuilder {
        room_id: "room-1".to_owned(),
        message_id: "message-1".to_owned(),
        is_pinned: Some(true),
        is_encrypted: Some(false),
        mentioned_user_ids: Some(vec!["user-1".to_owned(), "user-2".to_owned()]),
        content: Some(MessageChangeContent::Text(MessageContentText { content: "new content".to_owned() })),
    };
    let expected = MessageChangeEvent {
        room_id: "room-1".to_owned(),
        message_id: "message-1".to_owned(),
        is_pinned: Some(true),
        is_encrypted: Some(false),
        has_mentioned_user_ids_changed: true,
        mentioned_user_ids: vec!["user-1".to_owned(), "user-2".to_owned()],
        content: Some(MessageChangeContent::Text(MessageContentText { content: "new content".to_owned() })),
    };

    let result = builder.to_proto();

    assert_eq!(result, expected);
}

#[test]
fn test_message_change_event_builder_to_proto_no_changes() {
    let builder = MessageChangeEventBuilder::new("room-id".to_owned(), "message-id".to_owned());
    let expected = MessageChangeEvent {
        room_id: "room-id".to_owned(),
        message_id: "message-id".to_owned(),
        ..Default::default()
    };

    let result = builder.to_proto();

    assert_eq!(result, expected);
}

#[test]
fn builder_compare_rooms_with_itself_records_nothing() {
    let room = Room {
        room_id: "room-9".to_owned(),
        display_name: Some("Nine".to_owned()),
        unread_count: 3,
        ..Default::default()
    };
    let result = RoomChangeEventBuilder::compare_rooms(&room, &room);
    assert_eq!(result, RoomChangeEventBuilder::new("room-9".to_string()));
}

#[test]
fn builder_room_difference_applies_to_old_room() {
    let old = Room { room_id: "r".to_owned(), display_name: Some("A".to_owned()), unread_count: 1, ..Default::default() };
    let new = Room { room_id: "r".to_owned(), display_name: Some("B".to_owned()), unread_count: 4, is_favorite: true, ..Default::default() };
    let event = RoomChangeEventBuilder::compare_rooms(&old, &new).to_proto();
    let mut room = Room { room_id: "r".to_owned(), display_name: Some("A".to_owned()), unread_count: 1, ..Default::default() };
    event.update_into_room(&mut room);
    assert_eq!(room, new);
}

#[test]
fn builder_user_difference_applies_to_old_user() {
    let old = User { user_id: "u".to_owned(), display_name: Some("A".to_owned()), ..Default::default() };
    let new = User { user_id: "u".to_owned(), avatar_path: Some("p.png".to_owned()), ..Default::default() };
    let event = UserChangeEventBuilder::compare_users(&old, &new).to_proto();
    let mut user = User { user_id: "u".to_owned(), display_name: Some("A".to_owned()), ..Default::default() };
    event.update_into_user(&mut user);
    assert_eq!(user, new);
}
