use gouda::chat::{
    Message, MessageChangeContent, MessageChangeEvent, MessageContent, MessageContentText,
    NotificationSetting, PresenceState, Room, RoomChangeEvent, RoomJoinRule, RoomPermissions,
    RoomSettings, User, UserChangeEvent, UserRoomState, UserStatus,
};
use gouda::strmap::StrMap;

fn members(pairs: &[(&str, i32)]) -> StrMap<i32> {
    StrMap::from_pairs(pairs.iter().map(|(k, v)| (k.to_string(), *v)).collect())
}

#[test]
fn test_room_change_event_update_into_room() {
    let permissions = Some(RoomPermissions { can_edit: true, can_invite: false, can_kick: true, can_ban: false });

    let event = RoomChangeEvent {
        room_id: "room-1".to_owned(),
        has_user_id_list_changed: true,
        has_typing_user_id_list_changed: true,
        user_id_list: members(&[("user-1", PresenceState::Online.to_i32())]),
        typing_user_id_list: vec!["user-2".to_string()],
        display_name: Some("Room 1".to_string()),
        unread_count: Some(5),
        join_rule: Some(RoomJoinRule::Public.to_i32()),
        is_direct: Some(true),
        permissions,
        avatar_path: Some("avatar.png".to_string()),
        is_favorite: Some(true),
        room_settings: Some(RoomSettings {
            notification_setting: Some(NotificationSetting::AllMessages.to_i32()),
        }),
    };

    let expected = Room {
        room_id: "room-1".to_owned(),
        display_name: Some("Room 1".to_owned()),
        user_id_list: members(&[("user-1", PresenceState::Online.to_i32())]),
        space_id: Vec::new(),
        unread_count: 5,
        is_direct: true,
        join_rule: RoomJoinRule::Public.to_i32(),
        permissions,
        latest_message_timestamp: None,
        avatar_path: Some("avatar.png".to_string()),
        is_favorite: true,
        room_settings: Some(RoomSettings {
            notification_setting: Some(NotificationSetting::AllMessages.to_i32()),
        }),
    };

    let mut room = Room { room_id: "room-1".to_owned(), ..Default::default() };

    event.update_into_room(&mut room);

    assert_eq!(room, expected);
}

#[test]
fn test_room_change_event_update_into_room_empty_display_name() {
    let event = RoomChangeEvent { room_id: "room-1".to_owned(), display_name: Some(String::new()), ..Default::default() };
    let expected = Room { room_id: "room-1".to_owned(), display_name: None, ..Default::default() };
    let mut room = Room {
        room_id: "room-1".to_owned(),
        display_name: Some("Old Display Name".to_string()),
        ..Default::default()
    };

    event.update_into_room(&mut room);

    assert_eq!(room, expected);
}

#[test]
fn test_room_change_event_update_into_room_empty_avatar_path() {
    let event = RoomChangeEvent { room_id: "room-1".to_owned(), avatar_path: Some(String::new()), ..Default::default() };
    let expected = Room { room_id: "room-1".to_owned(), avatar_path: None, ..Default::default() };
    let mut room = Room {
        room_id: "room-1".to_owned(),
        avatar_path: Some("old-avatar.png".to_string()),
        ..Default::default()
    };

    event.update_into_room(&mut room);

    assert_eq!(room, expected);
}

#[test]
fn test_user_change_event_update_into_user() {
    let status = Some(UserStatus {
        state: UserRoomState::Invited.to_i32(),
        status_message: Some("hello world!".to_owned()),
    });

    let event = UserChangeEvent {
        user_id: "user-1".to_owned(),
        avatar_path: Some("avatar.png".to_owned()),
        display_name: Some("User 1".to_owned()),
        status: status.clone(),
    };

    let expected = User {
        user_id: "user-1".to_owned(),
        avatar_path: Some("avatar.png".to_owned()),
        display_name: Some("User 1".to_owned()),
        status,
    };

    let mut user = User { user_id: "user-1".to_owned(), ..Default::default() };

    event.update_into_user(&mut user);

    assert_eq!(user, expected);
}

#[test]
fn test_room_change_event_update_into_user_empty_display_name() {
    let event = UserChangeEvent { user_id: "user-1".to_owned(), display_name: Some(String::new()), ..Default::default() };
    let expected = User { user_id: "user-1".to_owned(), display_name: None, ..Default::default() };
    let mut user = User {
        user_id: "user-1".to_owned(),
        display_name: Some("Old Display Name".to_string()),
        ..Default::default()
    };

    event.update_into_user(&mut user);

    assert_eq!(user, expected);
}

#[test]
fn test_room_change_event_update_into_user_empty_avatar_path() {
    let event = UserChangeEvent { user_id: "user-1".to_owned(), avatar_path: Some(String::new()), ..Default::default() };
    let expected = User { user_id: "user-1".to_owned(), avatar_path: None, ..Default::default() };
    let mut user = User {
        user_id: "user-1".to_owned(),
        avatar_path: Some("old-avatar".to_string()),
        ..Default::default()
    };

    event.update_into_user(&mut user);

    assert_eq!(user, expected);
}

#[test]
fn test_message_change_event_update_into_message() {
    let event = MessageChangeEvent {
        room_id: "room-1".to_owned(),
        message_id: "message-1".to_owned(),
        is_pinned: Some(true),
        is_encrypted: Some(true),
        has_mentioned_user_ids_changed: true,
        mentioned_user_ids: vec!["user-1".to_owned(), "user-2".to_owned()],
        content: Some(MessageChangeContent::Text(MessageContentText { content: "Hello world".to_owned() })),
    };

    let expected = Message {
        room_id: "room-1".to_owned(),
        message_id: "message-1".to_owned(),
        sender_id: "user-5".to_owned(),
        timestamp: 0,
        related_message_id: None,
        is_pinned: true,
        is_encrypted: true,
        reactions: Vec::new(),
        mentioned_user_ids: vec!["user-1".to_owned(), "user-2".to_owned()],
        content: Some(MessageContent::Text(MessageContentText { content: "Hello world".to_owned() })),
    };

    let mut message = Message {
        room_id: "room-1".to_owned(),
        message_id: "message-1".to_owned(),
        sender_id: "user-5".to_owned(),
        ..Default::default()
    };

    event.update_into_message(&mut message);

    assert_eq!(message, expected);
}

#[test]
fn chat_update_into_message_keeps_unchanged_fields() {
    let event = MessageChangeEvent {
        room_id: "room-1".to_owned(),
        message_id: "message-1".to_owned(),
        ..Default::default()
    };
    let mut message = Message {
        room_id: "room-1".to_owned(),
        message_id: "message-1".to_owned(),
        sender_id: "user-5".to_owned(),
        is_pinned: true,
        mentioned_user_ids: vec!["user-9".to_owned()],
        ..Default::default()
    };
    event.update_into_message(&mut message);
    assert!(message.is_pinned);
    assert_eq!(message.mentioned_user_ids, vec!["user-9".to_owned()]);
}

#[test]
fn chat_enum_codes() {
    assert_eq!(RoomJoinRule::Invite.to_i32(), 0);
    assert_eq!(RoomJoinRule::Public.to_i32(), 2);
    assert_eq!(RoomJoinRule::from_i32(1), Some(RoomJoinRule::Knock));
    assert_eq!(RoomJoinRule::from_i32(7), None);
    assert_eq!(NotificationSetting::AllMessages.to_i32(), 2);
    assert_eq!(PresenceState::Away.to_i32(), 3);
}
