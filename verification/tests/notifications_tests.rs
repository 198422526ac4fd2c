use gouda::chat::NotificationSetting;
use gouda::notifications::{
    apply_notification_mode, compare_room_changes, compose_global_notification_settings,
    default_mode_room_kinds, global_settings_event, room_settings_event, RoomNotificationMode,
};
use gouda::strmap::StrMap;

#[test]
fn test_apply_notification_mode_mute() {
    let mut setting = NotificationSetting::Mute;
    apply_notification_mode(&mut setting, RoomNotificationMode::Mute);
    assert_eq!(setting, NotificationSetting::Mute);

    let mut setting = NotificationSetting::Mute;
    apply_notification_mode(&mut setting, RoomNotificationMode::MentionsAndKeywordsOnly);
    assert_eq!(setting, NotificationSetting::MentionsAndKeywordsOnly);

    let mut setting = NotificationSetting::Mute;
    apply_notification_mode(&mut setting, RoomNotificationMode::AllMessages);
    assert_eq!(setting, NotificationSetting::AllMessages);
}

#[test]
fn test_apply_notification_mode_mentions_an_keywords_only() {
    let mut setting = NotificationSetting::MentionsAndKeywordsOnly;
    apply_notification_mode(&mut setting, RoomNotificationMode::Mute);
    assert_eq!(setting, NotificationSetting::MentionsAndKeywordsOnly);

    let mut setting = NotificationSetting::MentionsAndKeywordsOnly;
    apply_notification_mode(&mut setting, RoomNotificationMode::MentionsAndKeywordsOnly);
    assert_eq!(setting, NotificationSetting::MentionsAndKeywordsOnly);

    let mut setting = NotificationSetting::MentionsAndKeywordsOnly;
    apply_notification_mode(&mut setting, RoomNotificationMode::AllMessages);
    assert_eq!(setting, NotificationSetting::AllMessages);
}

#[test]
fn test_apply_notification_mode_mentions_all_messages() {
    let mut setting = NotificationSetting::AllMessages;
    apply_notification_mode(&mut setting, RoomNotificationMode::Mute);
    assert_eq!(setting, NotificationSetting::AllMessages);

    let mut setting = NotificationSetting::AllMessages;
    apply_notification_mode(&mut setting, RoomNotificationMode::MentionsAndKeywordsOnly);
    assert_eq!(setting, NotificationSetting::AllMessages);

    let mut setting = NotificationSetting::AllMessages;
    apply_notification_mode(&mut setting, RoomNotificationMode::AllMessages);
    assert_eq!(setting, NotificationSetting::AllMessages);
}

#[test]
fn notifications_compose_takes_most_permissive() {
    let (all, mentions, mute) = (
        RoomNotificationMode::AllMessages,
        RoomNotificationMode::MentionsAndKeywordsOnly,
        RoomNotificationMode::Mute,
    );
    assert_eq!(compose_global_notification_settings(&vec![mute, mute, mute, mute]), NotificationSetting::Mute);
    assert_eq!(
        compose_global_notification_settings(&vec![mute, mentions, mute, mute]),
        NotificationSetting::MentionsAndKeywordsOnly
    );
    assert_eq!(
        compose_global_notification_settings(&vec![all, mentions, mute, mute]),
        NotificationSetting::AllMessages
    );
    assert_eq!(
        compose_global_notification_settings(&vec![mute, mentions, all, mute]),
        NotificationSetting::AllMessages
    );
    assert_eq!(compose_global_notification_settings(&Vec::new()), NotificationSetting::Mute);
}

#[test]
fn notifications_default_room_kinds() {
    assert_eq!(default_mode_room_kinds(), vec![(true, false), (false, false), (true, true), (false, true)]);
}

#[test]
fn notifications_room_changes() {
    let mut old = StrMap::new();
    old.insert("!a".to_string(), NotificationSetting::Mute);
    old.insert("!b".to_string(), NotificationSetting::AllMessages);
    old.insert("!c".to_string(), NotificationSetting::Mute);
    let mut new = StrMap::new();
    new.insert("!b".to_string(), NotificationSetting::Mute);
    new.insert("!c".to_string(), NotificationSetting::Mute);
    new.insert("!d".to_string(), NotificationSetting::MentionsAndKeywordsOnly);

    let changes = compare_room_changes(&old, &new);

    assert_eq!(
        changes,
        vec![
            ("!d".to_string(), Some(NotificationSetting::MentionsAndKeywordsOnly)),
            ("!a".to_string(), None),
            ("!b".to_string(), Some(NotificationSetting::Mute)),
        ]
    );
}

#[test]
fn notifications_events() {
    assert_eq!(global_settings_event(NotificationSetting::MentionsAndKeywordsOnly).notification_setting, 1);
    let event = room_settings_event("!a".to_string(), Some(NotificationSetting::AllMessages));
    assert_eq!(event.room_id, "!a");
    assert_eq!(event.room_settings.unwrap().notification_setting, Some(2));
    let event = room_settings_event("!a".to_string(), None);
    assert_eq!(event.room_settings.unwrap().notification_setting, None);
    assert_eq!(event.display_name, None);
}

#[test]
fn notifications_load_room_settings() {
    let map = gouda::notifications::load_room_settings(vec![
        ("!a".to_owned(), Some(RoomNotificationMode::Mute)),
        ("!b".to_owned(), None),
        ("!c".to_owned(), Some(RoomNotificationMode::AllMessages)),
    ]);
    assert_eq!(map.len(), 2);
    assert_eq!(map.get("!a"), Some(&NotificationSetting::Mute));
    assert_eq!(map.get("!b"), None);
    assert_eq!(map.get("!c"), Some(&NotificationSetting::AllMessages));
}

#[test]
fn notifications_change_events() {
    let mut old_rooms = StrMap::new();
    old_rooms.insert("!a".to_string(), NotificationSetting::Mute);
    let mut new_rooms = StrMap::new();
    new_rooms.insert("!a".to_string(), NotificationSetting::AllMessages);
    let old = gouda::memory_cache::CachedNotificationSettings {
        global_settings: NotificationSetting::Mute,
        room_settings: old_rooms,
    };
    let new = gouda::memory_cache::CachedNotificationSettings {
        global_settings: NotificationSetting::AllMessages,
        room_settings: new_rooms,
    };
    let (global, rooms) = gouda::notifications::notification_change_events(&old, &new);
    assert_eq!(global.map(|g| g.notification_setting), Some(2));
    assert_eq!(rooms.len(), 1);
    assert_eq!(rooms[0].room_id, "!a");
    assert_eq!(rooms[0].room_settings.unwrap().notification_setting, Some(2));
    let (global, rooms) = gouda::notifications::notification_change_events(&new, &new);
    assert!(global.is_none());
    assert!(rooms.is_empty());
}
