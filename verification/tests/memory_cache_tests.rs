use gouda::chat::{
    Message, MessageContent, MessageContentText, Reaction, ResponseContent,
};
use gouda::memory_cache::{
    calc_chunk_size, redecryption_events, CachedEncryptedEvent, CachedReaction, CachedRoom,
    CachedRoomAction, MemoryCache, MessagesFetcher, MessagesOptions, ReplacementRelation,
};

fn reaction(user: &str, emoji: &str) -> CachedReaction {
    CachedReaction { user_id: user.to_owned(), emoji: emoji.to_owned() }
}

fn message(id: &str, body: &str, ts: u64) -> Message {
    Message {
        room_id: "!r".to_owned(),
        message_id: id.to_owned(),
        sender_id: "@s".to_owned(),
        timestamp: ts,
        content: Some(MessageContent::Text(MessageContentText { content: body.to_owned() })),
        ..Default::default()
    }
}

#[test]
fn memory_cache_remove_undoes_cache_reaction() {
    let mut room = CachedRoom::new("!r".to_owned());
    room.cache_reaction("$m".to_owned(), "$r1".to_owned(), reaction("@a", "👍"));
    let removed = room.remove_reaction_by_id("$r1").unwrap();
    assert_eq!(removed.reaction_id, "$r1");
    assert_eq!(removed.message_id, "$m");
    assert_eq!(removed.user_id, "@a");
    assert_eq!(removed.emoji, "👍");
    assert_eq!(removed.room_id, "!r");
    assert_eq!(room.reaction_id_to_message_id("$r1"), None);
    assert!(room.remove_reaction_by_id("$r1").is_none());
}

#[test]
fn memory_cache_remove_by_emoji_takes_first_match() {
    let mut room = CachedRoom::new("!r".to_owned());
    room.cache_reaction("$m".to_owned(), "$r1".to_owned(), reaction("@a", "👍"));
    room.cache_reaction("$m".to_owned(), "$r2".to_owned(), reaction("@b", "👍"));
    room.cache_reaction("$m".to_owned(), "$r3".to_owned(), reaction("@a", "👍"));
    let removed = room.remove_reaction_by_emoji("$m", "@a", "👍").unwrap();
    assert_eq!(removed.reaction_id, "$r1");
    assert_eq!(room.reaction_id_to_message_id("$r3"), None);
    assert_eq!(room.reaction_id_to_message_id("$r2"), Some("$m".to_owned()));
    assert!(room.remove_reaction_by_emoji("$m", "@a", "👍").is_none());
    assert!(room.remove_reaction_by_emoji("$other", "@a", "👍").is_none());
}

#[test]
fn memory_cache_message_built_with_reactions_and_replacement() {
    let mut room = CachedRoom::new("!r".to_owned());
    room.cache_reaction("$m".to_owned(), "$r1".to_owned(), reaction("@a", "🎉"));
    let relation = ReplacementRelation {
        event_id: "$m".to_owned(),
        new_content: Some(MessageContent::Text(MessageContentText { content: "edited".to_owned() })),
    };
    let action = room.process_room_message("$edit".to_owned(), 50, Some(relation), message("$edit", "* edited", 50));
    assert!(action.is_none());
    let built = room.cache_and_build_message(message("$m", "original", 10));
    assert_eq!(built.content, Some(MessageContent::Text(MessageContentText { content: "edited".to_owned() })));
    assert_eq!(
        built.reactions,
        vec![Reaction {
            message_id: "$m".to_owned(),
            room_id: "!r".to_owned(),
            reaction: "🎉".to_owned(),
            user_id: Some("@a".to_owned()),
        }]
    );
}

#[test]
fn memory_cache_encrypted_events_for_retry() {
    let mut room = CachedRoom::new("!r".to_owned());
    let event = |json: &str| CachedEncryptedEvent { event_json: json.to_owned(), session_id: None };
    room.cache_encrypted_event("$e1".to_owned(), event("{1}"));
    room.cache_encrypted_event("$e2".to_owned(), event("{2}"));
    assert!(room.has_events_to_decrypt());
    assert_eq!(room.get_events_for_redecryption(&None).len(), 2);
    let selected = room.get_events_for_redecryption(&Some(vec!["$e2".to_owned()]));
    assert_eq!(selected.len(), 1);
    assert_eq!(selected[0].event_json, "{2}");
    room.remove_encrypted_event("$e1");
    room.remove_encrypted_event("$e2");
    assert!(!room.has_events_to_decrypt());
}

#[test]
fn memory_cache_redecryption_events() {
    let room_id = "!r".to_owned();
    let events = redecryption_events(&room_id, "$e".to_owned(), None);
    assert_eq!(events.len(), 1);
    assert!(matches!(&events[0], ResponseContent::MessageRemoveEvent(e) if e.message_id == "$e"));
    let events = redecryption_events(&room_id, "$e".to_owned(), Some(CachedRoomAction::Message(message("$e", "hi", 1))));
    assert!(matches!(&events[0], ResponseContent::MessageChangeEvent(e) if e.is_encrypted == Some(false)));
}

#[test]
fn memory_cache_chunk_sizes() {
    assert_eq!(calc_chunk_size(0), 10);
    assert_eq!(calc_chunk_size(33), 10);
    assert_eq!(calc_chunk_size(40), 12);
    assert_eq!(calc_chunk_size(100), 30);
    assert_eq!(calc_chunk_size(333), 99);
    assert_eq!(calc_chunk_size(1000), 100);
    assert_eq!(calc_chunk_size(u32::MAX), 100);
}

#[test]
fn memory_cache_messages_fetcher() {
    let mut fetcher = MessagesFetcher::new(2, Some("t0".to_owned()));
    assert_eq!(fetcher.build_messages_options(), MessagesOptions { from: Some("t0".to_owned()), limit: 10 });
    assert!(fetcher.wants_more());
    assert_eq!(fetcher.accept(None), None);
    let m = fetcher.accept(Some(CachedRoomAction::Message(message("$1", "a", 1)))).unwrap();
    assert_eq!(m.message_id, "$1");
    fetcher.record_sent_message();
    assert!(fetcher.finish_chunk(Some("t1".to_owned())));
    assert_eq!(fetcher.build_messages_options().from, Some("t1".to_owned()));
    fetcher.record_sent_message();
    assert!(!fetcher.wants_more());
    assert_eq!(fetcher.accept(Some(CachedRoomAction::Message(message("$2", "b", 2)))), None);
    assert!(!fetcher.finish_chunk(None));
}

#[test]
fn memory_cache_rooms() {
    let mut cache = MemoryCache::new();
    assert!(!cache.has_room("!r"));
    assert!(cache.remove_reaction_by_id("!r", "$x").is_none());
    cache.cache_reaction("!r".to_owned(), "$m".to_owned(), "$r1".to_owned(), reaction("@a", "👍"));
    assert!(cache.has_room("!r"));
    assert!(cache.remove_reaction_by_emoji("!r", "$m", "@b", "👍").is_none());
    let removed = cache.remove_reaction_by_emoji("!r", "$m", "@a", "👍").unwrap();
    assert_eq!(removed.reaction_id, "$r1");
    cache.set_room_unread_count("!s".to_owned(), 4);
    assert!(cache.has_room("!s"));
    assert!(cache.get_cached_notification_settings().is_none());
}

#[test]
fn memory_cache_counts_unread_messages() {
    let mut cache = MemoryCache::new();
    let msg = message("$1", "hi", 1);
    assert!(cache.cache_proto_message(0, &msg, Some("@me")).is_none());
    cache.cache_proto_room(&gouda::chat::Room { room_id: "!r".to_owned(), unread_count: 2, ..Default::default() });
    let event = cache.cache_proto_message(0, &msg, Some("@me")).unwrap();
    assert_eq!(event.room_id, "!r");
    assert_eq!(event.unread_count, Some(3));
    assert!(cache.cache_proto_message(7, &msg, Some("@me")).is_none());
    assert!(cache.cache_proto_message(0, &msg, Some("@s")).is_none());
}
