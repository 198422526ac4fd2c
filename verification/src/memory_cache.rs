//! The in-memory cache of a room's messages and the events related to them.
//!
//! Reactions and replacements may arrive before the message they relate to;
//! the cache keeps them until the original message is built, and keeps track of
//! which message every reaction belongs to, so that a reaction can be removed
//! by its ID alone.
use vstd::prelude::*;

use crate::builder::{room_builder_event, unchanged_room_builder, MessageChangeEventBuilder, RoomChangeEventBuilder, RoomChangeEventBuilderView};
use crate::chat::{
    change_of_content, same_message, EventOrigin, MembershipChange, Message, MessageChangeContent,
    MessageContent, MessageContentMembershipChange, MessageRemoveEvent, NotificationSetting,
    Reaction, ResponseContent, Room, RoomChangeEvent, RoomChangeEventView,
};
use crate::strmap::{keys_distinct, StrMap};
use crate::text::str_equal;

verus! {

/// A reaction of a user to a message.
#[derive(Debug, PartialEq, Eq)]
pub struct CachedReaction {
    /// The ID of the user who reacted.
    pub user_id: String,
    /// The emoji the user reacted with.
    pub emoji: String,
}

impl Clone for CachedReaction {
    fn clone(&self) -> (r: Self)
        ensures
            r == *self,
    {
        CachedReaction { user_id: self.user_id.clone(), emoji: self.emoji.clone() }
    }
}

/// A replacement of a message's content.
#[derive(Debug, PartialEq, Eq)]
pub struct CachedReplacement {
    /// When the replacement was created.
    pub timestamp: u64,
    /// The content replacing the original or any earlier replacement.
    pub new_content: MessageContent,
}

/// What is known of a reaction: the reaction, the message it belongs to and the
/// room of that message.
#[derive(Debug, PartialEq, Eq)]
pub struct ReactionMetadata {
    pub reaction_id: String,
    pub user_id: String,
    pub emoji: String,
    pub message_id: String,
    pub room_id: String,
}

impl ReactionMetadata {
    /// The metadata of the cached reaction.
    pub fn new(cached: CachedReaction, reaction_id: String, message_id: String, room_id: String) -> (r: Self)
        ensures
            r == (ReactionMetadata {
                reaction_id,
                user_id: cached.user_id,
                emoji: cached.emoji,
                message_id,
                room_id,
            }),
    {
        let CachedReaction { user_id, emoji } = cached;
        ReactionMetadata { reaction_id, user_id, emoji, message_id, room_id }
    }
}

/// The notification settings: the global setting and the rooms that have their
/// own. A room without its own setting follows the global one.
#[derive(Debug)]
pub struct CachedNotificationSettings {
    pub global_settings: NotificationSetting,
    /// The setting of each room that has its own, by room ID.
    pub room_settings: StrMap<NotificationSetting>,
}

impl Clone for CachedNotificationSettings {
    fn clone(&self) -> (r: Self)
        ensures
            r.global_settings == self.global_settings,
            r.room_settings@ == self.room_settings@,
    {
        CachedNotificationSettings {
            global_settings: self.global_settings,
            room_settings: self.room_settings.copy(),
        }
    }
}

impl Default for CachedNotificationSettings {
    fn default() -> (r: Self)
        ensures
            r.global_settings == NotificationSetting::Mute,
            r.room_settings@ == Map::<Seq<char>, NotificationSetting>::empty(),
    {
        CachedNotificationSettings {
            global_settings: NotificationSetting::Mute,
            room_settings: StrMap::new(),
        }
    }
}

/// The reaction that the application is sent for a cached reaction to the
/// message.
pub open spec fn reaction_for(msg: Message, r: CachedReaction) -> Reaction {
    Reaction {
        message_id: msg.message_id,
        room_id: msg.room_id,
        reaction: r.emoji,
        user_id: Some(r.user_id),
    }
}

/// The reactions for the cached reactions, in order.
pub open spec fn reactions_for(msg: Message, rs: Seq<(Seq<char>, CachedReaction)>) -> Seq<Reaction> {
    rs.map_values(|e: (Seq<char>, CachedReaction)| reaction_for(msg, e.1))
}

/// Position `i` holds the latest replacement: none is later, and none after
/// it is as late.
pub open spec fn latest_at(rs: Seq<(Seq<char>, CachedReplacement)>, i: int) -> bool {
    &&& 0 <= i < rs.len()
    &&& forall|j: int| 0 <= j < rs.len() ==> #[trigger] rs[j].1.timestamp <= rs[i].1.timestamp
    &&& forall|j: int| i < j < rs.len() ==> #[trigger] rs[j].1.timestamp < rs[i].1.timestamp
}

/// The content of the latest replacement, or the given content where there is
/// no replacement.
pub open spec fn content_after_replacements(
    rs: Seq<(Seq<char>, CachedReplacement)>,
    content: Option<MessageContent>,
) -> Option<MessageContent> {
    if rs.len() == 0 {
        content
    } else {
        Some(rs[choose|i: int| latest_at(rs, i)].1.new_content)
    }
}

/// What is cached of a message: the original, once it was seen, and the
/// reactions and replacements that relate to it.
pub struct CachedMessage {
    /// The original message; none until it was seen.
    pub original: Option<Message>,
    /// The reactions to the message, by reaction ID.
    pub reactions: StrMap<CachedReaction>,
    /// The replacements of the message, by the ID of the replacing event.
    pub replacements: StrMap<CachedReplacement>,
}

/// The view of a cached message.
pub struct CachedMessageView {
    pub original: Option<Message>,
    pub reactions: Map<Seq<char>, CachedReaction>,
    pub replacements: Map<Seq<char>, CachedReplacement>,
}

/// The view of a message for which nothing was cached yet.
pub open spec fn empty_message_view() -> CachedMessageView {
    CachedMessageView {
        original: None,
        reactions: Map::empty(),
        replacements: Map::empty(),
    }
}

impl View for CachedMessage {
    type V = CachedMessageView;

    open spec fn view(&self) -> CachedMessageView {
        CachedMessageView {
            original: self.original,
            reactions: self.reactions@,
            replacements: self.replacements@,
        }
    }
}

impl CachedMessage {
    /// A message for which nothing was cached yet.
    pub fn new() -> (m: Self)
        ensures
            m@ == empty_message_view(),
            m.reactions.spec_len() == 0,
            m.replacements.spec_len() == 0,
    {
        CachedMessage { original: None, reactions: StrMap::new(), replacements: StrMap::new() }
    }

    /// Stores the original and returns it with the cached reactions appended,
    /// in the order they were cached, and with the content of the latest
    /// replacement.
    pub fn build_from_original(&mut self, original: Message) -> (r: Message)
        ensures
            final(self).original is Some,
            same_message(final(self).original.unwrap(), original),
            final(self).reactions == old(self).reactions,
            final(self).replacements == old(self).replacements,
            r.room_id == original.room_id,
            r.message_id == original.message_id,
            r.sender_id == original.sender_id,
            r.timestamp == original.timestamp,
            r.related_message_id == original.related_message_id,
            r.is_pinned == original.is_pinned,
            r.is_encrypted == original.is_encrypted,
            r.mentioned_user_ids == original.mentioned_user_ids,
            r.reactions@ == original.reactions@ + reactions_for(
                original,
                old(self).reactions.entries_view(),
            ),
            r.content == content_after_replacements(
                old(self).replacements.entries_view(),
                original.content,
            ),
    {
        let mut original = original;
        let ghost first = original;
        self.original = Some(original.copy());
        self.apply_reactions(&mut original);
        self.apply_replacements(&mut original);
        original
    }

    /// Appends the cached reactions to the message, in the order they were
    /// cached.
    pub fn apply_reactions(&self, msg: &mut Message)
        ensures
            final(msg).reactions@ == old(msg).reactions@ + reactions_for(
                *old(msg),
                self.reactions.entries_view(),
            ),
            final(msg).room_id == old(msg).room_id,
            final(msg).message_id == old(msg).message_id,
            final(msg).sender_id == old(msg).sender_id,
            final(msg).timestamp == old(msg).timestamp,
            final(msg).related_message_id == old(msg).related_message_id,
            final(msg).is_pinned == old(msg).is_pinned,
            final(msg).is_encrypted == old(msg).is_encrypted,
            final(msg).mentioned_user_ids == old(msg).mentioned_user_ids,
            final(msg).content == old(msg).content,
    {
        let ghost m0 = *msg;
        let ghost rs = self.reactions.entries_view();
        let n = self.reactions.len();
        let mut i: usize = 0;
        while i < n
            invariant
                i <= n,
                n == rs.len(),
                rs == self.reactions.entries_view(),
                msg.reactions@ == m0.reactions@ + reactions_for(m0, rs.take(i as int)),
                msg.room_id == m0.room_id,
                msg.message_id == m0.message_id,
                msg.sender_id == m0.sender_id,
                msg.timestamp == m0.timestamp,
                msg.related_message_id == m0.related_message_id,
                msg.is_pinned == m0.is_pinned,
                msg.is_encrypted == m0.is_encrypted,
                msg.mentioned_user_ids == m0.mentioned_user_ids,
                msg.content == m0.content,
            decreases n - i,
        {
            let (_, cached) = self.reactions.entry_at(i);
            let reaction = Reaction {
                message_id: msg.message_id.clone(),
                room_id: msg.room_id.clone(),
                reaction: cached.emoji.clone(),
                user_id: Some(cached.user_id.clone()),
            };
            msg.reactions.push(reaction);
            proof {
                assert(rs.take((i + 1) as int) =~= rs.take(i as int).push(rs[i as int]));
                assert(reactions_for(m0, rs.take((i + 1) as int)) =~= reactions_for(
                    m0,
                    rs.take(i as int),
                ).push(reaction_for(m0, rs[i as int].1)));
                assert(msg.reactions@ =~= m0.reactions@ + reactions_for(m0, rs.take((i + 1) as int)));
            }
            i = i + 1;
        }
        proof {
            assert(rs.take(n as int) =~= rs);
        }
    }

    /// Gives the message the content of the latest replacement, where there is
    /// one.
    pub fn apply_replacements(&mut self, msg: &mut Message)
        ensures
            *final(self) == *old(self),
            final(msg).content == content_after_replacements(
                old(self).replacements.entries_view(),
                old(msg).content,
            ),
            final(msg).reactions == old(msg).reactions,
            final(msg).room_id == old(msg).room_id,
            final(msg).message_id == old(msg).message_id,
            final(msg).sender_id == old(msg).sender_id,
            final(msg).timestamp == old(msg).timestamp,
            final(msg).related_message_id == old(msg).related_message_id,
            final(msg).is_pinned == old(msg).is_pinned,
            final(msg).is_encrypted == old(msg).is_encrypted,
            final(msg).mentioned_user_ids == old(msg).mentioned_user_ids,
    {
        let ghost rs = self.replacements.entries_view();
        let n = self.replacements.len();
        if n == 0 {
            return;
        }
        let mut best: usize = 0;
        let mut i: usize = 1;
        while i < n
            invariant
                1 <= i <= n,
                best < i,
                n == rs.len(),
                rs == self.replacements.entries_view(),
                forall|j: int| 0 <= j < i ==> #[trigger] rs[j].1.timestamp <= rs[best as int].1.timestamp,
                forall|j: int| best < j < i ==> #[trigger] rs[j].1.timestamp < rs[best as int].1.timestamp,
            decreases n - i,
        {
            let (_, candidate) = self.replacements.entry_at(i);
            let (_, current) = self.replacements.entry_at(best);
            if candidate.timestamp >= current.timestamp {
                best = i;
            }
            i = i + 1;
        }
        proof {
            assert(latest_at(rs, best as int));
            let c = choose|c: int| latest_at(rs, c);
            if c < best {
                assert(rs[best as int].1.timestamp < rs[c].1.timestamp);
            }
            if best < c {
                assert(rs[c].1.timestamp < rs[best as int].1.timestamp);
            }
        }
        let (_, latest) = self.replacements.entry_at(best);
        msg.content = Some(latest.new_content.copy());
    }
}


// ---------------------------------------------------------------------------
// Rooms
// ---------------------------------------------------------------------------

/// An event that could not be decrypted, kept to retry its decryption.
#[derive(Debug, PartialEq, Eq)]
pub struct CachedEncryptedEvent {
    /// The event as it was received, as JSON.
    pub event_json: String,
    /// The ID of the session that encrypted the event, where it is known.
    pub session_id: Option<String>,
}

impl Clone for CachedEncryptedEvent {
    fn clone(&self) -> (r: Self)
        ensures
            r == *self,
    {
        CachedEncryptedEvent {
            event_json: self.event_json.clone(),
            session_id: crate::chat::clone_opt_str(&self.session_id),
        }
    }
}

/// The view of a cached room.
pub struct CachedRoomView {
    pub room_id: Seq<char>,
    /// The cached messages by message ID.
    pub messages: Map<Seq<char>, CachedMessage>,
    /// The events that could not be decrypted, by event ID.
    pub encrypted_events: Map<Seq<char>, CachedEncryptedEvent>,
    pub unread_count: u32,
    /// The message that each cached reaction belongs to, by reaction ID.
    pub reaction_owner: Map<Seq<char>, Seq<char>>,
}

/// The reactions cached for the message; none where nothing is cached.
pub open spec fn reactions_of(msgs: Map<Seq<char>, CachedMessage>, id: Seq<char>) -> Map<
    Seq<char>,
    CachedReaction,
> {
    if msgs.contains_key(id) {
        msgs[id].reactions@
    } else {
        Map::empty()
    }
}

/// The reactions cached for the message in the order they were cached.
pub open spec fn reaction_entries_of(msgs: Map<Seq<char>, CachedMessage>, id: Seq<char>) -> Seq<
    (Seq<char>, CachedReaction),
> {
    if msgs.contains_key(id) {
        msgs[id].reactions.entries_view()
    } else {
        Seq::empty()
    }
}

/// The replacements cached for the message; none where nothing is cached.
pub open spec fn replacements_of(msgs: Map<Seq<char>, CachedMessage>, id: Seq<char>) -> Map<
    Seq<char>,
    CachedReplacement,
> {
    if msgs.contains_key(id) {
        msgs[id].replacements@
    } else {
        Map::empty()
    }
}

/// The replacements cached for the message in the order they were cached.
pub open spec fn replacement_entries_of(
    msgs: Map<Seq<char>, CachedMessage>,
    id: Seq<char>,
) -> Seq<(Seq<char>, CachedReplacement)> {
    if msgs.contains_key(id) {
        msgs[id].replacements.entries_view()
    } else {
        Seq::empty()
    }
}

/// The original cached for the message, if it was seen.
pub open spec fn original_of(msgs: Map<Seq<char>, CachedMessage>, id: Seq<char>) -> Option<Message> {
    if msgs.contains_key(id) {
        msgs[id].original
    } else {
        None
    }
}

/// The two message maps agree everywhere but at the ID, which the second holds.
pub open spec fn same_but_at(
    a: Map<Seq<char>, CachedMessage>,
    b: Map<Seq<char>, CachedMessage>,
    id: Seq<char>,
) -> bool {
    &&& b.dom() == a.dom().insert(id)
    &&& forall|k: Seq<char>| #[trigger] b.contains_key(k) && k != id ==> b[k] == a[k]
}

/// Every reaction is cached with the message it belongs to, and belongs to the
/// message it is cached with.
pub open spec fn reactions_consistent(v: CachedRoomView) -> bool {
    &&& forall|rid: Seq<char>| #[trigger]
        v.reaction_owner.contains_key(rid) ==> reactions_of(
            v.messages,
            v.reaction_owner[rid],
        ).contains_key(rid)
    &&& forall|mid: Seq<char>, rid: Seq<char>| #[trigger]
        reactions_of(v.messages, mid).contains_key(rid) ==> v.reaction_owner.contains_key(rid)
            && v.reaction_owner[rid] == mid
}

/// The reactions of the map that were made by the user with the emoji.
pub open spec fn matching_reactions(
    rs: Map<Seq<char>, CachedReaction>,
    user_id: Seq<char>,
    emoji: Seq<char>,
) -> Set<Seq<char>> {
    Set::new(
        |k: Seq<char>| rs.contains_key(k) && rs[k].user_id@ == user_id && rs[k].emoji@ == emoji,
    )
}

/// The room `n` is the room `o` with the reaction cached for the message:
/// that message alone changed, in its reactions alone, and the reaction is
/// recorded as belonging to it.
pub open spec fn reaction_cached(
    o: CachedRoomView,
    n: CachedRoomView,
    message_id: Seq<char>,
    reaction_id: Seq<char>,
    reaction: CachedReaction,
) -> bool {
    &&& same_but_at(o.messages, n.messages, message_id)
    &&& reactions_of(n.messages, message_id) == reactions_of(o.messages, message_id).insert(
        reaction_id,
        reaction,
    )
    &&& replacements_of(n.messages, message_id) == replacements_of(o.messages, message_id)
    &&& original_of(n.messages, message_id) == original_of(o.messages, message_id)
    &&& n.reaction_owner == o.reaction_owner.insert(reaction_id, message_id)
    &&& n.encrypted_events == o.encrypted_events
    &&& n.unread_count == o.unread_count
    &&& n.room_id == o.room_id
}

/// The room `n` and the answer `r` are those of removing the reaction by
/// its ID from the room `o`: where the reaction is cached with the message
/// recorded for it, it leaves that message and the record, and `r` tells
/// what was known of it; else nothing changes and `r` is none.
pub open spec fn reaction_removed_by_id(
    o: CachedRoomView,
    n: CachedRoomView,
    reaction_id: Seq<char>,
    r: Option<ReactionMetadata>,
) -> bool {
    let found = o.reaction_owner.contains_key(reaction_id) && reactions_of(
        o.messages,
        o.reaction_owner[reaction_id],
    ).contains_key(reaction_id);
    if found {
        let mid = o.reaction_owner[reaction_id];
        let removed = reactions_of(o.messages, mid)[reaction_id];
        &&& r matches Some(meta) && meta.reaction_id@ == reaction_id && meta.message_id@ == mid
            && meta.user_id == removed.user_id && meta.emoji == removed.emoji && meta.room_id@
            == o.room_id
        &&& same_but_at(o.messages, n.messages, mid)
        &&& reactions_of(n.messages, mid) == reactions_of(o.messages, mid).remove(reaction_id)
        &&& replacements_of(n.messages, mid) == replacements_of(o.messages, mid)
        &&& original_of(n.messages, mid) == original_of(o.messages, mid)
        &&& n.reaction_owner == o.reaction_owner.remove(reaction_id)
        &&& n.encrypted_events == o.encrypted_events
        &&& n.unread_count == o.unread_count
        &&& n.room_id == o.room_id
    } else {
        r is None && n == o
    }
}

/// Removing a reaction by its ID right after caching it under a new ID
/// answers with that reaction and gives back the reactions and records of
/// before, where the message held no reaction with that ID.
pub proof fn lemma_remove_undoes_cache_reaction(
    o: CachedRoomView,
    c: CachedRoomView,
    f: CachedRoomView,
    message_id: Seq<char>,
    reaction_id: Seq<char>,
    reaction: CachedReaction,
    r: Option<ReactionMetadata>,
)
    requires
        !o.reaction_owner.contains_key(reaction_id),
        !reactions_of(o.messages, message_id).contains_key(reaction_id),
        reaction_cached(o, c, message_id, reaction_id, reaction),
        reaction_removed_by_id(c, f, reaction_id, r),
    ensures
        r matches Some(meta) && meta.reaction_id@ == reaction_id && meta.message_id@ == message_id
            && meta.user_id == reaction.user_id && meta.emoji == reaction.emoji && meta.room_id@
            == o.room_id,
        reactions_of(f.messages, message_id) == reactions_of(o.messages, message_id),
        replacements_of(f.messages, message_id) == replacements_of(o.messages, message_id),
        original_of(f.messages, message_id) == original_of(o.messages, message_id),
        f.reaction_owner == o.reaction_owner,
        f.encrypted_events == o.encrypted_events,
        f.unread_count == o.unread_count,
        forall|k: Seq<char>| #[trigger] o.messages.contains_key(k) && k != message_id ==> f.messages.contains_key(k) && f.messages[k] == o.messages[k],
{
    assert(c.reaction_owner.contains_key(reaction_id));
    assert(c.reaction_owner[reaction_id] == message_id);
    assert(reactions_of(c.messages, message_id).contains_key(reaction_id));
    assert(reactions_of(f.messages, message_id) =~= reactions_of(o.messages, message_id));
    assert(f.reaction_owner =~= o.reaction_owner);
}

/// The room `n` and the answer `r` are those of removing the reactions of
/// the user with the emoji from the message in the room `o`: where the
/// message is cached, every such reaction leaves it and the records, and
/// `r` tells of the first of them in the order they were cached, or is
/// none where there is none; else nothing changes and `r` is none.
pub open spec fn reactions_removed_by_emoji(
    o: CachedRoomView,
    n: CachedRoomView,
    message_id: Seq<char>,
    user_id: Seq<char>,
    emoji: Seq<char>,
    r: Option<ReactionMetadata>,
) -> bool {
    let rs = reactions_of(o.messages, message_id);
    let matching = matching_reactions(rs, user_id, emoji);
    if !o.messages.contains_key(message_id) {
        r is None && n == o
    } else {
        &&& same_but_at(o.messages, n.messages, message_id)
        &&& reactions_of(n.messages, message_id) == rs.remove_keys(matching)
        &&& replacements_of(n.messages, message_id) == replacements_of(o.messages, message_id)
        &&& original_of(n.messages, message_id) == original_of(o.messages, message_id)
        &&& n.reaction_owner == o.reaction_owner.remove_keys(matching)
        &&& n.encrypted_events == o.encrypted_events
        &&& n.unread_count == o.unread_count
        &&& n.room_id == o.room_id
        &&& match r {
            Some(meta) => {
                let es = reaction_entries_of(o.messages, message_id);
                &&& matching.contains(meta.reaction_id@)
                &&& meta.message_id@ == message_id
                &&& meta.room_id@ == o.room_id
                &&& meta.user_id@ == user_id
                &&& meta.emoji@ == emoji
                &&& exists|i: int|
                    0 <= i < es.len() && #[trigger] es[i].0 == meta.reaction_id@ && forall|j: int|
                        0 <= j < i ==> !matching.contains(#[trigger] es[j].0)
            },
            None => matching == Set::<Seq<char>>::empty(),
        }
    }
}

/// The cache of one room.
pub struct CachedRoom {
    room_id: String,
    messages: StrMap<CachedMessage>,
    encrypted_events: StrMap<CachedEncryptedEvent>,
    unread_count: u32,
    reaction_id_to_message: StrMap<String>,
}

impl View for CachedRoom {
    type V = CachedRoomView;

    closed spec fn view(&self) -> CachedRoomView {
        CachedRoomView {
            room_id: self.room_id@,
            messages: self.messages@,
            encrypted_events: self.encrypted_events@,
            unread_count: self.unread_count,
            reaction_owner: self.reaction_id_to_message@.map_values(|s: String| s@),
        }
    }
}

impl CachedRoom {
    /// The cache of a room for which nothing was cached yet.
    pub fn new(room_id: String) -> (r: Self)
        ensures
            r@.room_id == room_id@,
            r@.messages == Map::<Seq<char>, CachedMessage>::empty(),
            r@.encrypted_events == Map::<Seq<char>, CachedEncryptedEvent>::empty(),
            r@.unread_count == 0,
            r@.reaction_owner == Map::<Seq<char>, Seq<char>>::empty(),
            reactions_consistent(r@),
    {
        let r = CachedRoom {
            room_id,
            messages: StrMap::new(),
            encrypted_events: StrMap::new(),
            unread_count: 0,
            reaction_id_to_message: StrMap::new(),
        };
        proof {
            assert(r@.reaction_owner =~= Map::<Seq<char>, Seq<char>>::empty());
        }
        r
    }

    /// The ID of the room.
    pub fn room_id(&self) -> (r: &String)
        ensures
            r@ == self@.room_id,
    {
        &self.room_id
    }

    /// The unread count of the room.
    pub fn unread_count(&self) -> (r: u32)
        ensures
            r == self@.unread_count,
    {
        self.unread_count
    }

    /// Sets the unread count of the room.
    pub fn set_unread_count(&mut self, unread_count: u32)
        ensures
            final(self)@ == (CachedRoomView { unread_count, ..old(self)@ }),
    {
        self.unread_count = unread_count;
    }

    /// Whether the room holds events whose decryption can be retried.
    pub fn has_events_to_decrypt(&self) -> (r: bool)
        ensures
            r == (self@.encrypted_events != Map::<Seq<char>, CachedEncryptedEvent>::empty()),
    {
        !self.encrypted_events.is_empty()
    }

    /// Takes the cached message out of the map, or a fresh one where none is
    /// cached.
    fn take_message(&mut self, message_id: &str) -> (m: CachedMessage)
        ensures
            final(self)@ == (CachedRoomView {
                messages: old(self)@.messages.remove(message_id@),
                ..old(self)@
            }),
            old(self)@.messages.contains_key(message_id@) ==> m == old(self)@.messages[message_id@],
            !old(self)@.messages.contains_key(message_id@) ==> m@ == empty_message_view()
                && m.reactions.spec_len() == 0 && m.replacements.spec_len() == 0,
    {
        match self.messages.remove(message_id) {
            Some(m) => m,
            None => CachedMessage::new(),
        }
    }

    /// Caches a replacement of the message's content.
    pub fn cache_replacement(
        &mut self,
        original_message_id: String,
        replacement_id: String,
        replacement: CachedReplacement,
    )
        ensures
            same_but_at(old(self)@.messages, final(self)@.messages, original_message_id@),
            replacements_of(final(self)@.messages, original_message_id@) == replacements_of(
                old(self)@.messages,
                original_message_id@,
            ).insert(replacement_id@, replacement),
            reactions_of(final(self)@.messages, original_message_id@) == reactions_of(
                old(self)@.messages,
                original_message_id@,
            ),
            reaction_entries_of(final(self)@.messages, original_message_id@) == reaction_entries_of(
                old(self)@.messages,
                original_message_id@,
            ),
            original_of(final(self)@.messages, original_message_id@) == original_of(
                old(self)@.messages,
                original_message_id@,
            ),
            final(self)@.encrypted_events == old(self)@.encrypted_events,
            final(self)@.unread_count == old(self)@.unread_count,
            final(self)@.reaction_owner == old(self)@.reaction_owner,
            final(self)@.room_id == old(self)@.room_id,
            reactions_consistent(old(self)@) ==> reactions_consistent(final(self)@),
    {
        let ghost old_msgs = self@.messages;
        let mut message = self.take_message(original_message_id.as_str());
        message.replacements.insert(replacement_id, replacement);
        self.messages.insert(original_message_id, message);
        proof {
            let v = self@;
            assert(v.messages.dom() =~= old_msgs.dom().insert(original_message_id@));
            assert forall|mid: Seq<char>, rid: Seq<char>| #[trigger]
                reactions_of(v.messages, mid).contains_key(rid) implies reactions_of(
                old_msgs,
                mid,
            ).contains_key(rid) by {
                if mid != original_message_id@ {
                    assert(v.messages.contains_key(mid) ==> old_msgs.contains_key(mid));
                }
            }
        }
    }

    /// Caches a reaction to the message and records which message it belongs
    /// to.
    pub fn cache_reaction(&mut self, message_id: String, reaction_id: String, reaction: CachedReaction)
        ensures
            reaction_cached(old(self)@, final(self)@, message_id@, reaction_id@, reaction),
            reactions_consistent(old(self)@) && (!old(self)@.reaction_owner.contains_key(
                reaction_id@,
            ) || old(self)@.reaction_owner[reaction_id@] == message_id@) ==> reactions_consistent(
                final(self)@,
            ),
    {
        let ghost old_v = self@;
        let mut message = self.take_message(message_id.as_str());
        message.reactions.insert(reaction_id.clone(), reaction);
        let mid = message_id.clone();
        self.messages.insert(message_id, message);
        self.reaction_id_to_message.insert(reaction_id, mid);
        proof {
            let v = self@;
            assert(v.messages.dom() =~= old_v.messages.dom().insert(mid@));
            assert(v.reaction_owner =~= old_v.reaction_owner.insert(reaction_id@, mid@));
            if reactions_consistent(old_v) && (!old_v.reaction_owner.contains_key(reaction_id@)
                || old_v.reaction_owner[reaction_id@] == mid@) {
                assert forall|rid: Seq<char>| #[trigger]
                    v.reaction_owner.contains_key(rid) implies reactions_of(
                    v.messages,
                    v.reaction_owner[rid],
                ).contains_key(rid) by {
                    if rid != reaction_id@ {
                        let owner = old_v.reaction_owner[rid];
                        assert(reactions_of(old_v.messages, owner).contains_key(rid));
                    }
                }
                assert forall|m: Seq<char>, rid: Seq<char>| #[trigger]
                    reactions_of(v.messages, m).contains_key(rid) implies v.reaction_owner.contains_key(
                    rid,
                ) && v.reaction_owner[rid] == m by {
                    if m != mid@ {
                        assert(reactions_of(old_v.messages, m).contains_key(rid));
                    } else if rid != reaction_id@ {
                        assert(reactions_of(old_v.messages, m).contains_key(rid));
                    }
                }
            }
        }
    }

    /// The message that the reaction belongs to, if it is known.
    pub fn reaction_id_to_message_id(&self, reaction_id: &str) -> (r: Option<String>)
        ensures
            match r {
                Some(m) => self@.reaction_owner.contains_key(reaction_id@)
                    && self@.reaction_owner[reaction_id@] == m@,
                None => !self@.reaction_owner.contains_key(reaction_id@),
            },
    {
        match self.reaction_id_to_message.get(reaction_id) {
            Some(m) => Some(m.clone()),
            None => None,
        }
    }

    /// Forgets which message the reaction belongs to.
    pub fn cleanup_reaction(&mut self, reaction_id: &str)
        ensures
            final(self)@ == (CachedRoomView {
                reaction_owner: old(self)@.reaction_owner.remove(reaction_id@),
                ..old(self)@
            }),
    {
        let ghost old_v = self@;
        self.reaction_id_to_message.remove(reaction_id);
        proof {
            assert(self@.reaction_owner =~= old_v.reaction_owner.remove(reaction_id@));
        }
    }

    /// Removes the reaction by its ID from the message it belongs to. Returns
    /// what is known of it; nothing where the reaction is not cached with the
    /// message recorded for it.
    pub fn remove_reaction_by_id(&mut self, reaction_id: &str) -> (r: Option<ReactionMetadata>)
        ensures
            reaction_removed_by_id(old(self)@, final(self)@, reaction_id@, r),
            reactions_consistent(old(self)@) ==> reactions_consistent(final(self)@),
    {
        let ghost o = self@;
        let message_id = match self.reaction_id_to_message_id(reaction_id) {
            Some(m) => m,
            None => {
                return None;
            },
        };
        if !self.messages.contains_key(message_id.as_str()) {
            return None;
        }
        let mut message = self.take_message(message_id.as_str());
        let removed = match message.reactions.remove(reaction_id) {
            Some(removed) => removed,
            None => {
                proof {
                    assert(message.reactions@ == o.messages[message_id@].reactions@.remove(
                        reaction_id@,
                    ));
                }
                self.messages.insert(message_id, message);
                proof {
                    assert(self@.messages =~= o.messages);
                }
                return None;
            },
        };
        let mid = message_id.clone();
        self.messages.insert(message_id, message);
        self.cleanup_reaction(reaction_id);
        let metadata = ReactionMetadata::new(
            removed,
            reaction_id.to_string(),
            mid,
            self.room_id.clone(),
        );
        proof {
            let v = self@;
            assert(v.messages.dom() =~= o.messages.dom().insert(mid@));
            if reactions_consistent(o) {
                assert forall|rid: Seq<char>| #[trigger]
                    v.reaction_owner.contains_key(rid) implies reactions_of(
                    v.messages,
                    v.reaction_owner[rid],
                ).contains_key(rid) by {
                    let owner = o.reaction_owner[rid];
                    assert(reactions_of(o.messages, owner).contains_key(rid));
                }
                assert forall|m: Seq<char>, rid: Seq<char>| #[trigger]
                    reactions_of(v.messages, m).contains_key(rid) implies v.reaction_owner.contains_key(
                    rid,
                ) && v.reaction_owner[rid] == m by {
                    assert(reactions_of(o.messages, m).contains_key(rid));
                }
            }
        }
        Some(metadata)
    }

    /// Caches the original message and returns it built with the reactions and
    /// replacements cached for it.
    pub fn cache_and_build_message(&mut self, original: Message) -> (r: Message)
        ensures
            same_but_at(old(self)@.messages, final(self)@.messages, original.message_id@),
            original_of(final(self)@.messages, original.message_id@) matches Some(o)
                && same_message(o, original),
            reactions_of(final(self)@.messages, original.message_id@) == reactions_of(
                old(self)@.messages,
                original.message_id@,
            ),
            replacements_of(final(self)@.messages, original.message_id@) == replacements_of(
                old(self)@.messages,
                original.message_id@,
            ),
            final(self)@.reaction_owner == old(self)@.reaction_owner,
            final(self)@.encrypted_events == old(self)@.encrypted_events,
            final(self)@.unread_count == old(self)@.unread_count,
            final(self)@.room_id == old(self)@.room_id,
            r.room_id == original.room_id,
            r.message_id == original.message_id,
            r.sender_id == original.sender_id,
            r.timestamp == original.timestamp,
            r.related_message_id == original.related_message_id,
            r.is_pinned == original.is_pinned,
            r.is_encrypted == original.is_encrypted,
            r.mentioned_user_ids == original.mentioned_user_ids,
            r.reactions@ == original.reactions@ + reactions_for(
                original,
                reaction_entries_of(old(self)@.messages, original.message_id@),
            ),
            r.content == content_after_replacements(
                replacement_entries_of(old(self)@.messages, original.message_id@),
                original.content,
            ),
            reactions_consistent(old(self)@) ==> reactions_consistent(final(self)@),
    {
        let ghost o = self@;
        let message_id = original.message_id.clone();
        let mut cached = self.take_message(message_id.as_str());
        proof {
            if !o.messages.contains_key(message_id@) {
                assert(cached.reactions.entries_view() =~= Seq::<(Seq<char>, CachedReaction)>::empty());
                assert(cached.replacements.entries_view() =~= Seq::<(Seq<char>, CachedReplacement)>::empty());
            }
        }
        let built = cached.build_from_original(original);
        self.messages.insert(message_id, cached);
        proof {
            let v = self@;
            assert(v.messages.dom() =~= o.messages.dom().insert(message_id@));
            if reactions_consistent(o) {
                assert forall|rid: Seq<char>| #[trigger]
                    v.reaction_owner.contains_key(rid) implies reactions_of(
                    v.messages,
                    v.reaction_owner[rid],
                ).contains_key(rid) by {
                    let owner = o.reaction_owner[rid];
                    assert(reactions_of(o.messages, owner).contains_key(rid));
                }
                assert forall|m: Seq<char>, rid: Seq<char>| #[trigger]
                    reactions_of(v.messages, m).contains_key(rid) implies v.reaction_owner.contains_key(
                    rid,
                ) && v.reaction_owner[rid] == m by {
                    assert(reactions_of(o.messages, m).contains_key(rid));
                }
            }
        }
        built
    }

    /// Keeps an event that could not be decrypted, to retry its decryption.
    pub fn cache_encrypted_event(&mut self, event_id: String, event: CachedEncryptedEvent)
        ensures
            final(self)@ == (CachedRoomView {
                encrypted_events: old(self)@.encrypted_events.insert(event_id@, event),
                ..old(self)@
            }),
    {
        self.encrypted_events.insert(event_id, event);
    }

    /// Forgets an event that could not be decrypted, where it is kept.
    pub fn remove_encrypted_event(&mut self, event_id: &str)
        ensures
            final(self)@ == (CachedRoomView {
                encrypted_events: old(self)@.encrypted_events.remove(event_id@),
                ..old(self)@
            }),
    {
        self.encrypted_events.remove(event_id);
    }
}


/// The keys of the first `n` strings, by their characters.
pub open spec fn key_set(keys: Seq<String>, n: int) -> Set<Seq<char>> {
    Set::new(|k: Seq<char>| exists|j: int| 0 <= j < n && #[trigger] keys[j]@ == k)
}

impl CachedRoom {
    /// Removes every reaction to the message made by the user with the emoji.
    /// Returns what is known of the first of them in the order they were
    /// cached; nothing where there is none or the message is not cached.
    pub fn remove_reaction_by_emoji(&mut self, message_id: &str, user_id: &str, emoji: &str) -> (r:
        Option<ReactionMetadata>)
        ensures
            reactions_removed_by_emoji(old(self)@, final(self)@, message_id@, user_id@, emoji@, r),
            reactions_consistent(old(self)@) ==> reactions_consistent(final(self)@),
    {
        let ghost o = self@;
        if !self.messages.contains_key(message_id) {
            return None;
        }
        let mut message = self.take_message(message_id);
        let ghost rs = message.reactions@;
        let ghost es = message.reactions.entries_view();
        let ghost matching = matching_reactions(rs, user_id@, emoji@);
        let n = message.reactions.len();
        let mut matched: Vec<String> = Vec::new();
        let mut i: usize = 0;
        while i < n
            invariant
                i <= n,
                n == es.len(),
                es == message.reactions.entries_view(),
                rs == message.reactions@,
                keys_distinct(es),
                matching == matching_reactions(rs, user_id@, emoji@),
                forall|j: int| 0 <= j < matched@.len() ==> #[trigger] matching.contains(matched@[j]@),
                forall|j: int, l: int|
                    0 <= j < l < matched@.len() ==> #[trigger] matched@[j]@ != #[trigger] matched@[l]@,
                forall|j: int|
                    0 <= j < i && #[trigger] matching.contains(es[j].0) ==> key_set(
                        matched@,
                        matched@.len() as int,
                    ).contains(es[j].0),
                forall|j: int|
                    0 <= j < matched@.len() ==> exists|l: int|
                        0 <= l < i && #[trigger] es[l].0 == #[trigger] matched@[j]@,
                matched@.len() > 0 ==> forall|j: int|
                    0 <= j < i && es[j].0 == matched@[0]@ ==> forall|l: int|
                        0 <= l < j ==> !matching.contains(#[trigger] es[l].0),
                matched@.len() == 0 ==> forall|j: int|
                    0 <= j < i ==> !matching.contains(#[trigger] es[j].0),
            decreases n - i,
        {
            let (key, cached) = message.reactions.entry_at(i);
            proof {
                crate::strmap::lemma_entry_in_map(es, i as int);
            }
            if str_equal(cached.user_id.as_str(), user_id) && str_equal(cached.emoji.as_str(), emoji) {
                let ghost before = matched@;
                matched.push(key.clone());
                proof {
                    assert(matching.contains(es[i as int].0));
                    assert forall|j: int, l: int|
                        0 <= j < l < matched@.len() implies #[trigger] matched@[j]@ != #[trigger] matched@[l]@ by {
                        if l == before.len() {
                            let w = choose|w: int| 0 <= w < i && #[trigger] es[w].0 == before[j]@;
                            assert(es[w].0 != es[i as int].0);
                        }
                    }
                    assert forall|j: int|
                        0 <= j < i + 1 && #[trigger] matching.contains(es[j].0) implies key_set(
                        matched@,
                        matched@.len() as int,
                    ).contains(es[j].0) by {
                        if j < i {
                            assert(key_set(before, before.len() as int).contains(es[j].0));
                            let w = choose|w: int| 0 <= w < before.len() && #[trigger] before[w]@ == es[j].0;
                            assert(matched@[w] == before[w]);
                        } else {
                            assert(matched@[before.len() as int]@ == es[j].0);
                        }
                    }
                    assert forall|j: int| 0 <= j < matched@.len() implies exists|l: int|
                        0 <= l < i + 1 && #[trigger] es[l].0 == #[trigger] matched@[j]@ by {
                        if j < before.len() {
                            assert(matched@[j] == before[j]);
                        } else {
                            assert(es[i as int].0 == matched@[j]@);
                        }
                    }
                }
            } else {
                proof {
                    assert(!matching.contains(es[i as int].0));
                }
            }
            i = i + 1;
        }
        proof {
            assert forall|k: Seq<char>| matching.contains(k) implies key_set(matched@, matched@.len() as int).contains(k) by {
                let w = choose|w: int| 0 <= w < es.len() && es[w].0 == k;
                assert(matching.contains(es[w].0));
            }
            assert forall|k: Seq<char>| key_set(matched@, matched@.len() as int).contains(k) implies matching.contains(k) by {
                let w = choose|w: int| 0 <= w < matched@.len() && #[trigger] matched@[w]@ == k;
                assert(matching.contains(matched@[w]@));
            }
            assert(key_set(matched@, matched@.len() as int) =~= matching);
        }
        let ghost owner0 = self@.reaction_owner;
        let ghost repl0 = message.replacements;
        let ghost orig0 = message.original;
        let ghost msgs0 = self@.messages;
        let mut first: Option<(String, CachedReaction)> = None;
        let mut j: usize = 0;
        proof {
            assert(key_set(matched@, 0) =~= Set::<Seq<char>>::empty());
            assert(owner0.remove_keys(key_set(matched@, 0)) =~= owner0);
            assert(rs.remove_keys(key_set(matched@, 0)) =~= rs);
        }
        while j < matched.len()
            invariant
                j <= matched@.len(),
                forall|a: int, b: int|
                    0 <= a < b < matched@.len() ==> #[trigger] matched@[a]@ != #[trigger] matched@[b]@,
                forall|a: int| 0 <= a < matched@.len() ==> #[trigger] matching.contains(matched@[a]@),
                matching == matching_reactions(rs, user_id@, emoji@),
                message.reactions@ == rs.remove_keys(key_set(matched@, j as int)),
                message.replacements == repl0,
                message.original == orig0,
                self@ == (CachedRoomView {
                    reaction_owner: owner0.remove_keys(key_set(matched@, j as int)),
                    messages: msgs0,
                    ..self@
                }),
                self@.messages == msgs0,
                self@.encrypted_events == o.encrypted_events,
                self@.unread_count == o.unread_count,
                self@.room_id == o.room_id,
                j == 0 <==> first is None,
                first matches Some((k, c)) ==> matched@.len() > 0 && k@ == matched@[0]@ && rs.contains_key(matched@[0]@) && c == rs[matched@[0]@],
            decreases matched.len() - j,
        {
            let key = &matched[j];
            let ghost before_rs = message.reactions@;
            let ghost before_owner = self@.reaction_owner;
            proof {
                assert(!key_set(matched@, j as int).contains(key@)) by {
                    if key_set(matched@, j as int).contains(key@) {
                        let w = choose|w: int| 0 <= w < j && #[trigger] matched@[w]@ == key@;
                        assert(matched@[w]@ != matched@[j as int]@);
                    }
                }
                assert(matching.contains(key@));
            }
            let removed = message.reactions.remove(key.as_str());
            self.cleanup_reaction(key.as_str());
            proof {
                assert(key_set(matched@, (j + 1) as int) =~= key_set(matched@, j as int).insert(key@));
                assert(message.reactions@ =~= rs.remove_keys(key_set(matched@, (j + 1) as int)));
                assert(self@.reaction_owner =~= owner0.remove_keys(key_set(matched@, (j + 1) as int)));
            }
            if j == 0 {
                match removed {
                    Some(c) => {
                        first = Some((key.clone(), c));
                    },
                    None => {
                        proof {
                            assert(false);
                        }
                    },
                }
            }
            j = j + 1;
        }
        let mid = message_id.to_string();
        self.messages.insert(mid, message);
        proof {
            let v = self@;
            assert(v.messages.dom() =~= o.messages.dom().insert(message_id@));
            assert(rs == reactions_of(o.messages, message_id@));
            assert(es == reaction_entries_of(o.messages, message_id@));
            assert(reactions_of(v.messages, message_id@) == rs.remove_keys(matching));
            assert(v.reaction_owner == o.reaction_owner.remove_keys(matching));
            assert(same_but_at(o.messages, v.messages, message_id@));
            if reactions_consistent(o) {
                assert forall|rid: Seq<char>| #[trigger]
                    v.reaction_owner.contains_key(rid) implies reactions_of(
                    v.messages,
                    v.reaction_owner[rid],
                ).contains_key(rid) by {
                    let owner = o.reaction_owner[rid];
                    assert(reactions_of(o.messages, owner).contains_key(rid));
                }
                assert forall|m: Seq<char>, rid: Seq<char>| #[trigger]
                    reactions_of(v.messages, m).contains_key(rid) implies v.reaction_owner.contains_key(
                    rid,
                ) && v.reaction_owner[rid] == m by {
                    assert(reactions_of(o.messages, m).contains_key(rid));
                }
            }
        }
        match first {
            Some((k, c)) => {
                proof {
                    assert(matching.contains(matched@[0]@));
                    let w = choose|w: int| 0 <= w < i && #[trigger] es[w].0 == matched@[0]@;
                    assert(es[w].0 == k@);
                }
                Some(ReactionMetadata::new(c, k, message_id.to_string(), self.room_id.clone()))
            },
            None => {
                proof {
                    assert(matching =~= Set::<Seq<char>>::empty());
                }
                None
            },
        }
    }
}


/// What processing an event of a room gave.
#[derive(Debug)]
pub enum CachedRoomAction {
    /// A message built from the event.
    Message(Message),
    /// A reaction cached from the event.
    Reaction(ReactionMetadata),
}

/// A replacement that a message event carries: the ID of the message it
/// replaces and the new content, where it has one.
#[derive(Debug)]
pub struct ReplacementRelation {
    pub event_id: String,
    pub new_content: Option<MessageContent>,
}

/// The message counts as unread: it is an event of its own, not sent by the
/// own user.
pub open spec fn counts_as_unread(tag: u64, sender_id: Seq<char>, own_user_id: Option<Seq<char>>) -> bool {
    tag == 0 && own_user_id != Some(sender_id)
}

/// The encrypted events selected for a retry: all where no IDs are given,
/// else those whose ID is given.
pub open spec fn selected_for_retry(
    entries: Seq<(Seq<char>, CachedEncryptedEvent)>,
    ids: Option<Seq<Seq<char>>>,
) -> Seq<CachedEncryptedEvent> {
    entries.filter(
        |e: (Seq<char>, CachedEncryptedEvent)|
            match ids {
                Some(l) => l.contains(e.0),
                None => true,
            },
    ).map_values(|e: (Seq<char>, CachedEncryptedEvent)| e.1)
}

/// The placeholder shown for an event that could not be decrypted.
pub open spec fn encrypted_placeholder(m: Message, event_id: String, room_id: Seq<char>, sender_id: String, timestamp: u64) -> bool {
    &&& m.message_id == event_id
    &&& m.room_id@ == room_id
    &&& m.sender_id == sender_id
    &&& m.timestamp == timestamp
    &&& m.is_encrypted
    &&& m.related_message_id is None
    &&& !m.is_pinned
    &&& m.reactions@.len() == 0
    &&& m.mentioned_user_ids@.len() == 0
    &&& m.content is None
}

impl CachedRoom {
    /// The encrypted events in the order they were kept.
    pub closed spec fn encrypted_entries(&self) -> Seq<(Seq<char>, CachedEncryptedEvent)> {
        self.encrypted_events.entries_view()
    }

    /// The encrypted events whose decryption is to be retried: all where no IDs
    /// are given, else those whose ID is given, in the order they were kept.
    pub fn get_events_for_redecryption(&self, events: &Option<Vec<String>>) -> (r: Vec<CachedEncryptedEvent>)
        ensures
            r@ == selected_for_retry(
                self.encrypted_entries(),
                match events {
                    Some(l) => Some(l.deep_view()),
                    None => None,
                },
            ),
    {
        let ghost es = self.encrypted_events.entries_view();
        let ghost ids = match events {
            Some(l) => Some(l.deep_view()),
            None => None,
        };
        let ghost pred = |e: (Seq<char>, CachedEncryptedEvent)|
            match ids {
                Some(l) => l.contains(e.0),
                None => true,
            };
        let n = self.encrypted_events.len();
        let mut r: Vec<CachedEncryptedEvent> = Vec::new();
        let mut i: usize = 0;
        proof {
            reveal_with_fuel(Seq::<_>::filter, 1);
            assert(es.take(0) =~= Seq::<(Seq<char>, CachedEncryptedEvent)>::empty());
            assert(r@ =~= es.take(0).filter(pred).map_values(|e: (Seq<char>, CachedEncryptedEvent)| e.1));
        }
        while i < n
            invariant
                i <= n,
                n == es.len(),
                es == self.encrypted_events.entries_view(),
                pred == (|e: (Seq<char>, CachedEncryptedEvent)|
                    match ids {
                        Some(l) => l.contains(e.0),
                        None => true,
                    }),
                ids == match events {
                    Some(l) => Some(l.deep_view()),
                    None => None,
                },
                r@ == es.take(i as int).filter(pred).map_values(|e: (Seq<char>, CachedEncryptedEvent)| e.1),
            decreases n - i,
        {
            let (key, event) = self.encrypted_events.entry_at(i);
            let selected = match events {
                None => true,
                Some(list) => {
                    let mut found = false;
                    let mut j: usize = 0;
                    while j < list.len()
                        invariant
                            j <= list@.len(),
                            found == exists|l: int| 0 <= l < j && #[trigger] list@[l]@ == key@,
                        decreases list.len() - j,
                    {
                        if str_equal(list[j].as_str(), key.as_str()) {
                            found = true;
                        }
                        j = j + 1;
                    }
                    proof {
                        let dv = list.deep_view();
                        if found {
                            let l = choose|l: int| 0 <= l < j && #[trigger] list@[l]@ == key@;
                            assert(dv[l] == key@);
                        } else {
                            assert forall|l: int| 0 <= l < dv.len() implies dv[l] != key@ by {
                                assert(dv[l] == list@[l]@);
                            }
                        }
                    }
                    found
                },
            };
            proof {
                assert(selected == pred(es[i as int]));
                reveal_with_fuel(Seq::<_>::filter, 1);
                assert(es.take((i + 1) as int).drop_last() =~= es.take(i as int));
                assert(es.take((i + 1) as int).last() == es[i as int]);
            }
            if selected {
                r.push(event.clone());
                proof {
                    let f = es.take(i as int).filter(pred);
                    assert(es.take((i + 1) as int).filter(pred) == f.push(es[i as int]));
                    assert(r@ =~= f.push(es[i as int]).map_values(|e: (Seq<char>, CachedEncryptedEvent)| e.1));
                }
            }
            i = i + 1;
        }
        proof {
            assert(es.take(n as int) =~= es);
        }
        r
    }

    /// Counts a message received as an event of its own, not sent by the own
    /// user, as unread. Returns the change that tells the application the new
    /// unread count, where it changed.
    pub fn cache_message_event(&mut self, tag: u64, message: &Message, own_user_id: Option<&str>) -> (r:
        Option<RoomChangeEvent>)
        requires
            counts_as_unread(
                tag,
                message.sender_id@,
                match own_user_id {
                    Some(u) => Some(u@),
                    None => None,
                },
            ) ==> old(self)@.unread_count < u32::MAX,
        ensures
            ({
                let own = match own_user_id {
                    Some(u) => Some(u@),
                    None => None,
                };
                if counts_as_unread(tag, message.sender_id@, own) {
                    &&& final(self)@ == (CachedRoomView {
                        unread_count: (old(self)@.unread_count + 1) as u32,
                        ..old(self)@
                    })
                    &&& r matches Some(e) && e@ == room_builder_event(
                        RoomChangeEventBuilderView {
                            unread_count: Some((old(self)@.unread_count + 1) as u32),
                            ..unchanged_room_builder(message.room_id@)
                        },
                    )
                } else {
                    r is None && final(self)@ == old(self)@
                }
            }),
    {
        let counts = tag == 0 && match own_user_id {
            Some(own) => !str_equal(message.sender_id.as_str(), own),
            None => true,
        };
        if counts {
            self.unread_count = self.unread_count + 1;
            let event = RoomChangeEventBuilder::new(message.room_id.clone()).change_unread_count(
                self.unread_count,
            ).to_proto();
            Some(event)
        } else {
            None
        }
    }

    /// Caches a reaction event: the reaction of the sender with the emoji to
    /// the message. Returns what is known of the reaction.
    pub fn process_reaction_event(&mut self, reaction_id: String, sender_id: String, emoji: String, message_id: String) -> (r: CachedRoomAction)
        ensures
            same_but_at(old(self)@.messages, final(self)@.messages, message_id@),
            reactions_of(final(self)@.messages, message_id@) == reactions_of(
                old(self)@.messages,
                message_id@,
            ).insert(reaction_id@, CachedReaction { user_id: sender_id, emoji }),
            final(self)@.reaction_owner == old(self)@.reaction_owner.insert(reaction_id@, message_id@),
            final(self)@.encrypted_events == old(self)@.encrypted_events,
            final(self)@.unread_count == old(self)@.unread_count,
            r matches CachedRoomAction::Reaction(meta) && meta == (ReactionMetadata {
                reaction_id,
                user_id: sender_id,
                emoji,
                message_id,
                room_id: meta.room_id,
            }) && meta.room_id@ == old(self)@.room_id,
            reactions_consistent(old(self)@) && (!old(self)@.reaction_owner.contains_key(
                reaction_id@,
            ) || old(self)@.reaction_owner[reaction_id@] == message_id@) ==> reactions_consistent(
                final(self)@,
            ),
    {
        let reaction = CachedReaction { user_id: sender_id, emoji };
        self.cache_reaction(message_id.clone(), reaction_id.clone(), reaction.clone());
        let metadata = ReactionMetadata::new(reaction, reaction_id, message_id, self.room_id.clone());
        CachedRoomAction::Reaction(metadata)
    }

    /// Builds the message of a membership change and caches it. Returns
    /// nothing where the change is none that the application shows.
    pub fn process_room_member_event(
        &mut self,
        change: Option<MembershipChange>,
        affected_user_id: String,
        event_id: String,
        sender_id: String,
        timestamp: u64,
    ) -> (r: Option<CachedRoomAction>)
        ensures
            change is None ==> r is None && final(self)@ == old(self)@,
            change matches Some(c) ==> {
                &&& same_but_at(old(self)@.messages, final(self)@.messages, event_id@)
                &&& r matches Some(CachedRoomAction::Message(m))
                &&& m.message_id == event_id
                &&& m.room_id@ == old(self)@.room_id
                &&& m.sender_id == sender_id
                &&& m.timestamp == timestamp
                &&& m.content == content_after_replacements(
                    replacement_entries_of(old(self)@.messages, event_id@),
                    Some(MessageContent::MembershipChange(
                        MessageContentMembershipChange { change: c.spec_code(), affected_user_id },
                    )),
                )
                &&& m.reactions@ == reactions_for(m, reaction_entries_of(old(self)@.messages, event_id@))
            },
            final(self)@.reaction_owner == old(self)@.reaction_owner,
            final(self)@.encrypted_events == old(self)@.encrypted_events,
            reactions_consistent(old(self)@) ==> reactions_consistent(final(self)@),
    {
        let change = match change {
            Some(c) => c,
            None => {
                return None;
            },
        };
        let content = MessageContentMembershipChange { change: change.to_i32(), affected_user_id };
        let message = Message {
            room_id: self.room_id.clone(),
            message_id: event_id,
            sender_id,
            timestamp,
            related_message_id: None,
            is_pinned: false,
            is_encrypted: false,
            reactions: Vec::new(),
            mentioned_user_ids: Vec::new(),
            content: Some(MessageContent::MembershipChange(content)),
        };
        let ghost m0 = message;
        let built = self.cache_and_build_message(message);
        proof {
            assert(m0.reactions@ + reactions_for(m0, reaction_entries_of(old(self)@.messages, m0.message_id@))
                =~= reactions_for(built, reaction_entries_of(old(self)@.messages, m0.message_id@)));
        }
        Some(CachedRoomAction::Message(built))
    }

    /// Keeps an event that could not be decrypted and returns the encrypted
    /// placeholder message that the application shows for it.
    pub fn process_unable_to_decrypt_event(
        &mut self,
        event_id: String,
        sender_id: String,
        timestamp: u64,
        event: CachedEncryptedEvent,
    ) -> (r: CachedRoomAction)
        ensures
            final(self)@ == (CachedRoomView {
                encrypted_events: old(self)@.encrypted_events.insert(event_id@, event),
                ..old(self)@
            }),
            r matches CachedRoomAction::Message(m) && encrypted_placeholder(
                m,
                event_id,
                old(self)@.room_id,
                sender_id,
                timestamp,
            ),
    {
        let message = Message {
            message_id: event_id.clone(),
            room_id: self.room_id.clone(),
            timestamp,
            sender_id,
            related_message_id: None,
            is_pinned: false,
            is_encrypted: true,
            reactions: Vec::new(),
            mentioned_user_ids: Vec::new(),
            content: None,
        };
        self.cache_encrypted_event(event_id, event);
        CachedRoomAction::Message(message)
    }

    /// Processes a room message: a replacement is kept until its original is
    /// built and gives nothing; a replacement without content is ignored; any
    /// other message is cached and returned built.
    pub fn process_room_message(
        &mut self,
        replacement_event_id: String,
        timestamp: u64,
        replaces: Option<ReplacementRelation>,
        message: Message,
    ) -> (r: Option<CachedRoomAction>)
        ensures
            match replaces {
                Some(rel) => r is None && match rel.new_content {
                    Some(c) => {
                        &&& same_but_at(old(self)@.messages, final(self)@.messages, rel.event_id@)
                        &&& replacements_of(final(self)@.messages, rel.event_id@) == replacements_of(
                            old(self)@.messages,
                            rel.event_id@,
                        ).insert(replacement_event_id@, CachedReplacement { timestamp, new_content: c })
                        &&& reactions_of(final(self)@.messages, rel.event_id@) == reactions_of(
                            old(self)@.messages,
                            rel.event_id@,
                        )
                        &&& original_of(final(self)@.messages, rel.event_id@) == original_of(
                            old(self)@.messages,
                            rel.event_id@,
                        )
                        &&& final(self)@.reaction_owner == old(self)@.reaction_owner
                        &&& final(self)@.encrypted_events == old(self)@.encrypted_events
                        &&& final(self)@.unread_count == old(self)@.unread_count
                        &&& final(self)@.room_id == old(self)@.room_id
                    },
                    None => final(self)@ == old(self)@,
                },
                None => {
                    &&& same_but_at(old(self)@.messages, final(self)@.messages, message.message_id@)
                    &&& r matches Some(CachedRoomAction::Message(m))
                    &&& m.room_id == message.room_id
                    &&& m.message_id == message.message_id
                    &&& m.sender_id == message.sender_id
                    &&& m.timestamp == message.timestamp
                    &&& m.related_message_id == message.related_message_id
                    &&& m.is_pinned == message.is_pinned
                    &&& m.is_encrypted == message.is_encrypted
                    &&& m.mentioned_user_ids == message.mentioned_user_ids
                    &&& m.reactions@ == message.reactions@ + reactions_for(
                        message,
                        reaction_entries_of(old(self)@.messages, message.message_id@),
                    )
                    &&& m.content == content_after_replacements(
                        replacement_entries_of(old(self)@.messages, message.message_id@),
                        message.content,
                    )
                    &&& original_of(final(self)@.messages, message.message_id@) matches Some(o)
                    &&& same_message(o, message)
                    &&& reactions_of(final(self)@.messages, message.message_id@) == reactions_of(
                        old(self)@.messages,
                        message.message_id@,
                    )
                    &&& replacements_of(final(self)@.messages, message.message_id@) == replacements_of(
                        old(self)@.messages,
                        message.message_id@,
                    )
                    &&& final(self)@.reaction_owner == old(self)@.reaction_owner
                    &&& final(self)@.encrypted_events == old(self)@.encrypted_events
                    &&& final(self)@.unread_count == old(self)@.unread_count
                    &&& final(self)@.room_id == old(self)@.room_id
                },
            },
            reactions_consistent(old(self)@) ==> reactions_consistent(final(self)@),
    {
        match replaces {
            Some(relation) => {
                let new_content = match relation.new_content {
                    Some(c) => c,
                    None => {
                        return None;
                    },
                };
                let replacement = CachedReplacement { timestamp, new_content };
                self.cache_replacement(relation.event_id, replacement_event_id, replacement);
                None
            },
            None => {
                let built = self.cache_and_build_message(message);
                Some(CachedRoomAction::Message(built))
            },
        }
    }
}

/// The message removal that withdraws a message the application was sent.
pub open spec fn removal_of(message_id: String, room_id: Seq<char>, e: MessageRemoveEvent) -> bool {
    e.message_id == message_id && e.room_id@ == room_id && e.origin == EventOrigin::BackendOrigin.spec_code()
}

/// The events that tell the application the outcome of a retried decryption
/// in the room: a decrypted message changes the encrypted placeholder, or
/// removes it where it has no content; a decrypted reaction removes the
/// placeholder and creates the reaction; an event that gave nothing removes
/// the placeholder.
pub fn redecryption_events(room_id: &String, event_id: String, action: Option<CachedRoomAction>) -> (r: Vec<ResponseContent>)
    ensures
        match action {
            None => {
                &&& r@.len() == 1
                &&& r@[0] matches ResponseContent::MessageRemoveEvent(e) && removal_of(event_id, room_id@, e)
            },
            Some(CachedRoomAction::Message(m)) => match m.content {
                None => {
                    &&& r@.len() == 1
                    &&& r@[0] matches ResponseContent::MessageRemoveEvent(e) && removal_of(m.message_id, room_id@, e)
                },
                Some(c) => {
                    &&& r@.len() == 1
                    &&& r@[0] matches ResponseContent::MessageChangeEvent(e) && e.room_id == m.room_id
                        && e.message_id == m.message_id && e.content == Some(change_of_content(c))
                        && e.is_encrypted == Some(false) && e.is_pinned is None
                        && !e.has_mentioned_user_ids_changed
                },
            },
            Some(CachedRoomAction::Reaction(meta)) => {
                &&& r@.len() == 2
                &&& r@[0] matches ResponseContent::MessageRemoveEvent(e) && removal_of(meta.reaction_id, room_id@, e)
                &&& r@[1] == ResponseContent::ReactionCreatedEvent(Reaction {
                    room_id: meta.room_id,
                    message_id: meta.message_id,
                    reaction: meta.emoji,
                    user_id: Some(meta.user_id),
                })
            },
        },
{
    let mut r: Vec<ResponseContent> = Vec::new();
    match action {
        None => {
            r.push(ResponseContent::MessageRemoveEvent(MessageRemoveEvent {
                message_id: event_id,
                room_id: room_id.clone(),
                origin: EventOrigin::BackendOrigin.to_i32(),
            }));
        },
        Some(CachedRoomAction::Message(message)) => match message.content {
            None => {
                r.push(ResponseContent::MessageRemoveEvent(MessageRemoveEvent {
                    message_id: message.message_id,
                    room_id: room_id.clone(),
                    origin: EventOrigin::BackendOrigin.to_i32(),
                }));
            },
            Some(content) => {
                let event = MessageChangeEventBuilder::new(message.room_id, message.message_id)
                    .change_content(MessageChangeContent::from_message_content(content))
                    .change_is_encrypted(false)
                    .to_proto();
                r.push(ResponseContent::MessageChangeEvent(event));
            },
        },
        Some(CachedRoomAction::Reaction(meta)) => {
            let ReactionMetadata { reaction_id, user_id, emoji, message_id, room_id: reaction_room } = meta;
            r.push(ResponseContent::MessageRemoveEvent(MessageRemoveEvent {
                message_id: reaction_id,
                room_id: room_id.clone(),
                origin: EventOrigin::BackendOrigin.to_i32(),
            }));
            r.push(ResponseContent::ReactionCreatedEvent(Reaction {
                room_id: reaction_room,
                message_id,
                reaction: emoji,
                user_id: Some(user_id),
            }));
        },
    }
    r
}

// ---------------------------------------------------------------------------
// Fetching messages
// ---------------------------------------------------------------------------

/// The fewest events fetched with one request.
pub const ROOM_EVENTS_CHUNK_SIZE_MIN: u32 = 10;

/// The most events fetched with one request.
pub const ROOM_EVENTS_CHUNK_SIZE_MAX: u32 = 100;

/// The number of events fetched with each request for the number of
/// messages: three tenths of it (about one and a half events per message,
/// a fifth of them at a time), between the least and the most.
pub open spec fn chunk_size_for(limit: u32) -> u32 {
    let estimate = (3 * limit as int) / 10;
    if estimate < ROOM_EVENTS_CHUNK_SIZE_MIN {
        ROOM_EVENTS_CHUNK_SIZE_MIN
    } else if estimate > ROOM_EVENTS_CHUNK_SIZE_MAX {
        ROOM_EVENTS_CHUNK_SIZE_MAX
    } else {
        estimate as u32
    }
}

/// The number of events fetched with each request for the number of
/// messages.
pub fn calc_chunk_size(limit: u32) -> (r: u32)
    ensures
        r == chunk_size_for(limit),
        ROOM_EVENTS_CHUNK_SIZE_MIN <= r <= ROOM_EVENTS_CHUNK_SIZE_MAX,
{
    let estimate: u64 = (3 * (limit as u64)) / 10;
    if estimate < ROOM_EVENTS_CHUNK_SIZE_MIN as u64 {
        ROOM_EVENTS_CHUNK_SIZE_MIN
    } else if estimate > ROOM_EVENTS_CHUNK_SIZE_MAX as u64 {
        ROOM_EVENTS_CHUNK_SIZE_MAX
    } else {
        estimate as u32
    }
}

/// What one request for older events asks for.
#[derive(Debug, PartialEq, Eq)]
pub struct MessagesOptions {
    /// Where to continue, backwards in time; from the latest event where
    /// there is none.
    pub from: Option<String>,
    /// How many events to fetch.
    pub limit: u32,
}

/// Fetches a number of messages of a room, in chunks of events, newest
/// first.
pub struct MessagesFetcher {
    /// How many messages are asked for.
    pub message_limit: u32,
    /// Where the next chunk starts.
    pub from_token: Option<String>,
    /// How many events each request fetches.
    pub chunk_size: u32,
    /// How many messages were sent so far.
    pub retrieved_messages: u32,
}

impl MessagesFetcher {
    /// A fetcher of `limit` messages, from the token where one is given.
    pub fn new(limit: u32, from_token: Option<String>) -> (r: Self)
        ensures
            r.message_limit == limit,
            r.from_token == from_token,
            r.chunk_size == chunk_size_for(limit),
            r.retrieved_messages == 0,
    {
        MessagesFetcher {
            message_limit: limit,
            from_token,
            chunk_size: calc_chunk_size(limit),
            retrieved_messages: 0,
        }
    }

    /// Whether more messages are wanted.
    pub fn wants_more(&self) -> (r: bool)
        ensures
            r == (self.retrieved_messages < self.message_limit),
    {
        self.retrieved_messages < self.message_limit
    }

    /// What the next request for events asks for.
    pub fn build_messages_options(&self) -> (r: MessagesOptions)
        ensures
            r.from == self.from_token,
            r.limit == self.chunk_size,
    {
        MessagesOptions { from: crate::chat::clone_opt_str(&self.from_token), limit: self.chunk_size }
    }

    /// The message to send for what processing an event gave: a built
    /// message, where more are wanted. Reactions are sent with the message
    /// they belong to.
    pub fn accept(&self, action: Option<CachedRoomAction>) -> (r: Option<Message>)
        ensures
            match action {
                Some(CachedRoomAction::Message(m)) => if self.retrieved_messages < self.message_limit {
                    r == Some(m)
                } else {
                    r is None
                },
                _ => r is None,
            },
    {
        if self.retrieved_messages >= self.message_limit {
            return None;
        }
        match action {
            Some(CachedRoomAction::Message(m)) => Some(m),
            _ => None,
        }
    }

    /// Counts a message that was sent.
    pub fn record_sent_message(&mut self)
        requires
            old(self).retrieved_messages < old(self).message_limit,
        ensures
            final(self).retrieved_messages == old(self).retrieved_messages + 1,
            final(self).message_limit == old(self).message_limit,
            final(self).from_token == old(self).from_token,
            final(self).chunk_size == old(self).chunk_size,
    {
        self.retrieved_messages = self.retrieved_messages + 1;
    }

    /// Takes the end token of a fetched chunk: where there is one, the next
    /// chunk starts there and fetching goes on while messages are wanted;
    /// where there is none, no older events are left.
    pub fn finish_chunk(&mut self, end: Option<String>) -> (go_on: bool)
        ensures
            final(self).retrieved_messages == old(self).retrieved_messages,
            final(self).message_limit == old(self).message_limit,
            final(self).chunk_size == old(self).chunk_size,
            match end {
                Some(t) => final(self).from_token == Some(t)
                    && go_on == (old(self).retrieved_messages < old(self).message_limit),
                None => final(self).from_token == old(self).from_token && !go_on,
            },
    {
        match end {
            Some(t) => {
                self.from_token = Some(t);
                self.retrieved_messages < self.message_limit
            },
            None => false,
        }
    }
}

/// The room change event that tells the application the room's new unread
/// count.
pub fn unread_count_event(room_id: String, unread_count: u32) -> (r: RoomChangeEvent)
    ensures
        r@ == room_builder_event(
            RoomChangeEventBuilderView { unread_count: Some(unread_count), ..unchanged_room_builder(room_id@) },
        ),
{
    RoomChangeEventBuilder::new(room_id).change_unread_count(unread_count).to_proto()
}

// ---------------------------------------------------------------------------
// The cache of all rooms
// ---------------------------------------------------------------------------

/// The view of a room for which nothing was cached yet.
pub open spec fn fresh_room(room_id: Seq<char>) -> CachedRoomView {
    CachedRoomView {
        room_id,
        messages: Map::empty(),
        encrypted_events: Map::empty(),
        unread_count: 0,
        reaction_owner: Map::empty(),
    }
}

/// The cached room with the ID, or a fresh one where none is cached.
pub open spec fn room_or_fresh(rooms: Map<Seq<char>, CachedRoomView>, room_id: Seq<char>) -> CachedRoomView {
    if rooms.contains_key(room_id) {
        rooms[room_id]
    } else {
        fresh_room(room_id)
    }
}

/// The cache of every room, by room ID, and of the notification settings.
pub struct MemoryCache {
    rooms: StrMap<CachedRoom>,
    notification_settings: Option<CachedNotificationSettings>,
}

impl MemoryCache {
    /// The view of each cached room, by room ID.
    pub closed spec fn rooms_view(&self) -> Map<Seq<char>, CachedRoomView> {
        self.rooms@.map_values(|r: CachedRoom| r@)
    }

    /// The cached notification settings, if any.
    pub closed spec fn settings(&self) -> Option<CachedNotificationSettings> {
        self.notification_settings
    }

    /// A cache that holds nothing.
    pub fn new() -> (r: Self)
        ensures
            r.rooms_view() == Map::<Seq<char>, CachedRoomView>::empty(),
            r.settings() is None,
    {
        let r = MemoryCache { rooms: StrMap::new(), notification_settings: None };
        proof {
            assert(r.rooms_view() =~= Map::<Seq<char>, CachedRoomView>::empty());
        }
        r
    }

    /// Takes the room out of the cache, or a fresh one where none is cached.
    fn take_room(&mut self, room_id: &str) -> (r: CachedRoom)
        ensures
            r@ == room_or_fresh(old(self).rooms_view(), room_id@),
            final(self).rooms_view() == old(self).rooms_view().remove(room_id@),
            final(self).settings() == old(self).settings(),
    {
        let ghost o = self.rooms_view();
        let r = match self.rooms.remove(room_id) {
            Some(room) => room,
            None => CachedRoom::new(String::from_str(room_id)),
        };
        proof {
            assert(self.rooms_view() =~= o.remove(room_id@));
            if !o.contains_key(room_id@) {
                assert(r@.reaction_owner =~= Map::<Seq<char>, Seq<char>>::empty());
            }
        }
        r
    }

    /// Puts the room back into the cache under its ID.
    fn put_room(&mut self, room_id: String, room: CachedRoom)
        ensures
            final(self).rooms_view() == old(self).rooms_view().insert(room_id@, room@),
            final(self).settings() == old(self).settings(),
    {
        let ghost o = self.rooms_view();
        let ghost v = room@;
        self.rooms.insert(room_id, room);
        proof {
            assert(self.rooms_view() =~= o.insert(room_id@, v));
        }
    }

    /// Caches a reaction to the message in the room; the room is cached
    /// from now on.
    pub fn cache_reaction(&mut self, room_id: String, message_id: String, reaction_id: String, reaction: CachedReaction)
        ensures
            final(self).rooms_view().dom() == old(self).rooms_view().dom().insert(room_id@),
            reaction_cached(
                room_or_fresh(old(self).rooms_view(), room_id@),
                final(self).rooms_view()[room_id@],
                message_id@,
                reaction_id@,
                reaction,
            ),
            forall|k: Seq<char>| #[trigger] old(self).rooms_view().contains_key(k) && k != room_id@
                ==> final(self).rooms_view()[k] == old(self).rooms_view()[k],
            final(self).settings() == old(self).settings(),
    {
        let ghost o = self.rooms_view();
        let mut room = self.take_room(room_id.as_str());
        room.cache_reaction(message_id, reaction_id, reaction);
        self.put_room(room_id, room);
        proof {
            assert(self.rooms_view().dom() =~= o.dom().insert(room_id@));
        }
    }

    /// Removes a reaction by its ID from the room, where the room is cached.
    pub fn remove_reaction_by_id(&mut self, room_id: &str, reaction_id: &str) -> (r: Option<ReactionMetadata>)
        ensures
            !old(self).rooms_view().contains_key(room_id@) ==> r is None && final(self).rooms_view() == old(
                self,
            ).rooms_view(),
            old(self).rooms_view().contains_key(room_id@) ==> {
                &&& final(self).rooms_view().dom() == old(self).rooms_view().dom()
                &&& reaction_removed_by_id(
                    old(self).rooms_view()[room_id@],
                    final(self).rooms_view()[room_id@],
                    reaction_id@,
                    r,
                )
                &&& forall|k: Seq<char>| #[trigger] old(self).rooms_view().contains_key(k) && k != room_id@
                    ==> final(self).rooms_view()[k] == old(self).rooms_view()[k]
            },
            final(self).settings() == old(self).settings(),
    {
        if !self.rooms.contains_key(room_id) {
            return None;
        }
        let ghost o = self.rooms_view();
        let mut room = self.take_room(room_id);
        let r = room.remove_reaction_by_id(reaction_id);
        self.put_room(String::from_str(room_id), room);
        proof {
            assert(self.rooms_view().dom() =~= o.dom());
        }
        r
    }

    /// Removes the reactions of the user with the emoji to the message in
    /// the room, where the room is cached.
    pub fn remove_reaction_by_emoji(&mut self, room_id: &str, message_id: &str, user_id: &str, emoji: &str) -> (r:
        Option<ReactionMetadata>)
        ensures
            !old(self).rooms_view().contains_key(room_id@) ==> r is None && final(self).rooms_view() == old(
                self,
            ).rooms_view(),
            old(self).rooms_view().contains_key(room_id@) ==> {
                &&& final(self).rooms_view().dom() == old(self).rooms_view().dom()
                &&& reactions_removed_by_emoji(
                    old(self).rooms_view()[room_id@],
                    final(self).rooms_view()[room_id@],
                    message_id@,
                    user_id@,
                    emoji@,
                    r,
                )
                &&& forall|k: Seq<char>| #[trigger] old(self).rooms_view().contains_key(k) && k != room_id@
                    ==> final(self).rooms_view()[k] == old(self).rooms_view()[k]
            },
            final(self).settings() == old(self).settings(),
    {
        if !self.rooms.contains_key(room_id) {
            return None;
        }
        let ghost o = self.rooms_view();
        let mut room = self.take_room(room_id);
        let r = room.remove_reaction_by_emoji(message_id, user_id, emoji);
        self.put_room(String::from_str(room_id), room);
        proof {
            assert(self.rooms_view().dom() =~= o.dom());
        }
        r
    }

    /// Sets the unread count of the room; the room is cached from now on.
    pub fn set_room_unread_count(&mut self, room_id: String, unread_count: u32)
        ensures
            final(self).rooms_view() == old(self).rooms_view().insert(
                room_id@,
                CachedRoomView { unread_count, ..room_or_fresh(old(self).rooms_view(), room_id@) },
            ),
            final(self).settings() == old(self).settings(),
    {
        let mut room = self.take_room(room_id.as_str());
        room.set_unread_count(unread_count);
        self.put_room(room_id, room);
    }

    /// Keeps the notification settings, in place of those kept before.
    pub fn cache_notification_settings(&mut self, settings: CachedNotificationSettings)
        ensures
            final(self).settings() == Some(settings),
            final(self).rooms_view() == old(self).rooms_view(),
    {
        self.notification_settings = Some(settings);
    }

    /// A copy of the kept notification settings, if any.
    pub fn get_cached_notification_settings(&self) -> (r: Option<CachedNotificationSettings>)
        ensures
            match self.settings() {
                Some(s) => r matches Some(c) && c.global_settings == s.global_settings
                    && c.room_settings@ == s.room_settings@,
                None => r is None,
            },
    {
        match &self.notification_settings {
            Some(s) => Some(s.clone()),
            None => None,
        }
    }

    /// Whether the room is cached.
    pub fn has_room(&self, room_id: &str) -> (r: bool)
        ensures
            r == self.rooms_view().contains_key(room_id@),
    {
        self.rooms.contains_key(room_id)
    }

    /// Takes in a message sent to the application, where its room is
    /// cached: a message that counts as unread raises the room's unread
    /// count, and the change of the room is answered.
    pub fn cache_proto_message(&mut self, tag: u64, message: &Message, own_user_id: Option<&str>) -> (r: Option<
        RoomChangeEvent,
    >)
        requires
            old(self).rooms_view().contains_key(message.room_id@) && counts_as_unread(
                tag,
                message.sender_id@,
                match own_user_id {
                    Some(u) => Some(u@),
                    None => None,
                },
            ) ==> old(self).rooms_view()[message.room_id@].unread_count < u32::MAX,
        ensures
            final(self).settings() == old(self).settings(),
            !old(self).rooms_view().contains_key(message.room_id@) ==> r is None && final(self).rooms_view()
                == old(self).rooms_view(),
            old(self).rooms_view().contains_key(message.room_id@) ==> {
                let own = match own_user_id {
                    Some(u) => Some(u@),
                    None => None,
                };
                let o = old(self).rooms_view()[message.room_id@];
                if counts_as_unread(tag, message.sender_id@, own) {
                    &&& final(self).rooms_view() == old(self).rooms_view().insert(
                        message.room_id@,
                        CachedRoomView { unread_count: (o.unread_count + 1) as u32, ..o },
                    )
                    &&& r matches Some(e) && e@ == room_builder_event(
                        RoomChangeEventBuilderView {
                            unread_count: Some((o.unread_count + 1) as u32),
                            ..unchanged_room_builder(message.room_id@)
                        },
                    )
                } else {
                    r is None && final(self).rooms_view() == old(self).rooms_view()
                }
            },
    {
        if !self.rooms.contains_key(message.room_id.as_str()) {
            return None;
        }
        let ghost o = self.rooms_view();
        let mut room = self.take_room(message.room_id.as_str());
        let r = room.cache_message_event(tag, message, own_user_id);
        self.put_room(message.room_id.clone(), room);
        proof {
            let own = match own_user_id {
                Some(u) => Some(u@),
                None => None,
            };
            if !counts_as_unread(tag, message.sender_id@, own) {
                assert(self.rooms_view() =~= o);
            }
        }
        r
    }

    /// Takes in a room sent to the application, whose room the server
    /// knows: the room is cached from now on, with the room's unread count.
    pub fn cache_proto_room(&mut self, room: &Room)
        ensures
            final(self).rooms_view() == old(self).rooms_view().insert(
                room.room_id@,
                CachedRoomView { unread_count: room.unread_count, ..room_or_fresh(old(self).rooms_view(), room.room_id@) },
            ),
            final(self).settings() == old(self).settings(),
    {
        self.set_room_unread_count(room.room_id.clone(), room.unread_count);
    }
}

} // verus!
