//! Builders that assemble change events for rooms, users and messages, and
//! derive them from the difference of an old and a new state.
use vstd::prelude::*;

use crate::chat::{
    MessageChangeContent, MessageChangeEvent,
    text_or_none,
    room_after_change, user_after_change, opt_permissions_eq, opt_settings_eq, opt_status_eq, opt_status_view, opt_str_eq,
    str_or_empty, Room, RoomChangeEvent, RoomChangeEventView, RoomJoinRule, RoomPermissions,
    RoomSettings, RoomView, User, UserChangeEvent, UserChangeEventView, UserStatus,
    UserStatusView, UserView,
};
use crate::strmap::StrMap;

verus! {

// ---------------------------------------------------------------------------
// Rooms
// ---------------------------------------------------------------------------

/// Collects the changes of a room and turns them into a `RoomChangeEvent`.
#[derive(Debug, PartialEq, Eq)]
pub struct RoomChangeEventBuilder {
    pub room_id: String,
    pub user_id_list: Option<StrMap<i32>>,
    pub typing_user_id_list: Option<Vec<String>>,
    pub display_name: Option<String>,
    pub unread_count: Option<u32>,
    pub join_rule: Option<RoomJoinRule>,
    pub is_direct: Option<bool>,
    pub permissions: Option<RoomPermissions>,
    pub avatar_path: Option<String>,
    pub is_favourite: Option<bool>,
    pub room_settings: Option<RoomSettings>,
}

/// The view of a room change builder.
pub struct RoomChangeEventBuilderView {
    pub room_id: Seq<char>,
    pub user_id_list: Option<Map<Seq<char>, i32>>,
    pub typing_user_id_list: Option<Seq<Seq<char>>>,
    pub display_name: Option<Seq<char>>,
    pub unread_count: Option<u32>,
    pub join_rule: Option<RoomJoinRule>,
    pub is_direct: Option<bool>,
    pub permissions: Option<RoomPermissions>,
    pub avatar_path: Option<Seq<char>>,
    pub is_favourite: Option<bool>,
    pub room_settings: Option<RoomSettings>,
}

/// The view of an optional member list.
pub open spec fn opt_map_view(o: Option<StrMap<i32>>) -> Option<Map<Seq<char>, i32>> {
    match o {
        Some(m) => Some(m@),
        None => None,
    }
}

impl View for RoomChangeEventBuilder {
    type V = RoomChangeEventBuilderView;

    open spec fn view(&self) -> RoomChangeEventBuilderView {
        RoomChangeEventBuilderView {
            room_id: self.room_id@,
            user_id_list: opt_map_view(self.user_id_list),
            typing_user_id_list: self.typing_user_id_list.deep_view(),
            display_name: self.display_name.deep_view(),
            unread_count: self.unread_count,
            join_rule: self.join_rule,
            is_direct: self.is_direct,
            permissions: self.permissions,
            avatar_path: self.avatar_path.deep_view(),
            is_favourite: self.is_favourite,
            room_settings: self.room_settings,
        }
    }
}

/// A builder for the room that records no change.
pub open spec fn unchanged_room_builder(room_id: Seq<char>) -> RoomChangeEventBuilderView {
    RoomChangeEventBuilderView {
        room_id,
        user_id_list: None,
        typing_user_id_list: None,
        display_name: None,
        unread_count: None,
        join_rule: None,
        is_direct: None,
        permissions: None,
        avatar_path: None,
        is_favourite: None,
        room_settings: None,
    }
}

/// The text, or the empty text when it is absent.
pub open spec fn text_or_empty(o: Option<Seq<char>>) -> Seq<char> {
    match o {
        Some(t) => t,
        None => Seq::empty(),
    }
}

/// The join rule with the code, or the default rule for a code that names none.
pub open spec fn rule_of_code(code: i32) -> RoomJoinRule {
    if code == 1 {
        RoomJoinRule::Knock
    } else if code == 2 {
        RoomJoinRule::Public
    } else {
        RoomJoinRule::Invite
    }
}

/// The builder that records every field in which the new room differs from
/// the old one, with the new room's value.
pub open spec fn room_difference(old: RoomView, new: RoomView) -> RoomChangeEventBuilderView {
    RoomChangeEventBuilderView {
        room_id: new.room_id,
        user_id_list: if old.user_id_list != new.user_id_list {
            Some(new.user_id_list)
        } else {
            None
        },
        typing_user_id_list: None,
        display_name: if old.display_name != new.display_name {
            Some(text_or_empty(new.display_name))
        } else {
            None
        },
        unread_count: if old.unread_count != new.unread_count {
            Some(new.unread_count)
        } else {
            None
        },
        join_rule: if old.join_rule != new.join_rule {
            Some(rule_of_code(new.join_rule))
        } else {
            None
        },
        is_direct: if old.is_direct != new.is_direct {
            Some(new.is_direct)
        } else {
            None
        },
        permissions: if old.permissions != new.permissions {
            Some(
                match new.permissions {
                    Some(p) => p,
                    None => RoomPermissions::spec_default(),
                },
            )
        } else {
            None
        },
        avatar_path: if old.avatar_path != new.avatar_path {
            Some(text_or_empty(new.avatar_path))
        } else {
            None
        },
        is_favourite: if old.is_favorite != new.is_favorite {
            Some(new.is_favorite)
        } else {
            None
        },
        room_settings: if old.room_settings != new.room_settings {
            Some(
                match new.room_settings {
                    Some(s) => s,
                    None => RoomSettings::spec_default(),
                },
            )
        } else {
            None
        },
    }
}

/// The event that a room change builder produces.
pub open spec fn room_builder_event(b: RoomChangeEventBuilderView) -> RoomChangeEventView {
    RoomChangeEventView {
        room_id: b.room_id,
        has_user_id_list_changed: b.user_id_list is Some,
        has_typing_user_id_list_changed: b.typing_user_id_list is Some,
        user_id_list: match b.user_id_list {
            Some(m) => m,
            None => Map::empty(),
        },
        typing_user_id_list: match b.typing_user_id_list {
            Some(l) => l,
            None => Seq::empty(),
        },
        display_name: b.display_name,
        unread_count: b.unread_count,
        join_rule: match b.join_rule {
            Some(r) => Some(r.spec_code()),
            None => None,
        },
        is_direct: b.is_direct,
        permissions: b.permissions,
        avatar_path: b.avatar_path,
        is_favorite: b.is_favourite,
        room_settings: b.room_settings,
    }
}

impl Default for RoomChangeEventBuilder {
    fn default() -> (r: Self)
        ensures
            r@ == unchanged_room_builder(Seq::empty()),
    {
        RoomChangeEventBuilder::new(String::new())
    }
}

impl RoomChangeEventBuilder {
    /// A builder for the room that records no change yet.
    pub fn new(room_id: String) -> (b: Self)
        ensures
            b@ == unchanged_room_builder(room_id@),
    {
        RoomChangeEventBuilder {
            room_id,
            user_id_list: None,
            typing_user_id_list: None,
            display_name: None,
            unread_count: None,
            join_rule: None,
            is_direct: None,
            permissions: None,
            avatar_path: None,
            is_favourite: None,
            room_settings: None,
        }
    }

    /// Records every field in which `new` differs from `old`, with the value of
    /// `new`. A removed display name or avatar path is recorded as the empty
    /// string, removed permissions or settings as their defaults, and a join rule
    /// code that names no rule as the default rule.
    pub fn compare_rooms(old: &Room, new: &Room) -> (b: Self)
        ensures
            b@ == room_difference(old@, new@),
    {
        let mut obj = Self::new(new.room_id.clone());
        if !opt_str_eq(&old.display_name, &new.display_name) {
            obj = obj.change_display_name(str_or_empty(&new.display_name));
        }
        if !old.user_id_list.same_as(&new.user_id_list) {
            obj = obj.change_user_id_list(new.user_id_list.copy());
        }
        if old.unread_count != new.unread_count {
            obj = obj.change_unread_count(new.unread_count);
        }
        if old.is_direct != new.is_direct {
            obj = obj.change_is_direct(new.is_direct);
        }
        if old.join_rule != new.join_rule {
            let rule = match RoomJoinRule::from_i32(new.join_rule) {
                Some(r) => r,
                None => RoomJoinRule::default_rule(),
            };
            obj = obj.change_join_rule(rule);
        }
        if !opt_permissions_eq(&old.permissions, &new.permissions) {
            let p = match new.permissions {
                Some(p) => p,
                None => RoomPermissions::default(),
            };
            obj = obj.change_permissions(p);
        }
        if !opt_str_eq(&old.avatar_path, &new.avatar_path) {
            obj = obj.change_avatar_path(str_or_empty(&new.avatar_path));
        }
        if old.is_favorite != new.is_favorite {
            obj = obj.change_is_favourite(new.is_favorite);
        }
        if !opt_settings_eq(&old.room_settings, &new.room_settings) {
            let s = match new.room_settings {
                Some(s) => s,
                None => RoomSettings::default(),
            };
            obj = obj.change_room_settings(s);
        }
        obj
    }

    /// Records the new member list.
    pub fn change_user_id_list(self, user_id_list: StrMap<i32>) -> (b: Self)
        ensures
            b@ == (RoomChangeEventBuilderView { user_id_list: Some(user_id_list@), ..self@ }),
    {
        RoomChangeEventBuilder { user_id_list: Some(user_id_list), ..self }
    }

    /// Records the new list of typing users.
    pub fn change_typing_user_id_list(self, typing_user_id_list: Vec<String>) -> (b: Self)
        ensures
            b@ == (RoomChangeEventBuilderView {
                typing_user_id_list: Some(typing_user_id_list.deep_view()),
                ..self@
            }),
    {
        RoomChangeEventBuilder { typing_user_id_list: Some(typing_user_id_list), ..self }
    }

    /// Records the new display name; the empty string removes it.
    pub fn change_display_name(self, display_name: String) -> (b: Self)
        ensures
            b@ == (RoomChangeEventBuilderView { display_name: Some(display_name@), ..self@ }),
    {
        RoomChangeEventBuilder { display_name: Some(display_name), ..self }
    }

    /// Records the new unread count.
    pub fn change_unread_count(self, unread_count: u32) -> (b: Self)
        ensures
            b@ == (RoomChangeEventBuilderView { unread_count: Some(unread_count), ..self@ }),
    {
        RoomChangeEventBuilder { unread_count: Some(unread_count), ..self }
    }

    /// Records the new join rule.
    pub fn change_join_rule(self, join_rule: RoomJoinRule) -> (b: Self)
        ensures
            b@ == (RoomChangeEventBuilderView { join_rule: Some(join_rule), ..self@ }),
    {
        RoomChangeEventBuilder { join_rule: Some(join_rule), ..self }
    }

    /// Records whether the room is direct.
    pub fn change_is_direct(self, is_direct: bool) -> (b: Self)
        ensures
            b@ == (RoomChangeEventBuilderView { is_direct: Some(is_direct), ..self@ }),
    {
        RoomChangeEventBuilder { is_direct: Some(is_direct), ..self }
    }

    /// Records the new permissions.
    pub fn change_permissions(self, permissions: RoomPermissions) -> (b: Self)
        ensures
            b@ == (RoomChangeEventBuilderView { permissions: Some(permissions), ..self@ }),
    {
        RoomChangeEventBuilder { permissions: Some(permissions), ..self }
    }

    /// Records the new avatar path; the empty string removes it.
    pub fn change_avatar_path(self, avatar_path: String) -> (b: Self)
        ensures
            b@ == (RoomChangeEventBuilderView { avatar_path: Some(avatar_path@), ..self@ }),
    {
        RoomChangeEventBuilder { avatar_path: Some(avatar_path), ..self }
    }

    /// Records whether the room is a favourite.
    pub fn change_is_favourite(self, is_favourite: bool) -> (b: Self)
        ensures
            b@ == (RoomChangeEventBuilderView { is_favourite: Some(is_favourite), ..self@ }),
    {
        RoomChangeEventBuilder { is_favourite: Some(is_favourite), ..self }
    }

    /// Records the new room settings.
    pub fn change_room_settings(self, room_settings: RoomSettings) -> (b: Self)
        ensures
            b@ == (RoomChangeEventBuilderView { room_settings: Some(room_settings), ..self@ }),
    {
        RoomChangeEventBuilder { room_settings: Some(room_settings), ..self }
    }

    /// The change event with the recorded changes.
    pub fn to_proto(self) -> (e: RoomChangeEvent)
        ensures
            e@ == room_builder_event(self@),
    {
        let no_typing_users: Vec<String> = Vec::new();
        proof {
            assert(no_typing_users.deep_view() =~= Seq::<Seq<char>>::empty());
        }
        let mut event = RoomChangeEvent {
            room_id: self.room_id,
            has_user_id_list_changed: false,
            has_typing_user_id_list_changed: false,
            user_id_list: StrMap::new(),
            typing_user_id_list: no_typing_users,
            display_name: self.display_name,
            unread_count: self.unread_count,
            join_rule: match self.join_rule {
                Some(r) => Some(r.to_i32()),
                None => None,
            },
            is_direct: self.is_direct,
            permissions: self.permissions,
            avatar_path: self.avatar_path,
            is_favorite: self.is_favourite,
            room_settings: self.room_settings,
        };
        if let Some(user_id_list) = self.user_id_list {
            event.has_user_id_list_changed = true;
            event.user_id_list = user_id_list;
        }
        if let Some(typing_user_id_list) = self.typing_user_id_list {
            event.has_typing_user_id_list_changed = true;
            event.typing_user_id_list = typing_user_id_list;
        }
        event
    }
}

// ---------------------------------------------------------------------------
// Users
// ---------------------------------------------------------------------------

/// Collects the changes of a user and turns them into a `UserChangeEvent`.
#[derive(Debug, PartialEq, Eq)]
pub struct UserChangeEventBuilder {
    pub user_id: String,
    pub status: Option<UserStatus>,
    pub display_name: Option<String>,
    pub avatar_path: Option<String>,
}

impl View for UserChangeEventBuilder {
    type V = UserChangeEventView;

    open spec fn view(&self) -> UserChangeEventView {
        UserChangeEventView {
            user_id: self.user_id@,
            status: opt_status_view(self.status),
            display_name: self.display_name.deep_view(),
            avatar_path: self.avatar_path.deep_view(),
        }
    }
}

/// A user change that records nothing.
pub open spec fn unchanged_user(user_id: Seq<char>) -> UserChangeEventView {
    UserChangeEventView { user_id, status: None, display_name: None, avatar_path: None }
}

/// The view of the empty status.
pub open spec fn default_status_view() -> UserStatusView {
    UserStatusView { state: 0, status_message: None }
}

/// The change that records every field in which the new user differs from
/// the old one, with the new user's value.
pub open spec fn user_difference(old: UserView, new: UserView) -> UserChangeEventView {
    UserChangeEventView {
        user_id: new.user_id,
        display_name: if old.display_name != new.display_name {
            Some(text_or_empty(new.display_name))
        } else {
            None
        },
        avatar_path: if old.avatar_path != new.avatar_path {
            Some(text_or_empty(new.avatar_path))
        } else {
            None
        },
        status: if old.status != new.status {
            Some(
                match new.status {
                    Some(s) => s,
                    None => default_status_view(),
                },
            )
        } else {
            None
        },
    }
}

impl Default for UserChangeEventBuilder {
    fn default() -> (r: Self)
        ensures
            r@ == unchanged_user(Seq::empty()),
    {
        UserChangeEventBuilder::new(String::new())
    }
}

impl UserChangeEventBuilder {
    /// A builder for the user that records no change yet.
    pub fn new(user_id: String) -> (b: Self)
        ensures
            b@ == unchanged_user(user_id@),
    {
        UserChangeEventBuilder { user_id, status: None, display_name: None, avatar_path: None }
    }

    /// Records every field in which `new` differs from `old`, with the value of
    /// `new`. A removed display name or avatar path is recorded as the empty
    /// string, a removed status as the empty status.
    pub fn compare_users(old: &User, new: &User) -> (b: Self)
        ensures
            b@ == user_difference(old@, new@),
    {
        let mut obj = Self::new(new.user_id.clone());
        if !opt_str_eq(&old.display_name, &new.display_name) {
            obj = obj.change_display_name(str_or_empty(&new.display_name));
        }
        if !opt_str_eq(&old.avatar_path, &new.avatar_path) {
            obj = obj.change_avatar_path(str_or_empty(&new.avatar_path));
        }
        if !opt_status_eq(&old.status, &new.status) {
            let s = match &new.status {
                Some(s) => s.copy(),
                None => UserStatus::default(),
            };
            obj = obj.change_status(s);
        }
        obj
    }

    /// Records the new status.
    pub fn change_status(self, status: UserStatus) -> (b: Self)
        ensures
            b@ == (UserChangeEventView { status: Some(status@), ..self@ }),
    {
        UserChangeEventBuilder { status: Some(status), ..self }
    }

    /// Records the new display name; the empty string removes it.
    pub fn change_display_name(self, display_name: String) -> (b: Self)
        ensures
            b@ == (UserChangeEventView { display_name: Some(display_name@), ..self@ }),
    {
        UserChangeEventBuilder { display_name: Some(display_name), ..self }
    }

    /// Records the new avatar path; the empty string removes it.
    pub fn change_avatar_path(self, avatar_path: String) -> (b: Self)
        ensures
            b@ == (UserChangeEventView { avatar_path: Some(avatar_path@), ..self@ }),
    {
        UserChangeEventBuilder { avatar_path: Some(avatar_path), ..self }
    }

    /// The change event with the recorded changes.
    pub fn to_proto(self) -> (e: UserChangeEvent)
        ensures
            e@ == self@,
    {
        UserChangeEvent {
            user_id: self.user_id,
            status: self.status,
            display_name: self.display_name,
            avatar_path: self.avatar_path,
        }
    }
}


// ---------------------------------------------------------------------------
// Laws
// ---------------------------------------------------------------------------

/// A present text that is not the empty text survives the round trip through
/// the empty-text encoding of removal.
proof fn lemma_text_round_trip(o: Option<Seq<char>>)
    requires
        o != Some(Seq::<char>::empty()),
    ensures
        text_or_none(text_or_empty(o)) == o,
{
    if let Some(t) = o {
        if t.len() == 0 {
            assert(t =~= Seq::<char>::empty());
        }
    }
}

/// Applying to the old room the event built from the difference of the old and
/// the new room yields the new room. The fields that an event cannot carry
/// (room ID, spaces, latest message time) must agree, and the new room must not
/// hold what an event cannot express: an empty display name or avatar path, a
/// join rule code that names no rule, or removed permissions or settings.
pub proof fn lemma_room_difference_applies(old: RoomView, new: RoomView)
    requires
        old.room_id == new.room_id,
        old.space_id == new.space_id,
        old.latest_message_timestamp == new.latest_message_timestamp,
        new.display_name != Some(Seq::<char>::empty()),
        new.avatar_path != Some(Seq::<char>::empty()),
        0 <= new.join_rule <= 2,
        new.permissions is Some || old.permissions == new.permissions,
        new.room_settings is Some || old.room_settings == new.room_settings,
    ensures
        room_after_change(room_builder_event(room_difference(old, new)), old) == new,
{
    let r = room_after_change(room_builder_event(room_difference(old, new)), old);
    lemma_text_round_trip(new.display_name);
    lemma_text_round_trip(new.avatar_path);
    assert(r.display_name == new.display_name);
    assert(r.avatar_path == new.avatar_path);
    assert(r.join_rule == new.join_rule);
}

/// A room compared with itself yields a builder that records no change.
pub proof fn lemma_room_difference_with_itself(r: RoomView)
    ensures
        room_difference(r, r) == unchanged_room_builder(r.room_id),
{
}

/// The event of a builder that records no change leaves every room as it is.
pub proof fn lemma_unchanged_room_event(room_id: Seq<char>, r: RoomView)
    ensures
        room_after_change(room_builder_event(unchanged_room_builder(room_id)), r) == r,
{
}

/// Applying to the old user the event built from the difference of the old and
/// the new user yields the new user, where the user IDs agree, the new user has
/// no empty display name or avatar path, and its status is present unless it
/// equals the old one.
pub proof fn lemma_user_difference_applies(old: UserView, new: UserView)
    requires
        old.user_id == new.user_id,
        new.display_name != Some(Seq::<char>::empty()),
        new.avatar_path != Some(Seq::<char>::empty()),
        new.status is Some || old.status == new.status,
    ensures
        user_after_change(user_difference(old, new), old) == new,
{
    let u = user_after_change(user_difference(old, new), old);
    lemma_text_round_trip(new.display_name);
    lemma_text_round_trip(new.avatar_path);
    assert(u.display_name == new.display_name);
    assert(u.avatar_path == new.avatar_path);
}

/// A user compared with itself yields a change that records nothing, and that
/// change leaves the user as it is.
pub proof fn lemma_user_difference_with_itself(u: UserView)
    ensures
        user_difference(u, u) == unchanged_user(u.user_id),
        user_after_change(unchanged_user(u.user_id), u) == u,
{
}


// ---------------------------------------------------------------------------
// Messages
// ---------------------------------------------------------------------------

/// Collects the changes of a message and turns them into a `MessageChangeEvent`.
#[derive(Debug, PartialEq, Eq)]
pub struct MessageChangeEventBuilder {
    pub room_id: String,
    pub message_id: String,
    pub is_pinned: Option<bool>,
    pub is_encrypted: Option<bool>,
    pub mentioned_user_ids: Option<Vec<String>>,
    pub content: Option<MessageChangeContent>,
}

impl MessageChangeEventBuilder {
    /// A builder for the message that records no change yet.
    pub fn new(room_id: String, message_id: String) -> (b: Self)
        ensures
            b.room_id == room_id,
            b.message_id == message_id,
            b.is_pinned is None,
            b.is_encrypted is None,
            b.mentioned_user_ids is None,
            b.content is None,
    {
        MessageChangeEventBuilder {
            room_id,
            message_id,
            is_pinned: None,
            is_encrypted: None,
            mentioned_user_ids: None,
            content: None,
        }
    }

    /// Records whether the message is pinned.
    pub fn change_is_pinned(self, is_pinned: bool) -> (b: Self)
        ensures
            b == (MessageChangeEventBuilder { is_pinned: Some(is_pinned), ..self }),
    {
        MessageChangeEventBuilder { is_pinned: Some(is_pinned), ..self }
    }

    /// Records whether the message is encrypted.
    pub fn change_is_encrypted(self, is_encrypted: bool) -> (b: Self)
        ensures
            b == (MessageChangeEventBuilder { is_encrypted: Some(is_encrypted), ..self }),
    {
        MessageChangeEventBuilder { is_encrypted: Some(is_encrypted), ..self }
    }

    /// Records the new list of mentioned users.
    pub fn change_mentioned_user_ids(self, mentioned_user_ids: Vec<String>) -> (b: Self)
        ensures
            b == (MessageChangeEventBuilder {
                mentioned_user_ids: Some(mentioned_user_ids),
                ..self
            }),
    {
        MessageChangeEventBuilder { mentioned_user_ids: Some(mentioned_user_ids), ..self }
    }

    /// Records the new content.
    pub fn change_content(self, content: MessageChangeContent) -> (b: Self)
        ensures
            b == (MessageChangeEventBuilder { content: Some(content), ..self }),
    {
        MessageChangeEventBuilder { content: Some(content), ..self }
    }

    /// The change event with the recorded changes.
    pub fn to_proto(self) -> (e: MessageChangeEvent)
        ensures
            e.room_id == self.room_id,
            e.message_id == self.message_id,
            e.is_pinned == self.is_pinned,
            e.is_encrypted == self.is_encrypted,
            e.has_mentioned_user_ids_changed == self.mentioned_user_ids is Some,
            match self.mentioned_user_ids {
                Some(m) => e.mentioned_user_ids == m,
                None => e.mentioned_user_ids@ == Seq::<String>::empty(),
            },
            e.content == self.content,
    {
        let mut event = MessageChangeEvent {
            room_id: self.room_id,
            message_id: self.message_id,
            is_pinned: self.is_pinned,
            is_encrypted: self.is_encrypted,
            mentioned_user_ids: Vec::new(),
            has_mentioned_user_ids_changed: false,
            content: self.content,
        };
        if let Some(mentioned_user_ids) = self.mentioned_user_ids {
            event.has_mentioned_user_ids_changed = true;
            event.mentioned_user_ids = mentioned_user_ids;
        }
        event
    }
}

} // verus!
