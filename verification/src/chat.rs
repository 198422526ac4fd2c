//! The chat protocol's data: rooms, users, messages and the change events that
//! carry updates of them to the application.
//!
//! Enumerations travel on the wire as `i32` codes; each enumeration converts to
//! and from its code.
use vstd::prelude::*;

use crate::strmap::StrMap;

verus! {

// ---------------------------------------------------------------------------
// Enumerations
// ---------------------------------------------------------------------------

/// How users may join a room.
#[derive(Debug, Clone, Copy, PartialEq, Eq, Structural)]
pub enum RoomJoinRule {
    Invite,
    Knock,
    Public,
}

impl RoomJoinRule {
    /// The code of each join rule.
    pub open spec fn spec_code(self) -> i32 {
        match self {
            RoomJoinRule::Invite => 0,
            RoomJoinRule::Knock => 1,
            RoomJoinRule::Public => 2,
        }
    }

    /// The code of the join rule.
    pub fn to_i32(self) -> (c: i32)
        ensures
            c == self.spec_code(),
    {
        match self {
            RoomJoinRule::Invite => 0,
            RoomJoinRule::Knock => 1,
            RoomJoinRule::Public => 2,
        }
    }

    /// The join rule with the given code, if the code names one.
    pub fn from_i32(code: i32) -> (r: Option<RoomJoinRule>)
        ensures
            match r {
                Some(rule) => rule.spec_code() == code,
                None => !(0 <= code <= 2),
            },
    {
        if code == 0 {
            Some(RoomJoinRule::Invite)
        } else if code == 1 {
            Some(RoomJoinRule::Knock)
        } else if code == 2 {
            Some(RoomJoinRule::Public)
        } else {
            None
        }
    }

    /// The default join rule: the one with code 0.
    pub fn default_rule() -> (r: RoomJoinRule)
        ensures
            r == RoomJoinRule::Invite,
            r.spec_code() == 0,
    {
        RoomJoinRule::Invite
    }
}

/// The presence of a user.
#[derive(Debug, Clone, Copy, PartialEq, Eq, Structural)]
pub enum PresenceState {
    Unknown,
    Online,
    Offline,
    Away,
}

impl PresenceState {
    /// The code of each presence state.
    pub open spec fn spec_code(self) -> i32 {
        match self {
            PresenceState::Unknown => 0,
            PresenceState::Online => 1,
            PresenceState::Offline => 2,
            PresenceState::Away => 3,
        }
    }

    /// The code of the presence state.
    pub fn to_i32(self) -> (c: i32)
        ensures
            c == self.spec_code(),
    {
        match self {
            PresenceState::Unknown => 0,
            PresenceState::Online => 1,
            PresenceState::Offline => 2,
            PresenceState::Away => 3,
        }
    }
}

/// The state of a user in a room.
#[derive(Debug, Clone, Copy, PartialEq, Eq, Structural)]
pub enum UserRoomState {
    Unjoined,
    Joined,
    Invited,
    Knocked,
    Banned,
}

impl UserRoomState {
    /// The code of each room state.
    pub open spec fn spec_code(self) -> i32 {
        match self {
            UserRoomState::Unjoined => 0,
            UserRoomState::Joined => 1,
            UserRoomState::Invited => 2,
            UserRoomState::Knocked => 3,
            UserRoomState::Banned => 4,
        }
    }

    /// The code of the room state.
    pub fn to_i32(self) -> (c: i32)
        ensures
            c == self.spec_code(),
    {
        match self {
            UserRoomState::Unjoined => 0,
            UserRoomState::Joined => 1,
            UserRoomState::Invited => 2,
            UserRoomState::Knocked => 3,
            UserRoomState::Banned => 4,
        }
    }
}

/// When the application notifies about new messages of a room.
#[derive(Debug, Clone, Copy, PartialEq, Eq, Structural)]
pub enum NotificationSetting {
    Mute,
    MentionsAndKeywordsOnly,
    AllMessages,
}

impl NotificationSetting {
    /// The code of each notification setting.
    pub open spec fn spec_code(self) -> i32 {
        match self {
            NotificationSetting::Mute => 0,
            NotificationSetting::MentionsAndKeywordsOnly => 1,
            NotificationSetting::AllMessages => 2,
        }
    }

    /// The code of the notification setting.
    pub fn to_i32(self) -> (c: i32)
        ensures
            c == self.spec_code(),
    {
        match self {
            NotificationSetting::Mute => 0,
            NotificationSetting::MentionsAndKeywordsOnly => 1,
            NotificationSetting::AllMessages => 2,
        }
    }
}

/// A change of a user's membership in a room, as shown in the message list.
#[derive(Debug, Clone, Copy, PartialEq, Eq, Structural)]
pub enum MembershipChange {
    Joined,
    Left,
    Banned,
    Kicked,
    Invited,
    Knocked,
}

impl MembershipChange {
    /// The code of each membership change.
    pub open spec fn spec_code(self) -> i32 {
        match self {
            MembershipChange::Joined => 0,
            MembershipChange::Left => 1,
            MembershipChange::Banned => 2,
            MembershipChange::Kicked => 3,
            MembershipChange::Invited => 4,
            MembershipChange::Knocked => 5,
        }
    }

    /// The code of the membership change.
    pub fn to_i32(self) -> (c: i32)
        ensures
            c == self.spec_code(),
    {
        match self {
            MembershipChange::Joined => 0,
            MembershipChange::Left => 1,
            MembershipChange::Banned => 2,
            MembershipChange::Kicked => 3,
            MembershipChange::Invited => 4,
            MembershipChange::Knocked => 5,
        }
    }
}

/// The kind of an error reported to the application.
#[derive(Debug, Clone, Copy, PartialEq, Eq, Structural)]
pub enum ErrorType {
    Unknown,
    NotImplemented,
    Network,
    Authorization,
    InvalidUrl,
    InvalidUserId,
    InvalidMessageId,
    MessageNotFound,
    InvalidRecoveryKey,
    NotAllowed,
}

impl ErrorType {
    /// The code of each error type.
    pub open spec fn spec_code(self) -> i32 {
        match self {
            ErrorType::Unknown => 0,
            ErrorType::NotImplemented => 1,
            ErrorType::Network => 2,
            ErrorType::Authorization => 3,
            ErrorType::InvalidUrl => 4,
            ErrorType::InvalidUserId => 5,
            ErrorType::InvalidMessageId => 6,
            ErrorType::MessageNotFound => 7,
            ErrorType::InvalidRecoveryKey => 8,
            ErrorType::NotAllowed => 9,
        }
    }

    /// The code of the error type.
    pub fn to_i32(self) -> (c: i32)
        ensures
            c == self.spec_code(),
    {
        match self {
            ErrorType::Unknown => 0,
            ErrorType::NotImplemented => 1,
            ErrorType::Network => 2,
            ErrorType::Authorization => 3,
            ErrorType::InvalidUrl => 4,
            ErrorType::InvalidUserId => 5,
            ErrorType::InvalidMessageId => 6,
            ErrorType::MessageNotFound => 7,
            ErrorType::InvalidRecoveryKey => 8,
            ErrorType::NotAllowed => 9,
        }
    }
}

// ---------------------------------------------------------------------------
// Small records
// ---------------------------------------------------------------------------

/// What the own user may do in a room.
#[derive(Debug, Clone, Copy, PartialEq, Eq, Structural)]
pub struct RoomPermissions {
    pub can_edit: bool,
    pub can_invite: bool,
    pub can_kick: bool,
    pub can_ban: bool,
}

impl RoomPermissions {
    /// Permissions that allow nothing.
    pub open spec fn spec_default() -> RoomPermissions {
        RoomPermissions { can_edit: false, can_invite: false, can_kick: false, can_ban: false }
    }
}

impl Default for RoomPermissions {
    fn default() -> (r: Self)
        ensures
            r == RoomPermissions::spec_default(),
    {
        RoomPermissions { can_edit: false, can_invite: false, can_kick: false, can_ban: false }
    }
}

/// The settings of a room.
#[derive(Debug, Clone, Copy, PartialEq, Eq, Structural)]
pub struct RoomSettings {
    /// The code of the room's notification setting, if it has its own.
    pub notification_setting: Option<i32>,
}

impl RoomSettings {
    /// Settings without a room specific notification setting.
    pub open spec fn spec_default() -> RoomSettings {
        RoomSettings { notification_setting: None }
    }
}

impl Default for RoomSettings {
    fn default() -> (r: Self)
        ensures
            r == RoomSettings::spec_default(),
    {
        RoomSettings { notification_setting: None }
    }
}

/// The status of a user: a state code and an optional message.
#[derive(Debug, PartialEq, Eq)]
pub struct UserStatus {
    pub state: i32,
    pub status_message: Option<String>,
}

/// The view of a user status.
pub struct UserStatusView {
    pub state: i32,
    pub status_message: Option<Seq<char>>,
}

impl UserStatus {
    pub open spec fn view(&self) -> UserStatusView {
        UserStatusView { state: self.state, status_message: self.status_message.deep_view() }
    }

    /// The empty status.
    pub open spec fn spec_default() -> UserStatus {
        UserStatus { state: 0, status_message: None }
    }

    /// A copy of the status.
    pub fn copy(&self) -> (r: UserStatus)
        ensures
            r == *self,
    {
        UserStatus { state: self.state, status_message: clone_opt_str(&self.status_message) }
    }
}

impl Clone for UserStatus {
    fn clone(&self) -> (r: Self)
        ensures
            r == *self,
    {
        self.copy()
    }
}

impl Default for UserStatus {
    fn default() -> (r: Self)
        ensures
            r == UserStatus::spec_default(),
    {
        UserStatus { state: 0, status_message: None }
    }
}

// ---------------------------------------------------------------------------
// Helpers on optional values
// ---------------------------------------------------------------------------

/// A copy of an optional string.
pub fn clone_opt_str(o: &Option<String>) -> (r: Option<String>)
    ensures
        r == *o,
{
    match o {
        Some(s) => Some(s.clone()),
        None => None,
    }
}

/// Whether two optional strings hold the same characters, or are both absent.
pub fn opt_str_eq(a: &Option<String>, b: &Option<String>) -> (r: bool)
    ensures
        r == (a.deep_view() == b.deep_view()),
{
    match (a, b) {
        (Some(x), Some(y)) => crate::text::str_equal(x.as_str(), y.as_str()),
        (None, None) => true,
        _ => false,
    }
}

/// The string, or the empty string when it is absent.
pub fn str_or_empty(o: &Option<String>) -> (r: String)
    ensures
        match o {
            Some(s) => r == *s,
            None => r@ == Seq::<char>::empty(),
        },
{
    match o {
        Some(s) => s.clone(),
        None => String::new(),
    }
}

/// The optional string with an empty string read as absent.
pub open spec fn empty_as_none(s: String) -> Option<String> {
    if s@.len() == 0 {
        None
    } else {
        Some(s)
    }
}

/// Reads an empty string as absent.
pub fn none_if_empty(s: String) -> (r: Option<String>)
    ensures
        r == empty_as_none(s),
{
    if s.as_str().is_empty() {
        None
    } else {
        Some(s)
    }
}

/// Whether two optional statuses agree.
pub fn opt_status_eq(a: &Option<UserStatus>, b: &Option<UserStatus>) -> (r: bool)
    ensures
        r == (opt_status_view(*a) == opt_status_view(*b)),
{
    match (a, b) {
        (Some(x), Some(y)) => x.state == y.state && opt_str_eq(
            &x.status_message,
            &y.status_message,
        ),
        (None, None) => true,
        _ => false,
    }
}

/// The view of an optional status.
pub open spec fn opt_status_view(o: Option<UserStatus>) -> Option<UserStatusView> {
    match o {
        Some(s) => Some(s.view()),
        None => None,
    }
}

/// Whether two optional permission sets agree.
pub fn opt_permissions_eq(a: &Option<RoomPermissions>, b: &Option<RoomPermissions>) -> (r: bool)
    ensures
        r == (*a == *b),
{
    match (a, b) {
        (Some(x), Some(y)) => x.can_edit == y.can_edit && x.can_invite == y.can_invite
            && x.can_kick == y.can_kick && x.can_ban == y.can_ban,
        (None, None) => true,
        _ => false,
    }
}

/// Whether two optional room settings agree.
pub fn opt_settings_eq(a: &Option<RoomSettings>, b: &Option<RoomSettings>) -> (r: bool)
    ensures
        r == (*a == *b),
{
    match (a, b) {
        (Some(x), Some(y)) => match (x.notification_setting, y.notification_setting) {
            (Some(p), Some(q)) => p == q,
            (None, None) => true,
            _ => false,
        },
        (None, None) => true,
        _ => false,
    }
}


/// A copy of a list of strings.
pub fn clone_str_vec(v: &Vec<String>) -> (r: Vec<String>)
    ensures
        r@ == v@,
{
    let mut r: Vec<String> = Vec::new();
    let mut i: usize = 0;
    while i < v.len()
        invariant
            i <= v@.len(),
            r@ == v@.take(i as int),
        decreases v.len() - i,
    {
        r.push(v[i].clone());
        proof {
            assert(r@ =~= v@.take((i + 1) as int));
        }
        i = i + 1;
    }
    proof {
        assert(v@.take(i as int) =~= v@);
    }
    r
}

// ---------------------------------------------------------------------------
// Rooms
// ---------------------------------------------------------------------------

/// A chat room as the application sees it.
#[derive(Debug, PartialEq, Eq)]
pub struct Room {
    pub room_id: String,
    pub display_name: Option<String>,
    /// The members of the room and the code of each one's presence.
    pub user_id_list: StrMap<i32>,
    pub space_id: Vec<String>,
    pub unread_count: u32,
    pub is_direct: bool,
    /// The code of the room's join rule.
    pub join_rule: i32,
    pub permissions: Option<RoomPermissions>,
    pub latest_message_timestamp: Option<u64>,
    pub avatar_path: Option<String>,
    pub is_favorite: bool,
    pub room_settings: Option<RoomSettings>,
}

/// The view of a room: strings by their characters, the member list as a map.
pub struct RoomView {
    pub room_id: Seq<char>,
    pub display_name: Option<Seq<char>>,
    pub user_id_list: Map<Seq<char>, i32>,
    pub space_id: Seq<Seq<char>>,
    pub unread_count: u32,
    pub is_direct: bool,
    pub join_rule: i32,
    pub permissions: Option<RoomPermissions>,
    pub latest_message_timestamp: Option<u64>,
    pub avatar_path: Option<Seq<char>>,
    pub is_favorite: bool,
    pub room_settings: Option<RoomSettings>,
}

impl View for Room {
    type V = RoomView;

    open spec fn view(&self) -> RoomView {
        RoomView {
            room_id: self.room_id@,
            display_name: self.display_name.deep_view(),
            user_id_list: self.user_id_list@,
            space_id: self.space_id.deep_view(),
            unread_count: self.unread_count,
            is_direct: self.is_direct,
            join_rule: self.join_rule,
            permissions: self.permissions,
            latest_message_timestamp: self.latest_message_timestamp,
            avatar_path: self.avatar_path.deep_view(),
            is_favorite: self.is_favorite,
            room_settings: self.room_settings,
        }
    }
}

impl Room {
    /// A copy of the room.
    pub fn copy(&self) -> (r: Room)
        ensures
            r@ == self@,
            r.room_id == self.room_id,
    {
        Room {
            room_id: self.room_id.clone(),
            display_name: clone_opt_str(&self.display_name),
            user_id_list: self.user_id_list.copy(),
            space_id: clone_str_vec(&self.space_id),
            unread_count: self.unread_count,
            is_direct: self.is_direct,
            join_rule: self.join_rule,
            permissions: self.permissions,
            latest_message_timestamp: self.latest_message_timestamp,
            avatar_path: clone_opt_str(&self.avatar_path),
            is_favorite: self.is_favorite,
            room_settings: self.room_settings,
        }
    }
}

impl Clone for Room {
    fn clone(&self) -> (r: Self)
        ensures
            r@ == self@,
    {
        self.copy()
    }
}

impl Default for Room {
    fn default() -> (r: Self)
        ensures
            r@.room_id == Seq::<char>::empty(),
            r@.display_name is None,
            r@.user_id_list == Map::<Seq<char>, i32>::empty(),
            r@.space_id == Seq::<Seq<char>>::empty(),
            r@.unread_count == 0,
            !r@.is_direct,
            r@.join_rule == 0,
            r@.permissions is None,
            r@.latest_message_timestamp is None,
            r@.avatar_path is None,
            !r@.is_favorite,
            r@.room_settings is None,
    {
        let r = Room {
            room_id: String::new(),
            display_name: None,
            user_id_list: StrMap::new(),
            space_id: Vec::new(),
            unread_count: 0,
            is_direct: false,
            join_rule: 0,
            permissions: None,
            latest_message_timestamp: None,
            avatar_path: None,
            is_favorite: false,
            room_settings: None,
        };
        proof {
            assert(r.space_id.deep_view() =~= Seq::<Seq<char>>::empty());
        }
        r
    }
}

/// A change of a room, sent to the application. Absent fields stay unchanged;
/// the lists change only where their flag says so.
#[derive(Debug, PartialEq, Eq)]
pub struct RoomChangeEvent {
    pub room_id: String,
    pub has_user_id_list_changed: bool,
    pub has_typing_user_id_list_changed: bool,
    pub user_id_list: StrMap<i32>,
    pub typing_user_id_list: Vec<String>,
    /// The new display name; the empty string removes it.
    pub display_name: Option<String>,
    pub unread_count: Option<u32>,
    pub join_rule: Option<i32>,
    pub is_direct: Option<bool>,
    pub permissions: Option<RoomPermissions>,
    /// The new avatar path; the empty string removes it.
    pub avatar_path: Option<String>,
    pub is_favorite: Option<bool>,
    pub room_settings: Option<RoomSettings>,
}

/// The view of a room change event.
pub struct RoomChangeEventView {
    pub room_id: Seq<char>,
    pub has_user_id_list_changed: bool,
    pub has_typing_user_id_list_changed: bool,
    pub user_id_list: Map<Seq<char>, i32>,
    pub typing_user_id_list: Seq<Seq<char>>,
    pub display_name: Option<Seq<char>>,
    pub unread_count: Option<u32>,
    pub join_rule: Option<i32>,
    pub is_direct: Option<bool>,
    pub permissions: Option<RoomPermissions>,
    pub avatar_path: Option<Seq<char>>,
    pub is_favorite: Option<bool>,
    pub room_settings: Option<RoomSettings>,
}

impl View for RoomChangeEvent {
    type V = RoomChangeEventView;

    open spec fn view(&self) -> RoomChangeEventView {
        RoomChangeEventView {
            room_id: self.room_id@,
            has_user_id_list_changed: self.has_user_id_list_changed,
            has_typing_user_id_list_changed: self.has_typing_user_id_list_changed,
            user_id_list: self.user_id_list@,
            typing_user_id_list: self.typing_user_id_list.deep_view(),
            display_name: self.display_name.deep_view(),
            unread_count: self.unread_count,
            join_rule: self.join_rule,
            is_direct: self.is_direct,
            permissions: self.permissions,
            avatar_path: self.avatar_path.deep_view(),
            is_favorite: self.is_favorite,
            room_settings: self.room_settings,
        }
    }
}

impl Default for RoomChangeEvent {
    fn default() -> (r: Self)
        ensures
            r@.room_id == Seq::<char>::empty(),
            !r@.has_user_id_list_changed,
            !r@.has_typing_user_id_list_changed,
            r@.user_id_list == Map::<Seq<char>, i32>::empty(),
            r@.typing_user_id_list == Seq::<Seq<char>>::empty(),
            r@.display_name is None,
            r@.unread_count is None,
            r@.join_rule is None,
            r@.is_direct is None,
            r@.permissions is None,
            r@.avatar_path is None,
            r@.is_favorite is None,
            r@.room_settings is None,
    {
        let r = RoomChangeEvent {
            room_id: String::new(),
            has_user_id_list_changed: false,
            has_typing_user_id_list_changed: false,
            user_id_list: StrMap::new(),
            typing_user_id_list: Vec::new(),
            display_name: None,
            unread_count: None,
            join_rule: None,
            is_direct: None,
            permissions: None,
            avatar_path: None,
            is_favorite: None,
            room_settings: None,
        };
        proof {
            assert(r.typing_user_id_list.deep_view() =~= Seq::<Seq<char>>::empty());
        }
        r
    }
}

/// An optional string with the empty string read as absent, by characters.
pub open spec fn text_or_none(s: Seq<char>) -> Option<Seq<char>> {
    if s.len() == 0 {
        None
    } else {
        Some(s)
    }
}

/// A field that is replaced where the change holds a value.
pub open spec fn changed_or<T>(change: Option<T>, current: T) -> T {
    match change {
        Some(v) => v,
        None => current,
    }
}

/// A text field that the change replaces where it holds a value, the empty
/// text removing it.
pub open spec fn text_changed_or(
    change: Option<Seq<char>>,
    current: Option<Seq<char>>,
) -> Option<Seq<char>> {
    match change {
        Some(t) => text_or_none(t),
        None => current,
    }
}

/// The room that results from applying the change to the room.
pub open spec fn room_after_change(e: RoomChangeEventView, r: RoomView) -> RoomView {
    RoomView {
        room_id: r.room_id,
        display_name: text_changed_or(e.display_name, r.display_name),
        user_id_list: if e.has_user_id_list_changed {
            e.user_id_list
        } else {
            r.user_id_list
        },
        space_id: r.space_id,
        unread_count: changed_or(e.unread_count, r.unread_count),
        is_direct: changed_or(e.is_direct, r.is_direct),
        join_rule: changed_or(e.join_rule, r.join_rule),
        permissions: match e.permissions {
            Some(p) => Some(p),
            None => r.permissions,
        },
        latest_message_timestamp: r.latest_message_timestamp,
        avatar_path: text_changed_or(e.avatar_path, r.avatar_path),
        is_favorite: changed_or(e.is_favorite, r.is_favorite),
        room_settings: match e.room_settings {
            Some(s) => Some(s),
            None => r.room_settings,
        },
    }
}

impl RoomChangeEvent {
    /// Applies the change to the room.
    pub fn update_into_room(self, room: &mut Room)
        ensures
            final(room)@ == room_after_change(self@, old(room)@),
    {
        let ghost e = self@;
        if self.has_user_id_list_changed {
            room.user_id_list = self.user_id_list;
        }
        if let Some(display_name) = self.display_name {
            room.display_name = none_if_empty(display_name);
        }
        if let Some(unread_count) = self.unread_count {
            room.unread_count = unread_count;
        }
        if let Some(join_rule) = self.join_rule {
            room.join_rule = join_rule;
        }
        if let Some(is_direct) = self.is_direct {
            room.is_direct = is_direct;
        }
        if let Some(permissions) = self.permissions {
            room.permissions = Some(permissions);
        }
        if let Some(avatar_path) = self.avatar_path {
            room.avatar_path = none_if_empty(avatar_path);
        }
        if let Some(is_favorite) = self.is_favorite {
            room.is_favorite = is_favorite;
        }
        if let Some(settings) = self.room_settings {
            room.room_settings = Some(settings);
        }
    }
}

// ---------------------------------------------------------------------------
// Users
// ---------------------------------------------------------------------------

/// A user as the application sees it.
#[derive(Debug, PartialEq, Eq)]
pub struct User {
    pub user_id: String,
    pub display_name: Option<String>,
    pub avatar_path: Option<String>,
    pub status: Option<UserStatus>,
}

/// The view of a user.
pub struct UserView {
    pub user_id: Seq<char>,
    pub display_name: Option<Seq<char>>,
    pub avatar_path: Option<Seq<char>>,
    pub status: Option<UserStatusView>,
}

impl View for User {
    type V = UserView;

    open spec fn view(&self) -> UserView {
        UserView {
            user_id: self.user_id@,
            display_name: self.display_name.deep_view(),
            avatar_path: self.avatar_path.deep_view(),
            status: opt_status_view(self.status),
        }
    }
}

impl User {
    /// A copy of the user.
    pub fn copy(&self) -> (r: User)
        ensures
            r == *self,
    {
        User {
            user_id: self.user_id.clone(),
            display_name: clone_opt_str(&self.display_name),
            avatar_path: clone_opt_str(&self.avatar_path),
            status: match &self.status {
                Some(s) => Some(s.copy()),
                None => None,
            },
        }
    }
}

impl Clone for User {
    fn clone(&self) -> (r: Self)
        ensures
            r == *self,
    {
        self.copy()
    }
}

impl Default for User {
    fn default() -> (r: Self)
        ensures
            r.user_id@ == Seq::<char>::empty(),
            r.display_name is None,
            r.avatar_path is None,
            r.status is None,
    {
        User { user_id: String::new(), display_name: None, avatar_path: None, status: None }
    }
}

/// A change of a user, sent to the application. Absent fields stay unchanged.
#[derive(Debug, PartialEq, Eq)]
pub struct UserChangeEvent {
    pub user_id: String,
    pub status: Option<UserStatus>,
    /// The new display name; the empty string removes it.
    pub display_name: Option<String>,
    /// The new avatar path; the empty string removes it.
    pub avatar_path: Option<String>,
}

/// The view of a user change event.
pub struct UserChangeEventView {
    pub user_id: Seq<char>,
    pub status: Option<UserStatusView>,
    pub display_name: Option<Seq<char>>,
    pub avatar_path: Option<Seq<char>>,
}

impl View for UserChangeEvent {
    type V = UserChangeEventView;

    open spec fn view(&self) -> UserChangeEventView {
        UserChangeEventView {
            user_id: self.user_id@,
            status: opt_status_view(self.status),
            display_name: self.display_name.deep_view(),
            avatar_path: self.avatar_path.deep_view(),
        }
    }
}

impl UserChangeEvent {
    /// A copy of the change.
    pub fn copy(&self) -> (r: UserChangeEvent)
        ensures
            r == *self,
    {
        UserChangeEvent {
            user_id: self.user_id.clone(),
            status: match &self.status {
                Some(s) => Some(s.copy()),
                None => None,
            },
            display_name: clone_opt_str(&self.display_name),
            avatar_path: clone_opt_str(&self.avatar_path),
        }
    }
}

impl Clone for UserChangeEvent {
    fn clone(&self) -> (r: Self)
        ensures
            r == *self,
    {
        self.copy()
    }
}

impl Default for UserChangeEvent {
    fn default() -> (r: Self)
        ensures
            r.user_id@ == Seq::<char>::empty(),
            r.status is None,
            r.display_name is None,
            r.avatar_path is None,
    {
        UserChangeEvent { user_id: String::new(), status: None, display_name: None, avatar_path: None }
    }
}

/// The user that results from applying the change to the user.
pub open spec fn user_after_change(e: UserChangeEventView, u: UserView) -> UserView {
    UserView {
        user_id: u.user_id,
        display_name: text_changed_or(e.display_name, u.display_name),
        avatar_path: text_changed_or(e.avatar_path, u.avatar_path),
        status: match e.status {
            Some(s) => Some(s),
            None => u.status,
        },
    }
}

impl UserChangeEvent {
    /// Applies the change to the user.
    pub fn update_into_user(self, user: &mut User)
        ensures
            final(user)@ == user_after_change(self@, old(user)@),
    {
        if let Some(display_name) = self.display_name {
            user.display_name = none_if_empty(display_name);
        }
        if let Some(avatar_path) = self.avatar_path {
            user.avatar_path = none_if_empty(avatar_path);
        }
        if let Some(status) = self.status {
            user.status = Some(status);
        }
    }
}


// ---------------------------------------------------------------------------
// Messages
// ---------------------------------------------------------------------------

/// A text message.
#[derive(Debug, PartialEq, Eq)]
pub struct MessageContentText {
    pub content: String,
}

/// A file attached to a message.
#[derive(Debug, PartialEq, Eq)]
pub struct MessageContentFile {
    pub file_path: String,
    pub file_name: Option<String>,
}

/// An image attached to a message.
#[derive(Debug, PartialEq, Eq)]
pub struct MessageContentImage {
    pub image_path: String,
}

/// An audio file attached to a message.
#[derive(Debug, PartialEq, Eq)]
pub struct MessageContentAudio {
    pub file_path: String,
    pub file_name: Option<String>,
}

/// A video file attached to a message.
#[derive(Debug, PartialEq, Eq)]
pub struct MessageContentVideo {
    pub file_path: String,
    pub file_name: Option<String>,
}

/// A message that shows a change of membership.
#[derive(Debug, PartialEq, Eq)]
pub struct MessageContentMembershipChange {
    /// The code of the membership change.
    pub change: i32,
    pub affected_user_id: String,
}

/// The content of a message.
#[derive(Debug, PartialEq, Eq)]
pub enum MessageContent {
    Text(MessageContentText),
    Image(MessageContentImage),
    File(MessageContentFile),
    AudioFile(MessageContentAudio),
    VideoFile(MessageContentVideo),
    MembershipChange(MessageContentMembershipChange),
}

/// The new content carried by a message change event.
#[derive(Debug, PartialEq, Eq)]
pub enum MessageChangeContent {
    Text(MessageContentText),
    Image(MessageContentImage),
    File(MessageContentFile),
    AudioFile(MessageContentAudio),
    VideoFile(MessageContentVideo),
    MembershipChange(MessageContentMembershipChange),
}

impl MessageContent {
    /// A copy of the content.
    pub fn copy(&self) -> (r: MessageContent)
        ensures
            r == *self,
    {
        match self {
            MessageContent::Text(t) => MessageContent::Text(
                MessageContentText { content: t.content.clone() },
            ),
            MessageContent::Image(i) => MessageContent::Image(
                MessageContentImage { image_path: i.image_path.clone() },
            ),
            MessageContent::File(f) => MessageContent::File(
                MessageContentFile {
                    file_path: f.file_path.clone(),
                    file_name: clone_opt_str(&f.file_name),
                },
            ),
            MessageContent::AudioFile(a) => MessageContent::AudioFile(
                MessageContentAudio {
                    file_path: a.file_path.clone(),
                    file_name: clone_opt_str(&a.file_name),
                },
            ),
            MessageContent::VideoFile(v) => MessageContent::VideoFile(
                MessageContentVideo {
                    file_path: v.file_path.clone(),
                    file_name: clone_opt_str(&v.file_name),
                },
            ),
            MessageContent::MembershipChange(c) => MessageContent::MembershipChange(
                MessageContentMembershipChange {
                    change: c.change,
                    affected_user_id: c.affected_user_id.clone(),
                },
            ),
        }
    }
}

impl Clone for MessageContent {
    fn clone(&self) -> (r: Self)
        ensures
            r == *self,
    {
        self.copy()
    }
}

/// The message content that carries the same data as the change content.
pub open spec fn content_of_change(c: MessageChangeContent) -> MessageContent {
    match c {
        MessageChangeContent::Text(t) => MessageContent::Text(t),
        MessageChangeContent::Image(i) => MessageContent::Image(i),
        MessageChangeContent::File(f) => MessageContent::File(f),
        MessageChangeContent::AudioFile(a) => MessageContent::AudioFile(a),
        MessageChangeContent::VideoFile(v) => MessageContent::VideoFile(v),
        MessageChangeContent::MembershipChange(m) => MessageContent::MembershipChange(m),
    }
}

/// The change content that carries the same data as the message content.
pub open spec fn change_of_content(c: MessageContent) -> MessageChangeContent {
    match c {
        MessageContent::Text(t) => MessageChangeContent::Text(t),
        MessageContent::Image(i) => MessageChangeContent::Image(i),
        MessageContent::File(f) => MessageChangeContent::File(f),
        MessageContent::AudioFile(a) => MessageChangeContent::AudioFile(a),
        MessageContent::VideoFile(v) => MessageChangeContent::VideoFile(v),
        MessageContent::MembershipChange(m) => MessageChangeContent::MembershipChange(m),
    }
}

impl MessageChangeContent {
    /// The message content with the same data.
    pub fn into_message_content(self) -> (r: MessageContent)
        ensures
            r == content_of_change(self),
    {
        match self {
            MessageChangeContent::Text(t) => MessageContent::Text(t),
            MessageChangeContent::Image(i) => MessageContent::Image(i),
        MessageChangeContent::File(f) => MessageContent::File(f),
        MessageChangeContent::AudioFile(a) => MessageContent::AudioFile(a),
        MessageChangeContent::VideoFile(v) => MessageContent::VideoFile(v),
            MessageChangeContent::MembershipChange(m) => MessageContent::MembershipChange(m),
        }
    }

    /// The change content with the same data as the message content.
    pub fn from_message_content(c: MessageContent) -> (r: MessageChangeContent)
        ensures
            r == change_of_content(c),
    {
        match c {
            MessageContent::Text(t) => MessageChangeContent::Text(t),
            MessageContent::Image(i) => MessageChangeContent::Image(i),
        MessageContent::File(f) => MessageChangeContent::File(f),
        MessageContent::AudioFile(a) => MessageChangeContent::AudioFile(a),
        MessageContent::VideoFile(v) => MessageChangeContent::VideoFile(v),
            MessageContent::MembershipChange(m) => MessageChangeContent::MembershipChange(m),
        }
    }
}

/// A reaction of a user to a message.
#[derive(Debug, PartialEq, Eq)]
pub struct Reaction {
    pub message_id: String,
    pub room_id: String,
    /// The emoji of the reaction.
    pub reaction: String,
    pub user_id: Option<String>,
}

impl Clone for Reaction {
    fn clone(&self) -> (r: Self)
        ensures
            r == *self,
    {
        Reaction {
            message_id: self.message_id.clone(),
            room_id: self.room_id.clone(),
            reaction: self.reaction.clone(),
            user_id: clone_opt_str(&self.user_id),
        }
    }
}

/// A chat message.
#[derive(Debug, PartialEq, Eq)]
pub struct Message {
    pub room_id: String,
    pub message_id: String,
    pub sender_id: String,
    pub timestamp: u64,
    pub related_message_id: Option<String>,
    pub is_pinned: bool,
    pub is_encrypted: bool,
    pub reactions: Vec<Reaction>,
    pub mentioned_user_ids: Vec<String>,
    pub content: Option<MessageContent>,
}

impl Default for Message {
    fn default() -> (r: Self)
        ensures
            r.room_id@ == Seq::<char>::empty(),
            r.message_id@ == Seq::<char>::empty(),
            r.sender_id@ == Seq::<char>::empty(),
            r.timestamp == 0,
            r.related_message_id is None,
            !r.is_pinned,
            !r.is_encrypted,
            r.reactions@ == Seq::<Reaction>::empty(),
            r.mentioned_user_ids@ == Seq::<String>::empty(),
            r.content is None,
    {
        Message {
            room_id: String::new(),
            message_id: String::new(),
            sender_id: String::new(),
            timestamp: 0,
            related_message_id: None,
            is_pinned: false,
            is_encrypted: false,
            reactions: Vec::new(),
            mentioned_user_ids: Vec::new(),
            content: None,
        }
    }
}

/// A copy of a list of reactions.
pub fn clone_reactions(v: &Vec<Reaction>) -> (r: Vec<Reaction>)
    ensures
        r@ == v@,
{
    let mut r: Vec<Reaction> = Vec::new();
    let mut i: usize = 0;
    while i < v.len()
        invariant
            i <= v@.len(),
            r@ == v@.take(i as int),
        decreases v.len() - i,
    {
        r.push(v[i].clone());
        proof {
            assert(r@ =~= v@.take((i + 1) as int));
        }
        i = i + 1;
    }
    proof {
        assert(v@.take(i as int) =~= v@);
    }
    r
}

/// Both messages hold the same data.
pub open spec fn same_message(a: Message, b: Message) -> bool {
    &&& a.room_id == b.room_id
    &&& a.message_id == b.message_id
    &&& a.sender_id == b.sender_id
    &&& a.timestamp == b.timestamp
    &&& a.related_message_id == b.related_message_id
    &&& a.is_pinned == b.is_pinned
    &&& a.is_encrypted == b.is_encrypted
    &&& a.reactions@ == b.reactions@
    &&& a.mentioned_user_ids@ == b.mentioned_user_ids@
    &&& a.content == b.content
}

impl Message {
    /// A copy of the message.
    pub fn copy(&self) -> (r: Message)
        ensures
            same_message(r, *self),
    {
        Message {
            room_id: self.room_id.clone(),
            message_id: self.message_id.clone(),
            sender_id: self.sender_id.clone(),
            timestamp: self.timestamp,
            related_message_id: clone_opt_str(&self.related_message_id),
            is_pinned: self.is_pinned,
            is_encrypted: self.is_encrypted,
            reactions: clone_reactions(&self.reactions),
            mentioned_user_ids: clone_str_vec(&self.mentioned_user_ids),
            content: match &self.content {
                Some(c) => Some(c.copy()),
                None => None,
            },
        }
    }
}

impl Clone for Message {
    fn clone(&self) -> (r: Self)
        ensures
            same_message(r, *self),
    {
        self.copy()
    }
}

/// A change of a message, sent to the application. Absent fields stay
/// unchanged; the mentions change only where their flag says so.
#[derive(Debug, PartialEq, Eq)]
pub struct MessageChangeEvent {
    pub room_id: String,
    pub message_id: String,
    pub is_pinned: Option<bool>,
    pub is_encrypted: Option<bool>,
    pub has_mentioned_user_ids_changed: bool,
    pub mentioned_user_ids: Vec<String>,
    pub content: Option<MessageChangeContent>,
}

impl Default for MessageChangeEvent {
    fn default() -> (r: Self)
        ensures
            r.room_id@ == Seq::<char>::empty(),
            r.message_id@ == Seq::<char>::empty(),
            r.is_pinned is None,
            r.is_encrypted is None,
            !r.has_mentioned_user_ids_changed,
            r.mentioned_user_ids@ == Seq::<String>::empty(),
            r.content is None,
    {
        MessageChangeEvent {
            room_id: String::new(),
            message_id: String::new(),
            is_pinned: None,
            is_encrypted: None,
            has_mentioned_user_ids_changed: false,
            mentioned_user_ids: Vec::new(),
            content: None,
        }
    }
}

/// The message that results from applying the change to the message.
pub open spec fn message_after_change(e: MessageChangeEvent, m: Message) -> Message {
    Message {
        is_pinned: changed_or(e.is_pinned, m.is_pinned),
        is_encrypted: changed_or(e.is_encrypted, m.is_encrypted),
        mentioned_user_ids: if e.has_mentioned_user_ids_changed {
            e.mentioned_user_ids
        } else {
            m.mentioned_user_ids
        },
        content: match e.content {
            Some(c) => Some(content_of_change(c)),
            None => m.content,
        },
        ..m
    }
}

impl MessageChangeEvent {
    /// Applies the change to the message.
    pub fn update_into_message(self, message: &mut Message)
        ensures
            *final(message) == message_after_change(self, *old(message)),
    {
        let ghost e = self;
        if let Some(is_pinned) = self.is_pinned {
            message.is_pinned = is_pinned;
        }
        if let Some(is_encrypted) = self.is_encrypted {
            message.is_encrypted = is_encrypted;
        }
        if self.has_mentioned_user_ids_changed {
            message.mentioned_user_ids = self.mentioned_user_ids;
        }
        if let Some(content) = self.content {
            message.content = Some(content.into_message_content());
        }
    }
}

/// An error reported to the application: the code of its type and an optional
/// message.
#[derive(Debug, PartialEq, Eq)]
pub struct Error {
    pub error_type: i32,
    pub error_string: Option<String>,
}

impl Clone for Error {
    fn clone(&self) -> (r: Self)
        ensures
            r == *self,
    {
        Error { error_type: self.error_type, error_string: clone_opt_str(&self.error_string) }
    }
}


impl RoomChangeEvent {
    /// A copy of the change.
    pub fn copy(&self) -> (r: RoomChangeEvent)
        ensures
            r@ == self@,
    {
        RoomChangeEvent {
            room_id: self.room_id.clone(),
            has_user_id_list_changed: self.has_user_id_list_changed,
            has_typing_user_id_list_changed: self.has_typing_user_id_list_changed,
            user_id_list: self.user_id_list.copy(),
            typing_user_id_list: clone_str_vec(&self.typing_user_id_list),
            display_name: clone_opt_str(&self.display_name),
            unread_count: self.unread_count,
            join_rule: self.join_rule,
            is_direct: self.is_direct,
            permissions: self.permissions,
            avatar_path: clone_opt_str(&self.avatar_path),
            is_favorite: self.is_favorite,
            room_settings: self.room_settings,
        }
    }
}

impl Clone for RoomChangeEvent {
    fn clone(&self) -> (r: Self)
        ensures
            r@ == self@,
    {
        self.copy()
    }
}

/// The list of the user's rooms.
#[derive(Debug, PartialEq, Eq)]
pub struct RoomListResponse {
    pub room_list: Vec<Room>,
}

/// The user left a room.
#[derive(Debug, PartialEq, Eq)]
pub struct RoomLeftEvent {
    pub room_id: String,
}

/// Where an event originates.
#[derive(Debug, Clone, Copy, PartialEq, Eq, Structural)]
pub enum EventOrigin {
    ApplicationOrigin,
    BackendOrigin,
}

impl EventOrigin {
    /// The code of each origin.
    pub open spec fn spec_code(self) -> i32 {
        match self {
            EventOrigin::ApplicationOrigin => 0,
            EventOrigin::BackendOrigin => 1,
        }
    }

    /// The code of the origin.
    pub fn to_i32(self) -> (c: i32)
        ensures
            c == self.spec_code(),
    {
        match self {
            EventOrigin::ApplicationOrigin => 0,
            EventOrigin::BackendOrigin => 1,
        }
    }
}

/// A message was removed.
#[derive(Debug, PartialEq, Eq)]
pub struct MessageRemoveEvent {
    pub message_id: String,
    pub room_id: String,
    /// The code of the event's origin.
    pub origin: i32,
}

/// The state of the client that a status update reports.
#[derive(Debug, Clone, Copy, PartialEq, Eq, Structural)]
pub enum StatusCode {
    Connected,
    LoggedIn,
    LoggedOut,
    NetworkUnavailable,
    SessionInvalid,
}

impl StatusCode {
    /// The code of each state.
    pub open spec fn spec_code(self) -> i32 {
        match self {
            StatusCode::Connected => 0,
            StatusCode::LoggedIn => 1,
            StatusCode::LoggedOut => 2,
            StatusCode::NetworkUnavailable => 3,
            StatusCode::SessionInvalid => 4,
        }
    }

    /// The code of the state.
    pub fn to_i32(self) -> (c: i32)
        ensures
            c == self.spec_code(),
    {
        match self {
            StatusCode::Connected => 0,
            StatusCode::LoggedIn => 1,
            StatusCode::LoggedOut => 2,
            StatusCode::NetworkUnavailable => 3,
            StatusCode::SessionInvalid => 4,
        }
    }
}

/// A change of the client's state.
#[derive(Debug, PartialEq, Eq)]
pub struct StatusUpdate {
    /// The code of the new state.
    pub code: i32,
}

/// A way to log in.
#[derive(Debug, Clone, Copy, PartialEq, Eq, Structural)]
pub enum LoginFlow {
    UsernamePassword,
    Sso,
}

impl LoginFlow {
    /// The code of each way to log in.
    pub open spec fn spec_code(self) -> i32 {
        match self {
            LoginFlow::UsernamePassword => 0,
            LoginFlow::Sso => 1,
        }
    }

    /// The code of the way to log in.
    pub fn to_i32(self) -> (c: i32)
        ensures
            c == self.spec_code(),
    {
        match self {
            LoginFlow::UsernamePassword => 0,
            LoginFlow::Sso => 1,
        }
    }
}

/// The ways to log in that the server offers.
#[derive(Debug, PartialEq, Eq)]
pub struct LoginFlowsResponse {
    /// The codes of the ways to log in.
    pub login_flows: Vec<i32>,
}

/// The identity providers for single sign-on.
#[derive(Debug, PartialEq, Eq)]
pub struct IdentityProvidersResponse {
    pub identity_providers: Vec<String>,
}

/// Where to log in with single sign-on.
#[derive(Debug, PartialEq, Eq)]
pub struct LoginSsoResponse {
    pub login_url: String,
}

/// How a verification ended.
#[derive(Debug, PartialEq, Eq)]
pub enum VerificationEndResult {
    /// Whether the verification succeeded.
    Successful(bool),
}

/// A verification ended.
#[derive(Debug, PartialEq, Eq)]
pub struct VerificationEndEvent {
    pub verification_flow_id: Option<String>,
    pub result: Option<VerificationEndResult>,
}

/// A cross-signing verification started.
#[derive(Debug, PartialEq, Eq)]
pub struct CrossSigningStartResponse {
    pub verification_flow_id: String,
}

/// The users found by a search.
#[derive(Debug, PartialEq, Eq)]
pub struct UserSearchResponse {
    pub user_list: Vec<User>,
}

/// A room listed in the public room directory.
#[derive(Debug, PartialEq, Eq)]
pub struct PublicRoom {
    pub room_id: String,
    pub display_name: Option<String>,
    pub num_joined_members: u32,
    pub topic: Option<String>,
    /// The code of the room's join rule.
    pub join_rule: i32,
}

/// The rooms of the public room directory.
#[derive(Debug, PartialEq, Eq)]
pub struct PublicRoomListResponse {
    pub room_list: Vec<PublicRoom>,
}

/// A message was sent.
#[derive(Debug, PartialEq, Eq)]
pub struct MessageSendResponse {
    pub message_id: String,
}

/// The global settings of the user.
#[derive(Debug, PartialEq, Eq)]
pub struct GlobalSettings {
    /// The code of the global notification setting.
    pub notification_setting: i32,
}

/// The end of a response sent in parts.
#[derive(Debug, PartialEq, Eq)]
pub struct MultipartEnd {}

/// What a response or event sent to the application carries.
#[derive(Debug, PartialEq, Eq)]
pub enum ResponseContent {
    Error(Error),
    StatusUpdate(StatusUpdate),
    LoginFlowsResponse(LoginFlowsResponse),
    IdentityProvidersResponse(IdentityProvidersResponse),
    LoginSsoResponse(LoginSsoResponse),
    VerificationEndEvent(VerificationEndEvent),
    CrossSigningStartResponse(CrossSigningStartResponse),
    UserResponse(User),
    UserSearchResponse(UserSearchResponse),
    UserChangeEvent(UserChangeEvent),
    PublicRoomListResponse(PublicRoomListResponse),
    RoomListResponse(RoomListResponse),
    RoomCreatedEvent(Room),
    RoomLeftEvent(RoomLeftEvent),
    RoomChangeEvent(RoomChangeEvent),
    MessageSendResponse(MessageSendResponse),
    MessageReceivedEvent(Message),
    MessageChangeEvent(MessageChangeEvent),
    MessageRemoveEvent(MessageRemoveEvent),
    ReactionCreatedEvent(Reaction),
    ReactionRemovedEvent(Reaction),
    GlobalSettingsEvent(GlobalSettings),
    MultipartEnd(MultipartEnd),
}

/// A response or event sent to the application; the tag names the request
/// that it answers, 0 an event of its own.
#[derive(Debug, PartialEq, Eq)]
pub struct ResponseContainer {
    pub tag: u64,
    pub content: Option<ResponseContent>,
}

} // verus!
