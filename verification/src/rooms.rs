//! Rooms as the chat protocol shows them, assembled from what the server
//! tells of them, and the requests that create rooms.
use vstd::prelude::*;

use crate::bridge::{IntoChat, IntoMatrix, JoinRule, JoinRuleKind, MembershipState, matrix_join_rule_to_visibility};
use crate::chat::{PublicRoom, Room, RoomJoinRule, RoomPermissions, RoomSettings, UserRoomState};
use crate::notifications::{matrix_notification_mode_to_chat_notification_settings, setting_of_mode, RoomNotificationMode};
use crate::strmap::StrMap;

verus! {

/// The room state of a member, as the protocol has it.
pub open spec fn member_state(m: MembershipState) -> UserRoomState {
    match m {
        MembershipState::Ban => UserRoomState::Banned,
        MembershipState::Invite => UserRoomState::Invited,
        MembershipState::Join => UserRoomState::Joined,
        MembershipState::Knock => UserRoomState::Knocked,
        _ => UserRoomState::Unjoined,
    }
}

/// The members with the code of each one's room state; where a member is
/// listed twice, the later entry counts.
pub open spec fn members_map(members: Seq<(String, MembershipState)>) -> Map<Seq<char>, i32>
    decreases members.len(),
{
    if members.len() == 0 {
        Map::empty()
    } else {
        let last = members.last();
        members_map(members.drop_last()).insert(last.0@, member_state(last.1).spec_code())
    }
}

/// The members of a room with the code of each one's room state.
pub fn get_room_members(members: Vec<(String, MembershipState)>) -> (r: StrMap<i32>)
    ensures
        r@ == members_map(members@),
{
    let ghost all = members@;
    let mut result: StrMap<i32> = StrMap::new();
    let mut rest = members;
    let mut taken: Vec<(String, MembershipState)> = Vec::new();
    let mut i: usize = 0;
    let n = rest.len();
    proof {
        assert(all.take(0) =~= Seq::<(String, MembershipState)>::empty());
    }
    while i < n
        invariant
            n == all.len(),
            i <= n,
            rest@ == all.skip(i as int),
            result@ == members_map(all.take(i as int)),
        decreases n - i,
    {
        let (user_id, membership) = rest.remove(0);
        proof {
            assert(all.take((i + 1) as int).drop_last() =~= all.take(i as int));
            assert(all.take((i + 1) as int).last() == all[i as int]);
            assert(all.skip((i + 1) as int) =~= all.skip(i as int).skip(1));
        }
        let state: UserRoomState = membership.into_chat();
        result.insert(user_id, state.to_i32());
        i = i + 1;
    }
    proof {
        assert(all.take(n as int) =~= all);
    }
    result
}

/// The room state that the protocol gives a member of each membership: a
/// ban is banned, an invitation invited, a join joined, a knock knocked,
/// and a member who left, or whose membership the server names otherwise,
/// is not joined.
pub open spec fn state_code_of_membership(m: MembershipState) -> i32 {
    match m {
        MembershipState::Ban => UserRoomState::Banned.spec_code(),
        MembershipState::Invite => UserRoomState::Invited.spec_code(),
        MembershipState::Join => UserRoomState::Joined.spec_code(),
        MembershipState::Knock => UserRoomState::Knocked.spec_code(),
        MembershipState::Leave => UserRoomState::Unjoined.spec_code(),
        MembershipState::Custom => UserRoomState::Unjoined.spec_code(),
    }
}

/// The member list holds exactly the listed members, and each member's state
/// is the one of the member's last listed membership: in particular a member
/// who left is not joined.
pub proof fn lemma_member_states(members: Seq<(String, MembershipState)>, i: int, id: Seq<char>)
    ensures
        members_map(members).contains_key(id) <==> exists|j: int| 0 <= j < members.len() && #[trigger] members[j].0@
            == id,
        0 <= i < members.len() && (forall|j: int| i < j < members.len() ==> #[trigger] members[j].0@ != members[i].0@)
            ==> members_map(members)[members[i].0@] == state_code_of_membership(members[i].1),
    decreases members.len(),
{
    if members.len() > 0 {
        let init = members.drop_last();
        lemma_member_states(init, i, id);
        if members_map(members).contains_key(id) && members.last().0@ != id {
            let j = choose|j: int| 0 <= j < init.len() && #[trigger] init[j].0@ == id;
            assert(members[j].0@ == id);
        }
        if members_map(members).contains_key(id) && members.last().0@ == id {
            assert(members[members.len() - 1].0@ == id);
        }
        if exists|j: int| 0 <= j < members.len() && #[trigger] members[j].0@ == id {
            let j = choose|j: int| 0 <= j < members.len() && #[trigger] members[j].0@ == id;
            if j < init.len() {
                assert(init[j].0@ == id);
            }
        }
        if 0 <= i < members.len() && (forall|j: int| i < j < members.len() ==> #[trigger] members[j].0@
            != members[i].0@) {
            if i < init.len() {
                assert(init[i] == members[i]);
                assert forall|j: int| i < j < init.len() implies #[trigger] init[j].0@ != init[i].0@ by {
                    assert(init[j] == members[j]);
                }
                assert(members[members.len() - 1].0@ != members[i].0@);
            }
        }
    }
}

/// The user's permissions in a room, from what the room's power levels
/// allow: editing takes changing both the name and the join rules.
pub fn get_room_permissions(
    can_send_name: bool,
    can_send_join_rules: bool,
    can_invite: bool,
    can_kick: bool,
    can_ban: bool,
) -> (r: RoomPermissions)
    ensures
        r == (RoomPermissions {
            can_edit: can_send_name && can_send_join_rules,
            can_invite,
            can_kick,
            can_ban,
        }),
{
    RoomPermissions { can_edit: can_send_name && can_send_join_rules, can_invite, can_kick, can_ban }
}

/// The settings of a room with the notification mode it has of its own, if
/// any.
pub fn get_room_settings(mode: Option<RoomNotificationMode>) -> (r: RoomSettings)
    ensures
        r.notification_setting == match mode {
            Some(m) => Some(setting_of_mode(m).spec_code()),
            None => None,
        },
{
    let notification_setting = match mode {
        Some(m) => Some(matrix_notification_mode_to_chat_notification_settings(m).to_i32()),
        None => None,
    };
    RoomSettings { notification_setting }
}

/// Whether the server must be asked whether the room is direct: rooms with
/// more than two members are not.
pub fn needs_direct_check(member_count: usize) -> (r: bool)
    ensures
        r == (member_count <= 2),
{
    member_count <= 2
}

/// What the server tells of a room, for the chat protocol.
pub struct RoomParts {
    pub room_id: String,
    /// The room's display name; none where it is empty.
    pub display_name: Option<String>,
    /// The number of unread messages.
    pub unread_messages: u64,
    pub members: StrMap<i32>,
    /// The room's join rule, where it has one.
    pub join_rule: Option<JoinRule>,
    pub latest_message_timestamp: Option<u64>,
    pub avatar_path: Option<String>,
    /// Whether the room is direct, as the server tells where asked.
    pub is_direct: bool,
    pub permissions: RoomPermissions,
    pub is_favourite: bool,
    pub room_settings: RoomSettings,
}

/// The join rule that a room without one is taken to have.
pub open spec fn join_rule_or_invite(j: Option<JoinRule>) -> JoinRule {
    match j {
        Some(r) => r,
        None => JoinRule::Invite,
    }
}

/// The chat room for what the server tells of it: the unread count is
/// capped at the largest `u32`, a room without join rule is invite only,
/// and a room with more than two members is never direct.
pub fn assemble_chat_room(parts: RoomParts) -> (r: Room)
    ensures
        r.room_id == parts.room_id,
        r.display_name == parts.display_name,
        r.unread_count == if parts.unread_messages > u32::MAX {
            u32::MAX
        } else {
            parts.unread_messages as u32
        },
        r.user_id_list == parts.members,
        r.space_id@.len() == 0,
        r.is_direct == (parts.members.spec_len() <= 2 && parts.is_direct),
        r.join_rule == crate::bridge::chat_join_rule(join_rule_or_invite(parts.join_rule)).spec_code(),
        r.permissions == Some(parts.permissions),
        r.latest_message_timestamp == parts.latest_message_timestamp,
        r.avatar_path == parts.avatar_path,
        r.is_favorite == parts.is_favourite,
        r.room_settings == Some(parts.room_settings),
{
    let unread_count: u32 = if parts.unread_messages > u32::MAX as u64 {
        u32::MAX
    } else {
        parts.unread_messages as u32
    };
    let join_rule = match parts.join_rule {
        Some(j) => j,
        None => JoinRule::Invite,
    };
    let chat_rule: RoomJoinRule = join_rule.into_chat();
    let member_count = parts.members.len();
    let is_direct = if needs_direct_check(member_count) {
        parts.is_direct
    } else {
        false
    };
    Room {
        room_id: parts.room_id,
        display_name: parts.display_name,
        user_id_list: parts.members,
        space_id: Vec::new(),
        unread_count,
        is_direct,
        join_rule: chat_rule.to_i32(),
        permissions: Some(parts.permissions),
        latest_message_timestamp: parts.latest_message_timestamp,
        avatar_path: parts.avatar_path,
        is_favorite: parts.is_favourite,
        room_settings: Some(parts.room_settings),
    }
}

/// A room of the public directory, as the server lists it.
pub struct PublicRoomsChunk {
    pub room_id: String,
    pub name: Option<String>,
    pub num_joined_members: u64,
    pub topic: Option<String>,
    pub join_rule: JoinRuleKind,
}

/// The public room that the protocol shows for a listed room.
pub open spec fn public_room_of(c: PublicRoomsChunk) -> PublicRoom {
    PublicRoom {
        room_id: c.room_id,
        display_name: c.name,
        num_joined_members: if c.num_joined_members > u32::MAX {
            u32::MAX
        } else {
            c.num_joined_members as u32
        },
        topic: c.topic,
        join_rule: match c.join_rule {
            JoinRuleKind::Knock => RoomJoinRule::Knock,
            JoinRuleKind::Public => RoomJoinRule::Public,
            _ => RoomJoinRule::Invite,
        }.spec_code(),
    }
}

/// The public rooms that the protocol shows for the listed rooms, in order.
pub fn convert_public_rooms_chunk(chunk: Vec<PublicRoomsChunk>) -> (r: Vec<PublicRoom>)
    ensures
        r@.len() == chunk@.len(),
        forall|i: int| 0 <= i < chunk@.len() ==> #[trigger] r@[i] == public_room_of(chunk@[i]),
{
    let ghost all = chunk@;
    let mut result: Vec<PublicRoom> = Vec::new();
    let mut rest = chunk;
    let n = rest.len();
    let mut i: usize = 0;
    while i < n
        invariant
            n == all.len(),
            i <= n,
            rest@ == all.skip(i as int),
            result@.len() == i,
            forall|j: int| 0 <= j < i ==> #[trigger] result@[j] == public_room_of(all[j]),
        decreases n - i,
    {
        let room = rest.remove(0);
        proof {
            assert(room == all[i as int]);
            assert(all.skip((i + 1) as int) =~= all.skip(i as int).skip(1));
        }
        let num_joined_members: u32 = if room.num_joined_members > u32::MAX as u64 {
            u32::MAX
        } else {
            room.num_joined_members as u32
        };
        let join_rule: RoomJoinRule = room.join_rule.into_chat();
        result.push(
            PublicRoom {
                room_id: room.room_id,
                display_name: room.name,
                num_joined_members,
                topic: room.topic,
                join_rule: join_rule.to_i32(),
            },
        );
        i = i + 1;
    }
    result
}

/// What a request to create a room asks of the server. Every room is
/// encrypted with the recommended defaults and shares its history with its
/// members.
pub struct CreateRoomRequest {
    pub name: Option<String>,
    pub invite: Vec<String>,
    /// Whether the room is listed in the public directory.
    pub public: bool,
    pub join_rule: JoinRule,
    /// Whether the room is set up as a trusted private chat.
    pub trusted_private_chat: bool,
    pub is_direct: bool,
}

/// The request for a group room with the name, the invited users and the
/// join rule; rooms that anyone may join or knock on are listed.
pub fn create_room_request(display_name: Option<String>, invitees: Vec<String>, join_rule: RoomJoinRule) -> (r:
    CreateRoomRequest)
    ensures
        r.name == display_name,
        r.invite == invitees,
        r.join_rule == crate::bridge::matrix_join_rule(join_rule),
        r.public == (join_rule == RoomJoinRule::Public || join_rule == RoomJoinRule::Knock),
        !r.trusted_private_chat,
        !r.is_direct,
{
    let join_rule: JoinRule = join_rule.into_matrix();
    let public = matrix_join_rule_to_visibility(join_rule);
    CreateRoomRequest {
        name: display_name,
        invite: invitees,
        public,
        join_rule,
        trusted_private_chat: false,
        is_direct: false,
    }
}

/// The request for a direct room with the user: invite only, set up as a
/// trusted private chat.
pub fn create_dm_room_request(display_name: Option<String>, invitee: String) -> (r: CreateRoomRequest)
    ensures
        r.name == display_name,
        r.invite@ == seq![invitee],
        r.join_rule == JoinRule::Invite,
        !r.public,
        r.trusted_private_chat,
        r.is_direct,
{
    let mut request = create_room_request(display_name, vec![invitee], RoomJoinRule::Invite);
    request.trusted_private_chat = true;
    request.is_direct = true;
    request
}

} // verus!
