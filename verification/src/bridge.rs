//! Conversions between the server's values and those of the chat protocol.
//!
//! The server's values are held here as plain values of their own: the
//! variants that the conversions tell apart, and one more for the rest.
use vstd::prelude::*;

use crate::chat::{MembershipChange, PresenceState, RoomJoinRule, UserRoomState};

verus! {

/// Why the client failed a request.
#[derive(Debug, PartialEq, Eq)]
pub enum ClientError {
    NotImplemented,
    NotInitialized,
    AlreadyInitialized,
    NotLoggedIn,
    AlreadyLoggedIn,
    Network,
    Timeout,
    Authorization,
    InvalidUrl,
    InvalidUserId,
    UserNotFound,
    InvalidRoomId,
    RoomNotFound,
    InvalidMessageId,
    MessageNotFound,
    ReactionNotFound,
    VerificationFlowNotFound,
    UnsupportedCrossSigningMethod,
    /// A value has no counterpart on the other side.
    ConversionError,
    /// The session was logged out on the server.
    LoggedOut,
    /// The server or its client library failed, with the reason.
    MatrixSdkError(String),
    /// An internal failure, with its reason.
    InternalError(String),
}

impl ClientError {
    /// An internal failure with the reason.
    pub fn internal(msg: String) -> (r: ClientError)
        ensures
            r == ClientError::InternalError(msg),
    {
        ClientError::InternalError(msg)
    }
}

/// Converts a server value into the protocol's value.
pub trait IntoChat<T> {
    fn into_chat(self) -> T;
}

/// Converts a server value into the protocol's value, where it has one.
pub trait TryIntoChat<T> {
    fn try_into_chat(self) -> Result<T, ClientError>;
}

/// Converts a protocol value into the server's value.
pub trait IntoMatrix<T> {
    fn into_matrix(self) -> T;
}

/// Converts a protocol value into the server's value, where it has one.
pub trait TryIntoMatrix<T> {
    fn try_into_matrix(self) -> Result<T, ClientError>;
}

/// The server's rule for who may join a room.
#[derive(Debug, Clone, Copy, PartialEq, Eq, Structural)]
pub enum JoinRule {
    Invite,
    Knock,
    KnockRestricted,
    Private,
    Public,
    Restricted,
    /// A rule that the server names otherwise.
    Custom,
}

/// The kind of the server's rule for who may join a room.
#[derive(Debug, Clone, Copy, PartialEq, Eq, Structural)]
pub enum JoinRuleKind {
    Invite,
    Knock,
    KnockRestricted,
    Private,
    Public,
    Restricted,
    /// A kind that the server names otherwise.
    Custom,
}

/// The protocol's join rule for the server's: invite, knock and public are
/// kept, every other rule becomes invite.
pub open spec fn chat_join_rule(rule: JoinRule) -> RoomJoinRule {
    match rule {
        JoinRule::Knock => RoomJoinRule::Knock,
        JoinRule::Public => RoomJoinRule::Public,
        _ => RoomJoinRule::Invite,
    }
}

impl IntoChat<RoomJoinRule> for JoinRule {
    fn into_chat(self) -> (r: RoomJoinRule)
        ensures
            r == chat_join_rule(self),
    {
        match self {
            JoinRule::Invite => RoomJoinRule::Invite,
            JoinRule::Knock => RoomJoinRule::Knock,
            JoinRule::Public => RoomJoinRule::Public,
            _ => RoomJoinRule::Invite,
        }
    }
}

/// The server's join rule for the protocol's.
pub open spec fn matrix_join_rule(rule: RoomJoinRule) -> JoinRule {
    match rule {
        RoomJoinRule::Invite => JoinRule::Invite,
        RoomJoinRule::Knock => JoinRule::Knock,
        RoomJoinRule::Public => JoinRule::Public,
    }
}

impl IntoMatrix<JoinRule> for RoomJoinRule {
    fn into_matrix(self) -> (r: JoinRule)
        ensures
            r == matrix_join_rule(self),
    {
        match self {
            RoomJoinRule::Invite => JoinRule::Invite,
            RoomJoinRule::Knock => JoinRule::Knock,
            RoomJoinRule::Public => JoinRule::Public,
        }
    }
}

/// Converting a protocol join rule to the server's and back gives it back.
pub proof fn lemma_join_rule_round_trip(rule: RoomJoinRule)
    ensures
        chat_join_rule(matrix_join_rule(rule)) == rule,
{
}

impl IntoChat<RoomJoinRule> for JoinRuleKind {
    fn into_chat(self) -> (r: RoomJoinRule)
        ensures
            r == match self {
                JoinRuleKind::Knock => RoomJoinRule::Knock,
                JoinRuleKind::Public => RoomJoinRule::Public,
                _ => RoomJoinRule::Invite,
            },
    {
        match self {
            JoinRuleKind::Invite => RoomJoinRule::Invite,
            JoinRuleKind::Knock => RoomJoinRule::Knock,
            JoinRuleKind::Public => RoomJoinRule::Public,
            _ => RoomJoinRule::Invite,
        }
    }
}

/// Whether a room with the rule is listed in the public directory: rooms
/// that anyone may join or knock on are.
pub fn matrix_join_rule_to_visibility(join_rule: JoinRule) -> (public: bool)
    ensures
        public == (join_rule == JoinRule::Public || join_rule == JoinRule::Knock),
{
    join_rule == JoinRule::Public || join_rule == JoinRule::Knock
}

/// A user's membership in a room, as the server keeps it.
#[derive(Debug, Clone, Copy, PartialEq, Eq, Structural)]
pub enum MembershipState {
    Ban,
    Invite,
    Join,
    Knock,
    Leave,
    /// A state that the server names otherwise.
    Custom,
}

impl IntoChat<UserRoomState> for MembershipState {
    fn into_chat(self) -> (r: UserRoomState)
        ensures
            r == match self {
                MembershipState::Ban => UserRoomState::Banned,
                MembershipState::Invite => UserRoomState::Invited,
                MembershipState::Join => UserRoomState::Joined,
                MembershipState::Knock => UserRoomState::Knocked,
                _ => UserRoomState::Unjoined,
            },
    {
        match self {
            MembershipState::Ban => UserRoomState::Banned,
            MembershipState::Invite => UserRoomState::Invited,
            MembershipState::Join => UserRoomState::Joined,
            MembershipState::Knock => UserRoomState::Knocked,
            MembershipState::Leave => UserRoomState::Unjoined,
            _ => UserRoomState::Unjoined,
        }
    }
}

/// The room state of a member: a state that the server names otherwise is
/// taken for joined.
pub fn membership_state_to_user_room_state(membership_state: &MembershipState) -> (r: UserRoomState)
    ensures
        r == match *membership_state {
            MembershipState::Ban => UserRoomState::Banned,
            MembershipState::Invite => UserRoomState::Invited,
            MembershipState::Join => UserRoomState::Joined,
            MembershipState::Knock => UserRoomState::Knocked,
            MembershipState::Leave => UserRoomState::Unjoined,
            MembershipState::Custom => UserRoomState::Joined,
        },
{
    match membership_state {
        MembershipState::Ban => UserRoomState::Banned,
        MembershipState::Invite => UserRoomState::Invited,
        MembershipState::Join => UserRoomState::Joined,
        MembershipState::Knock => UserRoomState::Knocked,
        MembershipState::Leave => UserRoomState::Unjoined,
        MembershipState::Custom => UserRoomState::Joined,
    }
}

/// A user's presence, as the server keeps it.
#[derive(Debug, Clone, Copy, PartialEq, Eq, Structural)]
pub enum MatrixPresenceState {
    Offline,
    Online,
    Unavailable,
    /// A presence that the server names otherwise.
    Custom,
}

/// The protocol's presence for the server's: unavailable and unknown
/// presences are away.
pub open spec fn chat_presence(state: MatrixPresenceState) -> PresenceState {
    match state {
        MatrixPresenceState::Offline => PresenceState::Offline,
        MatrixPresenceState::Online => PresenceState::Online,
        _ => PresenceState::Away,
    }
}

/// The server's presence for the protocol's; an unknown presence has none.
pub open spec fn matrix_presence(state: PresenceState) -> Option<MatrixPresenceState> {
    match state {
        PresenceState::Away => Some(MatrixPresenceState::Unavailable),
        PresenceState::Offline => Some(MatrixPresenceState::Offline),
        PresenceState::Online => Some(MatrixPresenceState::Online),
        PresenceState::Unknown => None,
    }
}

impl IntoChat<PresenceState> for MatrixPresenceState {
    fn into_chat(self) -> (r: PresenceState)
        ensures
            r == chat_presence(self),
    {
        matrix_presence_state_to_chat(self)
    }
}

impl TryIntoMatrix<MatrixPresenceState> for PresenceState {
    fn try_into_matrix(self) -> (r: Result<MatrixPresenceState, ClientError>)
        ensures
            match matrix_presence(self) {
                Some(p) => r == Ok::<MatrixPresenceState, ClientError>(p),
                None => r == Err::<MatrixPresenceState, ClientError>(ClientError::ConversionError),
            },
    {
        match chat_presence_state_to_matrix(self) {
            Some(p) => Ok(p),
            None => Err(ClientError::ConversionError),
        }
    }
}

/// The protocol's presence for the server's.
pub fn matrix_presence_state_to_chat(state: MatrixPresenceState) -> (r: PresenceState)
    ensures
        r == chat_presence(state),
{
    match state {
        MatrixPresenceState::Offline => PresenceState::Offline,
        MatrixPresenceState::Online => PresenceState::Online,
        MatrixPresenceState::Unavailable => PresenceState::Away,
        _ => PresenceState::Away,
    }
}

/// The server's presence for the protocol's, where it has one.
pub fn chat_presence_state_to_matrix(state: PresenceState) -> (r: Option<MatrixPresenceState>)
    ensures
        r == matrix_presence(state),
{
    match state {
        PresenceState::Away => Some(MatrixPresenceState::Unavailable),
        PresenceState::Offline => Some(MatrixPresenceState::Offline),
        PresenceState::Online => Some(MatrixPresenceState::Online),
        PresenceState::Unknown => None,
    }
}

/// Every known presence goes to the server and comes back unchanged.
pub proof fn lemma_presence_round_trip(state: PresenceState)
    ensures
        state != PresenceState::Unknown ==> (matrix_presence(state) matches Some(p) && chat_presence(p) == state),
        state == PresenceState::Unknown ==> matrix_presence(state) is None,
{
}

/// A change of membership, as the server describes it.
#[derive(Debug, Clone, Copy, PartialEq, Eq, Structural)]
pub enum MatrixMembershipChange {
    Unchanged,
    Error,
    Joined,
    Left,
    Banned,
    Unbanned,
    Kicked,
    Invited,
    KickedAndBanned,
    InvitationAccepted,
    InvitationRejected,
    InvitationRevoked,
    Knocked,
    KnockAccepted,
    KnockRetracted,
    KnockDenied,
    ProfileChanged,
    NotImplemented,
}

/// The protocol's change for the server's, where the protocol shows it.
pub open spec fn chat_membership_change(change: MatrixMembershipChange) -> Option<MembershipChange> {
    match change {
        MatrixMembershipChange::Joined => Some(MembershipChange::Joined),
        MatrixMembershipChange::InvitationAccepted => Some(MembershipChange::Joined),
        MatrixMembershipChange::KnockAccepted => Some(MembershipChange::Joined),
        MatrixMembershipChange::Left => Some(MembershipChange::Left),
        MatrixMembershipChange::Banned => Some(MembershipChange::Banned),
        MatrixMembershipChange::KickedAndBanned => Some(MembershipChange::Banned),
        MatrixMembershipChange::Kicked => Some(MembershipChange::Kicked),
        MatrixMembershipChange::Invited => Some(MembershipChange::Invited),
        MatrixMembershipChange::Knocked => Some(MembershipChange::Knocked),
        _ => None,
    }
}

/// The protocol's change for the server's, where the protocol shows it.
pub fn convert_membership_change(change: &MatrixMembershipChange) -> (r: Option<MembershipChange>)
    ensures
        r == chat_membership_change(*change),
{
    match change {
        MatrixMembershipChange::Joined
        | MatrixMembershipChange::InvitationAccepted
        | MatrixMembershipChange::KnockAccepted => Some(MembershipChange::Joined),
        MatrixMembershipChange::Left => Some(MembershipChange::Left),
        MatrixMembershipChange::Banned | MatrixMembershipChange::KickedAndBanned => Some(
            MembershipChange::Banned,
        ),
        MatrixMembershipChange::Kicked => Some(MembershipChange::Kicked),
        MatrixMembershipChange::Invited => Some(MembershipChange::Invited),
        MatrixMembershipChange::Knocked => Some(MembershipChange::Knocked),
        _ => None,
    }
}

/// Each change of membership keeps its kind in the protocol: a join, an
/// accepted invitation or an accepted knock is shown as a join; leaving as
/// leaving; a ban, with or without a kick, as a ban; a kick without a ban as
/// a kick; an invitation as an invitation; a knock as a knock. Every other
/// change (no change, an unban, a rejected, revoked, retracted or denied
/// invitation or knock, a profile change, an error or an unknown change) is
/// not shown. In particular a kick is never shown as leaving, nor a ban as a
/// kick.
pub proof fn lemma_membership_change_keeps_its_kind(change: MatrixMembershipChange)
    ensures
        change == MatrixMembershipChange::Joined ==> chat_membership_change(change) == Some(MembershipChange::Joined),
        change == MatrixMembershipChange::InvitationAccepted ==> chat_membership_change(change) == Some(
            MembershipChange::Joined,
        ),
        change == MatrixMembershipChange::KnockAccepted ==> chat_membership_change(change) == Some(
            MembershipChange::Joined,
        ),
        change == MatrixMembershipChange::Left ==> chat_membership_change(change) == Some(MembershipChange::Left),
        change == MatrixMembershipChange::Banned ==> chat_membership_change(change) == Some(MembershipChange::Banned),
        change == MatrixMembershipChange::KickedAndBanned ==> chat_membership_change(change) == Some(
            MembershipChange::Banned,
        ),
        change == MatrixMembershipChange::Kicked ==> chat_membership_change(change) == Some(MembershipChange::Kicked),
        change == MatrixMembershipChange::Invited ==> chat_membership_change(change) == Some(
            MembershipChange::Invited,
        ),
        change == MatrixMembershipChange::Knocked ==> chat_membership_change(change) == Some(
            MembershipChange::Knocked,
        ),
        (change == MatrixMembershipChange::Unchanged || change == MatrixMembershipChange::Error || change
            == MatrixMembershipChange::Unbanned || change == MatrixMembershipChange::InvitationRejected || change
            == MatrixMembershipChange::InvitationRevoked || change == MatrixMembershipChange::KnockRetracted || change
            == MatrixMembershipChange::KnockDenied || change == MatrixMembershipChange::ProfileChanged || change
            == MatrixMembershipChange::NotImplemented) ==> chat_membership_change(change) is None,
{
}

impl TryIntoChat<MembershipChange> for MatrixMembershipChange {
    fn try_into_chat(self) -> (r: Result<MembershipChange, ClientError>)
        ensures
            match chat_membership_change(self) {
                Some(c) => r == Ok::<MembershipChange, ClientError>(c),
                None => r == Err::<MembershipChange, ClientError>(ClientError::ConversionError),
            },
    {
        match convert_membership_change(&self) {
            Some(c) => Ok(c),
            None => Err(ClientError::ConversionError),
        }
    }
}

/// An emoji shown to compare during a verification.
pub struct Emoji {
    pub symbol: String,
    pub description: String,
}

/// A symbol shown to compare during a verification.
#[derive(Debug, PartialEq, Eq)]
pub struct VerificationSymbol {
    pub symbol: String,
    pub description: Option<String>,
}

/// The symbols shown to compare during a verification.
#[derive(Debug, PartialEq, Eq)]
pub struct VerificationSymbolSequence {
    pub symbols: Vec<VerificationSymbol>,
}

/// The symbols for the emojis, in order, each with its description.
pub fn emojis_into_chat(emojis: &[Emoji]) -> (r: VerificationSymbolSequence)
    ensures
        r.symbols@.len() == emojis@.len(),
        forall|i: int|
            0 <= i < emojis@.len() ==> {
                &&& #[trigger] r.symbols@[i].symbol@ == emojis@[i].symbol@
                &&& r.symbols@[i].description matches Some(d) && d@ == emojis@[i].description@
            },
{
    let mut symbols: Vec<VerificationSymbol> = Vec::new();
    let mut i: usize = 0;
    while i < emojis.len()
        invariant
            i <= emojis@.len(),
            symbols@.len() == i,
            forall|j: int|
                0 <= j < i ==> {
                    &&& #[trigger] symbols@[j].symbol@ == emojis@[j].symbol@
                    &&& symbols@[j].description matches Some(d) && d@ == emojis@[j].description@
                },
        decreases emojis.len() - i,
    {
        let e = &emojis[i];
        symbols.push(VerificationSymbol { symbol: e.symbol.clone(), description: Some(e.description.clone()) });
        i = i + 1;
    }
    VerificationSymbolSequence { symbols }
}

} // verus!
