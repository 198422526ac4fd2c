use gouda::bridge::{
    chat_presence_state_to_matrix, convert_membership_change, emojis_into_chat,
    matrix_join_rule_to_visibility, matrix_presence_state_to_chat,
    membership_state_to_user_room_state, ClientError, Emoji, IntoChat, IntoMatrix, JoinRule,
    MatrixMembershipChange, MatrixPresenceState, MembershipState, TryIntoChat, TryIntoMatrix,
};
use gouda::chat::{MembershipChange, PresenceState, RoomJoinRule, UserRoomState};

#[test]
fn test_matrix_join_rule_to_chat_join_rule() {
    let value: RoomJoinRule = JoinRule::Invite.into_chat();
    assert_eq!(value, RoomJoinRule::Invite);

    let value: RoomJoinRule = JoinRule::Knock.into_chat();
    assert_eq!(value, RoomJoinRule::Knock);

    let value: RoomJoinRule = JoinRule::Public.into_chat();
    assert_eq!(value, RoomJoinRule::Public);

    let value: RoomJoinRule = JoinRule::KnockRestricted.into_chat();
    assert_eq!(value, RoomJoinRule::Invite);

    let value: RoomJoinRule = JoinRule::Restricted.into_chat();
    assert_eq!(value, RoomJoinRule::Invite);
}

#[test]
fn test_chat_join_rule_to_matrix_join_rule() {
    let value: JoinRule = RoomJoinRule::Invite.into_matrix();
    assert_eq!(value, JoinRule::Invite);

    let value: JoinRule = RoomJoinRule::Knock.into_matrix();
    assert_eq!(value, JoinRule::Knock);

    let value: JoinRule = RoomJoinRule::Public.into_matrix();
    assert_eq!(value, JoinRule::Public);
}

#[test]
fn bridge_join_rule_round_trip() {
    for rule in [RoomJoinRule::Invite, RoomJoinRule::Knock, RoomJoinRule::Public] {
        let matrix: JoinRule = rule.into_matrix();
        let back: RoomJoinRule = matrix.into_chat();
        assert_eq!(back, rule);
    }
}

#[test]
fn bridge_visibility_of_join_rules() {
    assert!(matrix_join_rule_to_visibility(JoinRule::Public));
    assert!(matrix_join_rule_to_visibility(JoinRule::Knock));
    assert!(!matrix_join_rule_to_visibility(JoinRule::Invite));
    assert!(!matrix_join_rule_to_visibility(JoinRule::Restricted));
}

#[test]
fn bridge_membership_states() {
    let state: UserRoomState = MembershipState::Ban.into_chat();
    assert_eq!(state, UserRoomState::Banned);
    let state: UserRoomState = MembershipState::Custom.into_chat();
    assert_eq!(state, UserRoomState::Unjoined);
    assert_eq!(membership_state_to_user_room_state(&MembershipState::Custom), UserRoomState::Joined);
    assert_eq!(membership_state_to_user_room_state(&MembershipState::Leave), UserRoomState::Unjoined);
}

#[test]
fn bridge_presence_conversions() {
    assert_eq!(matrix_presence_state_to_chat(MatrixPresenceState::Unavailable), PresenceState::Away);
    assert_eq!(matrix_presence_state_to_chat(MatrixPresenceState::Custom), PresenceState::Away);
    assert_eq!(chat_presence_state_to_matrix(PresenceState::Online), Some(MatrixPresenceState::Online));
    assert_eq!(chat_presence_state_to_matrix(PresenceState::Unknown), None);
    assert_eq!(PresenceState::Unknown.try_into_matrix(), Err(ClientError::ConversionError));
    assert_eq!(PresenceState::Away.try_into_matrix(), Ok(MatrixPresenceState::Unavailable));
}

#[test]
fn bridge_membership_changes() {
    assert_eq!(convert_membership_change(&MatrixMembershipChange::KnockAccepted), Some(MembershipChange::Joined));
    assert_eq!(convert_membership_change(&MatrixMembershipChange::KickedAndBanned), Some(MembershipChange::Banned));
    assert_eq!(convert_membership_change(&MatrixMembershipChange::ProfileChanged), None);
    let change: Result<MembershipChange, ClientError> = MatrixMembershipChange::Unbanned.try_into_chat();
    assert_eq!(change, Err(ClientError::ConversionError));
}

#[test]
fn bridge_emojis_into_symbols() {
    let emojis = vec![
        Emoji { symbol: "🐶".to_owned(), description: "Dog".to_owned() },
        Emoji { symbol: "🔑".to_owned(), description: "Key".to_owned() },
    ];
    let sequence = emojis_into_chat(&emojis);
    assert_eq!(sequence.symbols.len(), 2);
    assert_eq!(sequence.symbols[1].symbol, "🔑");
    assert_eq!(sequence.symbols[1].description, Some("Key".to_owned()));
}
