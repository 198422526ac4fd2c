use gouda::bridge::{ClientError, JoinRule, MatrixPresenceState};
use gouda::chat::{
    ErrorType, LoginFlow, MessageChangeContent, MessageContentFile, MessageContentText, Reaction,
    Room, RoomJoinRule, UserRoomState, UserStatus,
};
use gouda::client::{
    change_room_response, check_not_logged_in, convert_client_api_error, create_error,
    create_error_msg, create_unknown, filter_rooms, get_auth_file, get_cache_dir,
    get_login_flows, get_media_dir, get_session_dir, group_room_request,
    identity_providers_or_empty, list_rooms, message_edit_plan, reacting_user, reaction_removal, status_request, ClientApiErrorKind,
    LoginType, MessageChangeRequest, RoomChangeRequest,
};
use gouda::client::{
    convert_http_error, convert_id_parse_error, convert_into_http_error, convert_matrix_sdk_error,
    convert_recovery_error, convert_refresh_token_error, convert_secret_storage_error, HttpError,
    IntoHttpError, RecoveryError, SdkError, SecretStorageError,
};
use gouda::memory_cache::ReactionMetadata;
use gouda::strmap::StrMap;

#[test]
fn client_data_directories() {
    assert_eq!(get_session_dir("/data"), "/data/session");
    assert_eq!(get_media_dir("/data"), "/data/media");
    assert_eq!(get_cache_dir("/data/"), "/data/cache");
    assert_eq!(get_auth_file("/data"), "/data/session/auth");
}

#[test]
fn client_errors() {
    let e = create_error_msg(ErrorType::InvalidUrl, "bad".to_owned());
    assert_eq!(e.error_type, 4);
    assert_eq!(e.error_string, Some("bad".to_owned()));
    assert_eq!(create_error(ErrorType::InvalidUserId).error_string, None);
    assert_eq!(create_unknown("x".to_owned()).error_type, 0);
}

#[test]
fn client_api_error_kinds() {
    let e = convert_client_api_error(Some(ClientApiErrorKind::UnknownToken), "M_UNKNOWN_TOKEN".to_owned());
    assert_eq!(e.error_type, ErrorType::Authorization.to_i32());
    assert_eq!(e.error_string, Some("Authentication required".to_owned()));
    let e = convert_client_api_error(Some(ClientApiErrorKind::Forbidden), "M_FORBIDDEN".to_owned());
    assert_eq!(e.error_type, ErrorType::NotAllowed.to_i32());
    assert_eq!(e.error_string, Some("Insufficient permissions".to_owned()));
    let e = convert_client_api_error(None, "boom".to_owned());
    assert_eq!(e.error_type, ErrorType::Network.to_i32());
    assert_eq!(e.error_string, Some("boom".to_owned()));
}

#[test]
fn client_login_flows() {
    let types = vec![
        LoginType::Other,
        LoginType::Password,
        LoginType::Sso(vec!["idp-1".to_owned(), "idp-2".to_owned()]),
    ];
    let (response, idps) = get_login_flows(&types);
    assert_eq!(response.login_flows, vec![LoginFlow::UsernamePassword.to_i32(), LoginFlow::Sso.to_i32()]);
    assert_eq!(idps, Some(vec!["idp-1".to_owned(), "idp-2".to_owned()]));
    let (response, idps) = get_login_flows(&vec![LoginType::Password]);
    assert_eq!(response.login_flows, vec![0]);
    assert_eq!(idps, None);
    assert_eq!(identity_providers_or_empty(None), Vec::<String>::new());
}

#[test]
fn client_login_only_once() {
    assert_eq!(check_not_logged_in(true), Err(ClientError::AlreadyLoggedIn));
    assert_eq!(check_not_logged_in(false), Ok(()));
}

#[test]
fn client_status_requests() {
    let status = UserStatus { state: 3, status_message: Some("brb".to_owned()) };
    assert_eq!(status_request(None, &status), Err(ClientError::NotLoggedIn));
    assert_eq!(
        status_request(Some("@me:s".to_owned()), &status),
        Ok(("@me:s".to_owned(), MatrixPresenceState::Unavailable, Some("brb".to_owned())))
    );
    let unknown = UserStatus { state: 0, status_message: None };
    assert_eq!(
        status_request(Some("@me:s".to_owned()), &unknown),
        Err(ClientError::InternalError("Invalid presence state".to_owned()))
    );
}

fn room_with(id: &str, me_state: Option<UserRoomState>) -> Room {
    let mut members = StrMap::new();
    if let Some(state) = me_state {
        members.insert("@me:s".to_owned(), state.to_i32());
    }
    members.insert("@other:s".to_owned(), UserRoomState::Joined.to_i32());
    Room { room_id: id.to_owned(), user_id_list: members, ..Default::default() }
}

#[test]
fn client_room_list_filter() {
    let rooms = || {
        vec![
            room_with("!joined", Some(UserRoomState::Joined)),
            room_with("!invited", Some(UserRoomState::Invited)),
            room_with("!absent", None),
        ]
    };
    let ids = |rs: Vec<Room>| rs.into_iter().map(|r| r.room_id).collect::<Vec<_>>();
    assert_eq!(ids(filter_rooms(rooms(), "@me:s", true, false)), vec!["!joined"]);
    assert_eq!(ids(filter_rooms(rooms(), "@me:s", false, true)), vec!["!invited", "!absent"]);
    assert_eq!(ids(filter_rooms(rooms(), "@me:s", true, true)).len(), 3);
    assert_eq!(ids(filter_rooms(rooms(), "@me:s", false, false)).len(), 0);
}

#[test]
fn client_room_list_needs_login() {
    let rooms = vec![room_with("!joined", Some(UserRoomState::Joined)), room_with("!absent", None)];
    assert!(matches!(list_rooms(rooms, None, true, true), Err(ClientError::NotLoggedIn)));

    let rooms = vec![room_with("!joined", Some(UserRoomState::Joined)), room_with("!absent", None)];
    let listed = list_rooms(rooms, Some("@me:s".to_owned()), false, true).unwrap();
    let ids: Vec<String> = listed.into_iter().map(|r| r.room_id).collect();
    assert_eq!(ids, vec!["!absent"]);
}

#[test]
fn client_group_room_request() {
    let request = group_room_request(Some("G".to_owned()), vec!["@a:s".to_owned()], RoomJoinRule::Public.to_i32())
        .unwrap();
    assert_eq!(request.name, Some("G".to_owned()));
    assert_eq!(request.invite, vec!["@a:s".to_owned()]);
    assert_eq!(request.join_rule, JoinRule::Public);
    assert!(request.public);
    assert!(!request.is_direct);
    assert!(!request.trusted_private_chat);

    let request = group_room_request(None, Vec::new(), RoomJoinRule::Invite.to_i32()).unwrap();
    assert!(!request.public);
    assert_eq!(request.join_rule, JoinRule::Invite);

    assert!(matches!(
        group_room_request(None, Vec::new(), 7),
        Err(ClientError::InternalError(m)) if m == "Invalid RoomJoinRule"
    ));
}

#[test]
fn client_change_room() {
    let request = RoomChangeRequest {
        room_id: "!r".to_owned(),
        display_name: Some("New".to_owned()),
        join_rule: Some(RoomJoinRule::Public.to_i32()),
        avatar_path: Some("a.png".to_owned()),
        is_favorite: Some(true),
    };
    let event = change_room_response(request, None).unwrap();
    assert_eq!(event.room_id, "!r");
    assert_eq!(event.display_name, Some("New".to_owned()));
    assert_eq!(event.join_rule, Some(2));
    assert_eq!(event.avatar_path, None);
    assert_eq!(event.is_favorite, Some(true));

    let request = RoomChangeRequest {
        room_id: "!r".to_owned(),
        display_name: None,
        join_rule: None,
        avatar_path: Some("a.png".to_owned()),
        is_favorite: None,
    };
    let uploaded = Some("media/room_avatars/!r.png".to_owned());
    assert_eq!(
        change_room_response(request, uploaded).unwrap().avatar_path,
        Some("media/room_avatars/!r.png".to_owned())
    );

    let request = RoomChangeRequest {
        room_id: "!r".to_owned(),
        display_name: None,
        join_rule: Some(9),
        avatar_path: None,
        is_favorite: None,
    };
    assert_eq!(
        change_room_response(request, None),
        Err(ClientError::InternalError("Invalid JoinRule".to_owned()))
    );
}

#[test]
fn client_message_edit() {
    let text = MessageChangeRequest {
        room_id: "!r".to_owned(),
        message_id: "$m".to_owned(),
        has_mentioned_user_ids_changed: true,
        mentioned_user_ids: vec!["@a:s".to_owned()],
        content: Some(MessageChangeContent::Text(MessageContentText { content: "*hi*".to_owned() })),
    };
    assert_eq!(message_edit_plan(text), Ok(("*hi*".to_owned(), Some(vec!["@a:s".to_owned()]))));
    let file = MessageChangeRequest {
        room_id: "!r".to_owned(),
        message_id: "$m".to_owned(),
        has_mentioned_user_ids_changed: false,
        mentioned_user_ids: Vec::new(),
        content: Some(MessageChangeContent::File(MessageContentFile { file_path: "f".to_owned(), file_name: None })),
    };
    assert_eq!(message_edit_plan(file), Err(ClientError::NotImplemented));
    let empty = MessageChangeRequest {
        room_id: "!r".to_owned(),
        message_id: "$m".to_owned(),
        has_mentioned_user_ids_changed: false,
        mentioned_user_ids: Vec::new(),
        content: None,
    };
    assert_eq!(message_edit_plan(empty), Err(ClientError::InternalError("Message content not set".to_owned())));
}

#[test]
fn client_reaction_removal() {
    assert_eq!(reacting_user(Some("@a".to_owned()), Some("@me".to_owned())), "@a");
    assert_eq!(reacting_user(None, Some("@me".to_owned())), "@me");
    assert_eq!(reacting_user(None, None), "");
    let request = Reaction {
        message_id: "$m".to_owned(),
        room_id: "!r".to_owned(),
        reaction: "👍".to_owned(),
        user_id: None,
    };
    let meta = ReactionMetadata {
        reaction_id: "$r".to_owned(),
        user_id: "@me".to_owned(),
        emoji: "👍".to_owned(),
        message_id: "$m".to_owned(),
        room_id: "!r".to_owned(),
    };
    let (rid, event) = reaction_removal(request.clone(), "@me".to_owned(), Some(meta)).unwrap();
    assert_eq!(rid, "$r");
    assert_eq!(event.user_id, Some("@me".to_owned()));
    assert_eq!(event.reaction, "👍");
    assert_eq!(reaction_removal(request, "@me".to_owned(), None), Err(ClientError::ReactionNotFound));
}

#[test]
fn client_sdk_error_conversions() {
    let e = convert_into_http_error(IntoHttpError::Authentication);
    assert_eq!(e.error_type, ErrorType::Authorization.to_i32());
    let e = convert_into_http_error(IntoHttpError::Other("bad header".to_owned()));
    assert_eq!((e.error_type, e.error_string), (ErrorType::Network.to_i32(), Some("bad header".to_owned())));
    let e = convert_http_error(HttpError::Api(Some(ClientApiErrorKind::Forbidden), "no".to_owned()));
    assert_eq!(e.error_type, ErrorType::NotAllowed.to_i32());
    let e = convert_matrix_sdk_error(SdkError::Url("not a url".to_owned()));
    assert_eq!((e.error_type, e.error_string), (ErrorType::InvalidUrl.to_i32(), Some("not a url".to_owned())));
    let e = convert_matrix_sdk_error(SdkError::AuthenticationRequired);
    assert_eq!(e.error_string, Some("Authentication required".to_owned()));
    let e = convert_matrix_sdk_error(SdkError::Other("x".to_owned()));
    assert_eq!(e.error_type, ErrorType::Unknown.to_i32());
    let e = convert_secret_storage_error(SecretStorageError::SecretStorageKey("wrong key".to_owned()));
    assert_eq!(e.error_type, ErrorType::InvalidRecoveryKey.to_i32());
    let e = convert_recovery_error(RecoveryError::SecretStorage(SecretStorageError::Other("y".to_owned())));
    assert_eq!(e.error_type, ErrorType::Unknown.to_i32());
    let e = convert_recovery_error(RecoveryError::Sdk(SdkError::Http(HttpError::Other("down".to_owned()))));
    assert_eq!(e.error_type, ErrorType::Network.to_i32());
    assert_eq!(convert_id_parse_error("@@".to_owned()).error_type, ErrorType::InvalidUserId.to_i32());
    assert_eq!(convert_refresh_token_error("t".to_owned()).error_type, ErrorType::Authorization.to_i32());
}

#[test]
fn client_initialization() {
    assert_eq!(gouda::client::check_not_initialized(true), Err(ClientError::AlreadyInitialized));
    assert_eq!(gouda::client::check_not_initialized(false), Ok(()));
    assert_eq!(gouda::client::check_initialized(false), Err(ClientError::NotInitialized));
    assert_eq!(gouda::client::initial_status(true, true).code, gouda::chat::StatusCode::LoggedIn.to_i32());
    assert_eq!(gouda::client::initial_status(true, false).code, gouda::chat::StatusCode::LoggedOut.to_i32());
    assert_eq!(gouda::client::initial_status(false, false).code, gouda::chat::StatusCode::Connected.to_i32());
}

#[test]
fn client_remove_reaction_from_cache() {
    let mut cache = gouda::memory_cache::MemoryCache::new();
    cache.cache_reaction(
        "!r".to_owned(),
        "$m".to_owned(),
        "$r1".to_owned(),
        gouda::memory_cache::CachedReaction { user_id: "@me".to_owned(), emoji: "👍".to_owned() },
    );
    let request = Reaction {
        message_id: "$m".to_owned(),
        room_id: "!r".to_owned(),
        reaction: "👍".to_owned(),
        user_id: None,
    };
    let (rid, event) = gouda::client::remove_reaction(&mut cache, request.clone(), Some("@me".to_owned())).unwrap();
    assert_eq!(rid, "$r1");
    assert_eq!(event.user_id, Some("@me".to_owned()));
    assert_eq!(
        gouda::client::remove_reaction(&mut cache, request.clone(), Some("@me".to_owned())),
        Err(ClientError::ReactionNotFound)
    );
    let other_room = Reaction { room_id: "!x".to_owned(), ..request };
    assert_eq!(
        gouda::client::remove_reaction(&mut cache, other_room, None),
        Err(ClientError::ReactionNotFound)
    );
}
