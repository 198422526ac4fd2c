//! The decisions of the Matrix client: where it keeps its data, and what it
//! makes of requests and of the server's answers.
use vstd::prelude::*;

use crate::bridge::{chat_presence_state_to_matrix, matrix_presence, ClientError, MatrixPresenceState};
use crate::builder::{room_builder_event, unchanged_room_builder, RoomChangeEventBuilder, RoomChangeEventBuilderView};
use crate::chat::{
    Error, ErrorType, LoginFlow, LoginFlowsResponse, MessageChangeContent, PresenceState, Reaction, Room,
    RoomChangeEvent, RoomJoinRule, StatusCode, StatusUpdate, UserRoomState, UserStatus,
};
use crate::media::{join_path, joined_path};
use crate::memory_cache::{reactions_removed_by_emoji, MemoryCache, ReactionMetadata};
use crate::rooms::{create_room_request, CreateRoomRequest};

verus! {

/// The directory below the data root that holds the session.
pub const SESSION_DIR: &'static str = "session";

/// The directory below the data root that holds media.
pub const MEDIA_DIR: &'static str = "media";

/// The directory below the data root that holds cached data.
pub const CACHE_DIR: &'static str = "cache";

/// The file in the session directory that holds the authentication.
pub const AUTH_FILE: &'static str = "auth";

/// The directory that holds the session, below the data root.
pub fn get_session_dir(data_root_dir: &str) -> (r: String)
    ensures
        r@ == joined_path(data_root_dir@, SESSION_DIR@),
{
    join_path(data_root_dir, SESSION_DIR)
}

/// The directory that holds media, below the data root.
pub fn get_media_dir(data_root_dir: &str) -> (r: String)
    ensures
        r@ == joined_path(data_root_dir@, MEDIA_DIR@),
{
    join_path(data_root_dir, MEDIA_DIR)
}

/// The directory that holds cached data, below the data root.
pub fn get_cache_dir(data_root_dir: &str) -> (r: String)
    ensures
        r@ == joined_path(data_root_dir@, CACHE_DIR@),
{
    join_path(data_root_dir, CACHE_DIR)
}

/// The file that holds the authentication, in the session directory.
pub fn get_auth_file(data_root_dir: &str) -> (r: String)
    ensures
        r@ == joined_path(joined_path(data_root_dir@, SESSION_DIR@), AUTH_FILE@),
{
    let session_dir = get_session_dir(data_root_dir);
    join_path(session_dir.as_str(), AUTH_FILE)
}

// ---------------------------------------------------------------------------
// Errors sent to the application
// ---------------------------------------------------------------------------

/// An error of the type with the message.
pub fn create_error_msg(ty: ErrorType, msg: String) -> (r: Error)
    ensures
        r.error_type == ty.spec_code(),
        r.error_string == Some(msg),
{
    Error { error_type: ty.to_i32(), error_string: Some(msg) }
}

/// An error of the type without a message.
pub fn create_error(ty: ErrorType) -> (r: Error)
    ensures
        r.error_type == ty.spec_code(),
        r.error_string is None,
{
    Error { error_type: ty.to_i32(), error_string: None }
}

/// An unknown error with the message.
pub fn create_unknown(msg: String) -> (r: Error)
    ensures
        r.error_type == ErrorType::Unknown.spec_code(),
        r.error_string == Some(msg),
{
    create_error_msg(ErrorType::Unknown, msg)
}

/// The kinds of failure that the server's API reports.
#[derive(Debug, Clone, Copy, PartialEq, Eq, Structural)]
pub enum ClientApiErrorKind {
    MissingToken,
    Unauthorized,
    UnknownToken,
    Forbidden,
    /// Another kind.
    Other,
}

/// Whether the error is of the type and carries the text.
pub open spec fn error_with_text(e: Error, ty: ErrorType, text: Seq<char>) -> bool {
    &&& e.error_type == ty.spec_code()
    &&& e.error_string matches Some(m) && m@ == text
}

/// The message for a failure that asks to log in again.
pub const AUTHENTICATION_REQUIRED: &'static str = "Authentication required";

/// The message for a failure for want of permissions.
pub const INSUFFICIENT_PERMISSIONS: &'static str = "Insufficient permissions";

/// Whether the error is the one for a failure that the server's API
/// reports, of the kind where it names one, with the failure's text.
pub open spec fn client_api_error_matches(r: Error, kind: Option<ClientApiErrorKind>, text: String) -> bool {
    match kind {
        Some(ClientApiErrorKind::MissingToken) | Some(ClientApiErrorKind::Unauthorized) | Some(
            ClientApiErrorKind::UnknownToken,
        ) => error_with_text(r, ErrorType::Authorization, AUTHENTICATION_REQUIRED@),
        Some(ClientApiErrorKind::Forbidden) => error_with_text(r, ErrorType::NotAllowed, INSUFFICIENT_PERMISSIONS@),
        _ => r.error_type == ErrorType::Network.spec_code() && r.error_string == Some(text),
    }
}

/// The error for a failure that the server's API reports, of the kind where
/// it names one, with the failure's text: a missing or unknown token asks
/// to log in again, a forbidden request lacks permissions, and every other
/// failure is a network failure.
pub fn convert_client_api_error(kind: Option<ClientApiErrorKind>, text: String) -> (r: Error)
    ensures
        client_api_error_matches(r, kind, text),
{
    match kind {
        Some(ClientApiErrorKind::MissingToken) | Some(ClientApiErrorKind::Unauthorized) | Some(
            ClientApiErrorKind::UnknownToken,
        ) => create_error_msg(ErrorType::Authorization, String::from_str(AUTHENTICATION_REQUIRED)),
        Some(ClientApiErrorKind::Forbidden) => create_error_msg(ErrorType::NotAllowed, String::from_str(INSUFFICIENT_PERMISSIONS)),
        _ => create_error_msg(ErrorType::Network, text),
    }
}

/// A failure to build an HTTP request.
pub enum IntoHttpError {
    /// The request needs authentication.
    Authentication,
    /// Another failure, with its text.
    Other(String),
}

/// A failure of an HTTP request to the server.
pub enum HttpError {
    /// The server's API reported the failure: of the kind where it names
    /// one, with the failure's text.
    Api(Option<ClientApiErrorKind>, String),
    /// The request could not be built.
    IntoHttp(IntoHttpError),
    /// Another failure, with its text.
    Other(String),
}

/// A failure of the server's client library.
pub enum SdkError {
    Http(HttpError),
    AuthenticationRequired,
    /// A URL could not be parsed, with the failure's text.
    Url(String),
    /// Another failure, with its text.
    Other(String),
}

/// The error for a failure to build a request: one that needs
/// authentication asks to log in again; any other is a network failure.
pub fn convert_into_http_error(err: IntoHttpError) -> (r: Error)
    ensures
        match err {
            IntoHttpError::Authentication => error_with_text(r, ErrorType::Authorization, AUTHENTICATION_REQUIRED@),
            IntoHttpError::Other(t) => r.error_type == ErrorType::Network.spec_code() && r.error_string == Some(t),
        },
{
    match err {
        IntoHttpError::Authentication => create_error_msg(ErrorType::Authorization, String::from_str(AUTHENTICATION_REQUIRED)),
        IntoHttpError::Other(t) => create_error_msg(ErrorType::Network, t),
    }
}

/// The error for a failed HTTP request: as the API reports it, as the
/// request could not be built, or else a network failure.
pub fn convert_http_error(err: HttpError) -> (r: Error)
    ensures
        match err {
            HttpError::Api(kind, t) => client_api_error_matches(r, kind, t),
            HttpError::IntoHttp(IntoHttpError::Authentication) => error_with_text(r, ErrorType::Authorization, AUTHENTICATION_REQUIRED@),
            HttpError::IntoHttp(IntoHttpError::Other(t)) => r.error_type == ErrorType::Network.spec_code() && r.error_string == Some(t),
            HttpError::Other(t) => r.error_type == ErrorType::Network.spec_code() && r.error_string == Some(t),
        },
{
    match err {
        HttpError::Api(kind, t) => convert_client_api_error(kind, t),
        HttpError::IntoHttp(e) => convert_into_http_error(e),
        HttpError::Other(t) => create_error_msg(ErrorType::Network, t),
    }
}

/// Whether the error is the one for the failure of the server's client
/// library.
pub open spec fn sdk_error_matches(r: Error, err: SdkError) -> bool {
    match err {
        SdkError::Http(HttpError::Api(kind, t)) => client_api_error_matches(r, kind, t),
        SdkError::Http(HttpError::IntoHttp(IntoHttpError::Authentication)) | SdkError::AuthenticationRequired => error_with_text(
            r,
            ErrorType::Authorization,
            AUTHENTICATION_REQUIRED@,
        ),
        SdkError::Http(HttpError::IntoHttp(IntoHttpError::Other(t))) => r.error_type == ErrorType::Network.spec_code()
            && r.error_string == Some(t),
        SdkError::Http(HttpError::Other(t)) => r.error_type == ErrorType::Network.spec_code() && r.error_string == Some(t),
        SdkError::Url(t) => r.error_type == ErrorType::InvalidUrl.spec_code() && r.error_string == Some(t),
        SdkError::Other(t) => r.error_type == ErrorType::Unknown.spec_code() && r.error_string == Some(t),
    }
}

/// The error for a failure of the server's client library: HTTP failures as
/// above, a missing authentication asks to log in again, a bad URL is an
/// invalid URL, and anything else is unknown.
pub fn convert_matrix_sdk_error(err: SdkError) -> (r: Error)
    ensures
        sdk_error_matches(r, err),
{
    match err {
        SdkError::Http(e) => convert_http_error(e),
        SdkError::AuthenticationRequired => create_error_msg(ErrorType::Authorization, String::from_str(AUTHENTICATION_REQUIRED)),
        SdkError::Url(t) => create_error_msg(ErrorType::InvalidUrl, t),
        SdkError::Other(t) => create_error_msg(ErrorType::Unknown, t),
    }
}

/// The error for a failure to parse an ID: an invalid user ID.
pub fn convert_id_parse_error(text: String) -> (r: Error)
    ensures
        r.error_type == ErrorType::InvalidUserId.spec_code(),
        r.error_string == Some(text),
{
    create_error_msg(ErrorType::InvalidUserId, text)
}

/// The error for a failure to refresh the access token: it asks to log in
/// again, with the failure's text.
pub fn convert_refresh_token_error(text: String) -> (r: Error)
    ensures
        r.error_type == ErrorType::Authorization.spec_code(),
        r.error_string == Some(text),
{
    create_error_msg(ErrorType::Authorization, text)
}

/// A failure of the secret storage.
pub enum SecretStorageError {
    /// The recovery key is wrong, with the failure's text.
    SecretStorageKey(String),
    /// Another failure, with its text.
    Other(String),
}

/// Whether the error is the one for the failure of the secret storage.
pub open spec fn secret_storage_error_matches(r: Error, err: SecretStorageError) -> bool {
    match err {
        SecretStorageError::SecretStorageKey(t) => r.error_type == ErrorType::InvalidRecoveryKey.spec_code()
            && r.error_string == Some(t),
        SecretStorageError::Other(t) => r.error_type == ErrorType::Unknown.spec_code() && r.error_string == Some(t),
    }
}

/// The error for a failure of the secret storage: a wrong key is an invalid
/// recovery key, anything else is unknown.
pub fn convert_secret_storage_error(err: SecretStorageError) -> (r: Error)
    ensures
        secret_storage_error_matches(r, err),
{
    match err {
        SecretStorageError::SecretStorageKey(t) => create_error_msg(ErrorType::InvalidRecoveryKey, t),
        SecretStorageError::Other(t) => create_unknown(t),
    }
}

/// A failure of the recovery of keys.
pub enum RecoveryError {
    /// A backup exists on the server already, with the failure's text.
    BackupExistsOnServer(String),
    Sdk(SdkError),
    SecretStorage(SecretStorageError),
}

/// The error for a failure of the recovery of keys.
pub fn convert_recovery_error(err: RecoveryError) -> (r: Error)
    ensures
        match err {
            RecoveryError::BackupExistsOnServer(t) => r.error_type == ErrorType::Unknown.spec_code() && r.error_string == Some(t),
            RecoveryError::Sdk(e) => sdk_error_matches(r, e),
            RecoveryError::SecretStorage(e) => secret_storage_error_matches(r, e),
        },
{
    match err {
        RecoveryError::BackupExistsOnServer(t) => create_unknown(t),
        RecoveryError::Sdk(e) => convert_matrix_sdk_error(e),
        RecoveryError::SecretStorage(e) => convert_secret_storage_error(e),
    }
}

// ---------------------------------------------------------------------------
// Logging in
// ---------------------------------------------------------------------------

/// A way to log in that the server offers.
pub enum LoginType {
    Password,
    /// Single sign-on, with the IDs of its identity providers.
    Sso(Vec<String>),
    /// Another way, which the protocol does not offer.
    Other,
}

/// The codes of the ways to log in that the protocol offers, in the
/// server's order.
pub open spec fn login_flow_codes(types: Seq<LoginType>) -> Seq<i32>
    decreases types.len(),
{
    if types.len() == 0 {
        Seq::empty()
    } else {
        let rest = login_flow_codes(types.drop_last());
        match types.last() {
            LoginType::Password => rest.push(LoginFlow::UsernamePassword.spec_code()),
            LoginType::Sso(_) => rest.push(LoginFlow::Sso.spec_code()),
            LoginType::Other => rest,
        }
    }
}

/// The identity providers of the last single sign-on way, if there is one.
pub open spec fn last_identity_providers(types: Seq<LoginType>) -> Option<Seq<Seq<char>>>
    decreases types.len(),
{
    if types.len() == 0 {
        None
    } else {
        match types.last() {
            LoginType::Sso(ids) => Some(ids.deep_view()),
            _ => last_identity_providers(types.drop_last()),
        }
    }
}

/// The ways to log in for the ways that the server offers, and the identity
/// providers to keep, where single sign-on is offered.
pub fn get_login_flows(types: &Vec<LoginType>) -> (r: (LoginFlowsResponse, Option<Vec<String>>))
    ensures
        r.0.login_flows@ == login_flow_codes(types@),
        match last_identity_providers(types@) {
            Some(ids) => r.1 matches Some(v) && v.deep_view() == ids,
            None => r.1 is None,
        },
{
    let mut flows: Vec<i32> = Vec::new();
    let mut idps: Option<Vec<String>> = None;
    let mut i: usize = 0;
    while i < types.len()
        invariant
            i <= types@.len(),
            flows@ == login_flow_codes(types@.take(i as int)),
            match last_identity_providers(types@.take(i as int)) {
                Some(ids) => idps matches Some(v) && v.deep_view() == ids,
                None => idps is None,
            },
        decreases types.len() - i,
    {
        proof {
            assert(types@.take((i + 1) as int).drop_last() =~= types@.take(i as int));
            assert(types@.take((i + 1) as int).last() == types@[i as int]);
        }
        match &types[i] {
            LoginType::Password => flows.push(LoginFlow::UsernamePassword.to_i32()),
            LoginType::Sso(ids) => {
                idps = Some(crate::chat::clone_str_vec(ids));
                flows.push(LoginFlow::Sso.to_i32());
            },
            LoginType::Other => {},
        }
        i = i + 1;
    }
    proof {
        assert(types@.take(i as int) =~= types@);
    }
    (LoginFlowsResponse { login_flows: flows }, idps)
}

/// The identity providers to answer with: those kept, or else none.
pub fn identity_providers_or_empty(cached: Option<Vec<String>>) -> (r: Vec<String>)
    ensures
        match cached {
            Some(v) => r == v,
            None => r@.len() == 0,
        },
{
    match cached {
        Some(v) => v,
        None => Vec::new(),
    }
}

/// A client is initialized once.
pub fn check_not_initialized(initialized: bool) -> (r: Result<(), ClientError>)
    ensures
        initialized ==> r == Err::<(), ClientError>(ClientError::AlreadyInitialized),
        !initialized ==> r is Ok,
{
    if initialized {
        Err(ClientError::AlreadyInitialized)
    } else {
        Ok(())
    }
}

/// A client serves requests once it is initialized.
pub fn check_initialized(initialized: bool) -> (r: Result<(), ClientError>)
    ensures
        !initialized ==> r == Err::<(), ClientError>(ClientError::NotInitialized),
        initialized ==> r is Ok,
{
    if initialized {
        Ok(())
    } else {
        Err(ClientError::NotInitialized)
    }
}

/// The state that an initialized client reports: logged in where a saved
/// session was restored, logged out where restoring it failed, and
/// connected where no session was saved.
pub fn initial_status(has_saved_session: bool, restored: bool) -> (r: StatusUpdate)
    ensures
        r.code == if has_saved_session {
            if restored {
                StatusCode::LoggedIn.spec_code()
            } else {
                StatusCode::LoggedOut.spec_code()
            }
        } else {
            StatusCode::Connected.spec_code()
        },
{
    let code = if has_saved_session {
        if restored {
            StatusCode::LoggedIn
        } else {
            StatusCode::LoggedOut
        }
    } else {
        StatusCode::Connected
    };
    StatusUpdate { code: code.to_i32() }
}

/// A client that is logged in already cannot log in again.
pub fn check_not_logged_in(is_logged_in: bool) -> (r: Result<(), ClientError>)
    ensures
        is_logged_in ==> r == Err::<(), ClientError>(ClientError::AlreadyLoggedIn),
        !is_logged_in ==> r is Ok,
{
    if is_logged_in {
        Err(ClientError::AlreadyLoggedIn)
    } else {
        Ok(())
    }
}

// ---------------------------------------------------------------------------
// Users and rooms
// ---------------------------------------------------------------------------

/// The message of a failure to convert a presence.
pub const INVALID_PRESENCE_STATE: &'static str = "Invalid presence state";

/// The presence state of a status: its code, read as the protocol does;
/// an unknown code is an unknown presence.
pub open spec fn presence_of_code(code: i32) -> PresenceState {
    if code == 1 {
        PresenceState::Online
    } else if code == 2 {
        PresenceState::Offline
    } else if code == 3 {
        PresenceState::Away
    } else {
        PresenceState::Unknown
    }
}

/// What setting the user's own status asks of the server: the user, the
/// presence and the status message. There is no user where the client is
/// not logged in, and an unknown presence cannot be set.
pub fn status_request(user_id: Option<String>, status: &UserStatus) -> (r: Result<(String, MatrixPresenceState, Option<String>), ClientError>)
    ensures
        user_id is None ==> r == Err::<(String, MatrixPresenceState, Option<String>), ClientError>(ClientError::NotLoggedIn),
        user_id matches Some(u) ==> match matrix_presence(presence_of_code(status.state)) {
            Some(p) => r == Ok::<(String, MatrixPresenceState, Option<String>), ClientError>((u, p, status.status_message)),
            None => r matches Err(ClientError::InternalError(m)) && m@ == INVALID_PRESENCE_STATE@,
        },
{
    let user_id = match user_id {
        Some(u) => u,
        None => {
            return Err(ClientError::NotLoggedIn);
        },
    };
    let state = if status.state == 1 {
        PresenceState::Online
    } else if status.state == 2 {
        PresenceState::Offline
    } else if status.state == 3 {
        PresenceState::Away
    } else {
        PresenceState::Unknown
    };
    match chat_presence_state_to_matrix(state) {
        Some(p) => Ok((user_id, p, crate::chat::clone_opt_str(&status.status_message))),
        None => Err(ClientError::internal(String::from_str(INVALID_PRESENCE_STATE))),
    }
}

/// Whether the user is a joined member of the room.
pub open spec fn joined_by(room: Room, user_id: Seq<char>) -> bool {
    room.user_id_list@.contains_key(user_id) && room.user_id_list@[user_id] == UserRoomState::Joined.spec_code()
}

/// Whether the room is listed: joined rooms where they are asked for, and
/// the others where those are.
pub open spec fn room_listed(room: Room, user_id: Seq<char>, include_joined: bool, include_unjoined: bool) -> bool {
    if joined_by(room, user_id) {
        include_joined
    } else {
        include_unjoined
    }
}

/// The listed rooms, in order.
pub open spec fn listed_rooms(rooms: Seq<Room>, user_id: Seq<char>, include_joined: bool, include_unjoined: bool) -> Seq<Room>
    decreases rooms.len(),
{
    if rooms.len() == 0 {
        Seq::empty()
    } else {
        let rest = listed_rooms(rooms.drop_last(), user_id, include_joined, include_unjoined);
        if room_listed(rooms.last(), user_id, include_joined, include_unjoined) {
            rest.push(rooms.last())
        } else {
            rest
        }
    }
}

/// The rooms to list for a room list request of the user: those the user
/// joined where joined rooms are asked for, the others where those are.
pub fn filter_rooms(rooms: Vec<Room>, user_id: &str, include_joined: bool, include_unjoined: bool) -> (r: Vec<Room>)
    ensures
        r@ == listed_rooms(rooms@, user_id@, include_joined, include_unjoined),
{
    let ghost all = rooms@;
    let mut result: Vec<Room> = Vec::new();
    let mut rest = rooms;
    let n = rest.len();
    let mut i: usize = 0;
    while i < n
        invariant
            n == all.len(),
            i <= n,
            rest@ == all.skip(i as int),
            result@ == listed_rooms(all.take(i as int), user_id@, include_joined, include_unjoined),
        decreases n - i,
    {
        let room = rest.remove(0);
        proof {
            assert(room == all[i as int]);
            assert(all.skip((i + 1) as int) =~= all.skip(i as int).skip(1));
            assert(all.take((i + 1) as int).drop_last() =~= all.take(i as int));
            assert(all.take((i + 1) as int).last() == all[i as int]);
        }
        let joined = match room.user_id_list.get(user_id) {
            Some(state) => *state == UserRoomState::Joined.to_i32(),
            None => false,
        };
        if (joined && include_joined) || (!joined && include_unjoined) {
            result.push(room);
        }
        i = i + 1;
    }
    proof {
        assert(all.take(n as int) =~= all);
    }
    result
}

/// The answer to a room list request: there is no user to list rooms for
/// where the client is not logged in; else the rooms that `filter_rooms`
/// keeps for the user.
pub fn list_rooms(rooms: Vec<Room>, user_id: Option<String>, include_joined: bool, include_unjoined: bool) -> (r: Result<
    Vec<Room>,
    ClientError,
>)
    ensures
        user_id is None ==> r == Err::<Vec<Room>, ClientError>(ClientError::NotLoggedIn),
        user_id matches Some(u) ==> (r matches Ok(l) && l@ == listed_rooms(rooms@, u@, include_joined, include_unjoined)),
{
    match user_id {
        Some(u) => Ok(filter_rooms(rooms, u.as_str(), include_joined, include_unjoined)),
        None => Err(ClientError::NotLoggedIn),
    }
}

/// The message of a request with a join rule that the protocol does not
/// know.
pub const INVALID_JOIN_RULE: &'static str = "Invalid JoinRule";

/// A request to change a room.
pub struct RoomChangeRequest {
    pub room_id: String,
    pub display_name: Option<String>,
    /// The code of the new join rule.
    pub join_rule: Option<i32>,
    pub avatar_path: Option<String>,
    pub is_favorite: Option<bool>,
}

/// The join rule of a code, where it names one.
pub open spec fn join_rule_of_code(code: i32) -> Option<RoomJoinRule> {
    if code == 0 {
        Some(RoomJoinRule::Invite)
    } else if code == 1 {
        Some(RoomJoinRule::Knock)
    } else if code == 2 {
        Some(RoomJoinRule::Public)
    } else {
        None
    }
}

/// What the change of a room answers, given what the upload of the new
/// avatar gave back: the path the avatar was moved to, or `None` where no
/// avatar was uploaded. The answer holds the changes that were made. A join
/// rule that the protocol does not know fails the request.
pub fn change_room_response(request: RoomChangeRequest, uploaded_avatar: Option<String>) -> (r: Result<RoomChangeEvent, ClientError>)
    ensures
        (request.join_rule matches Some(c) && join_rule_of_code(c) is None) ==> (r matches Err(ClientError::InternalError(m))
            && m@ == INVALID_JOIN_RULE@),
        !(request.join_rule matches Some(c) && join_rule_of_code(c) is None) ==> (r matches Ok(e) && e@ == room_builder_event(
            RoomChangeEventBuilderView {
                display_name: match request.display_name {
                    Some(d) => Some(d@),
                    None => None,
                },
                join_rule: match request.join_rule {
                    Some(c) => join_rule_of_code(c),
                    None => None,
                },
                avatar_path: match uploaded_avatar {
                    Some(a) => Some(a@),
                    None => None,
                },
                is_favourite: request.is_favorite,
                ..unchanged_room_builder(request.room_id@)
            },
        )),
{
    let mut response = RoomChangeEventBuilder::new(request.room_id);
    if let Some(display_name) = request.display_name {
        response = response.change_display_name(display_name);
    }
    if let Some(code) = request.join_rule {
        match RoomJoinRule::from_i32(code) {
            Some(rule) => {
                response = response.change_join_rule(rule);
            },
            None => {
                return Err(ClientError::internal(String::from_str(INVALID_JOIN_RULE)));
            },
        }
    }
    if let Some(avatar_path) = uploaded_avatar {
        response = response.change_avatar_path(avatar_path);
    }
    if let Some(is_favourite) = request.is_favorite {
        response = response.change_is_favourite(is_favourite);
    }
    Ok(response.to_proto())
}

/// The message of a request for a group room with a join rule that the
/// protocol does not know.
pub const INVALID_ROOM_JOIN_RULE: &'static str = "Invalid RoomJoinRule";

/// The request for a group room with the name, the invited users and the
/// code of the join rule. A code that names no join rule fails the request.
pub fn group_room_request(display_name: Option<String>, invitees: Vec<String>, join_rule: i32) -> (r: Result<
    CreateRoomRequest,
    ClientError,
>)
    ensures
        join_rule_of_code(join_rule) is None ==> (r matches Err(ClientError::InternalError(m)) && m@
            == INVALID_ROOM_JOIN_RULE@),
        join_rule_of_code(join_rule) matches Some(rule) ==> (r matches Ok(q) && q.name == display_name && q.invite
            == invitees && q.join_rule == crate::bridge::matrix_join_rule(rule) && q.public == (rule
            == RoomJoinRule::Public || rule == RoomJoinRule::Knock) && !q.trusted_private_chat && !q.is_direct),
{
    match RoomJoinRule::from_i32(join_rule) {
        Some(rule) => Ok(create_room_request(display_name, invitees, rule)),
        None => Err(ClientError::internal(String::from_str(INVALID_ROOM_JOIN_RULE))),
    }
}

// ---------------------------------------------------------------------------
// Messages and reactions
// ---------------------------------------------------------------------------

/// The message of a change request without content.
pub const MESSAGE_CONTENT_NOT_SET: &'static str = "Message content not set";

/// A request to change a message.
pub struct MessageChangeRequest {
    pub room_id: String,
    pub message_id: String,
    pub has_mentioned_user_ids_changed: bool,
    pub mentioned_user_ids: Vec<String>,
    pub content: Option<MessageChangeContent>,
}

/// What editing a message asks of the server: the new text, read as
/// markdown, and the users mentioned where they changed. Only text can be
/// edited; a request without content fails.
pub fn message_edit_plan(request: MessageChangeRequest) -> (r: Result<(String, Option<Vec<String>>), ClientError>)
    ensures
        match request.content {
            Some(MessageChangeContent::Text(t)) => r matches Ok((text, mentions)) && text == t.content && if request.has_mentioned_user_ids_changed {
                mentions == Some(request.mentioned_user_ids)
            } else {
                mentions is None
            },
            Some(_) => r == Err::<(String, Option<Vec<String>>), ClientError>(ClientError::NotImplemented),
            None => r matches Err(ClientError::InternalError(m)) && m@ == MESSAGE_CONTENT_NOT_SET@,
        },
{
    match request.content {
        Some(MessageChangeContent::Text(t)) => {
            let mentions = if request.has_mentioned_user_ids_changed {
                Some(request.mentioned_user_ids)
            } else {
                None
            };
            Ok((t.content, mentions))
        },
        Some(_) => Err(ClientError::NotImplemented),
        None => Err(ClientError::internal(String::from_str(MESSAGE_CONTENT_NOT_SET))),
    }
}

/// The user whose reaction is removed: the one named in the request, or
/// else the logged in user, or else nobody (the empty ID).
pub fn reacting_user(requested: Option<String>, own_user_id: Option<String>) -> (r: String)
    ensures
        match requested {
            Some(u) => r == u,
            None => match own_user_id {
                Some(o) => r == o,
                None => r@.len() == 0,
            },
        },
{
    match requested {
        Some(u) => u,
        None => match own_user_id {
            Some(o) => o,
            None => String::new(),
        },
    }
}

/// What removing a reaction answers, given what the cache removed for it:
/// the ID of the reaction event to redact, and the event that tells the
/// application that the reaction of the user was removed. Nothing cached is
/// `ReactionNotFound`.
pub fn reaction_removal(request: Reaction, user_id: String, removed: Option<ReactionMetadata>) -> (r: Result<(String, Reaction), ClientError>)
    ensures
        match removed {
            Some(meta) => r matches Ok((rid, event)) && rid == meta.reaction_id && event == (Reaction {
                room_id: request.room_id,
                message_id: request.message_id,
                reaction: request.reaction,
                user_id: Some(user_id),
            }),
            None => r == Err::<(String, Reaction), ClientError>(ClientError::ReactionNotFound),
        },
{
    match removed {
        Some(meta) => Ok(
            (
                meta.reaction_id,
                Reaction {
                    room_id: request.room_id,
                    message_id: request.message_id,
                    reaction: request.reaction,
                    user_id: Some(user_id),
                },
            ),
        ),
        None => Err(ClientError::ReactionNotFound),
    }
}


/// The user whose reaction is removed: the one named in the request, or
/// else the logged in user, or else nobody (the empty ID).
pub open spec fn reacting_user_spec(requested: Option<String>, own_user_id: Option<String>) -> Seq<char> {
    match requested {
        Some(u) => u@,
        None => match own_user_id {
            Some(o) => o@,
            None => Seq::empty(),
        },
    }
}

/// Whether the answer to removing the reaction names the removed reaction
/// event and tells that the reaction of the user was removed.
pub open spec fn removal_answered(
    r: Result<(String, Reaction), ClientError>,
    meta: ReactionMetadata,
    request: Reaction,
    user: Seq<char>,
) -> bool {
    &&& r is Ok
    &&& r->Ok_0.0 == meta.reaction_id
    &&& r->Ok_0.1.room_id == request.room_id
    &&& r->Ok_0.1.message_id == request.message_id
    &&& r->Ok_0.1.reaction == request.reaction
    &&& r->Ok_0.1.user_id is Some
    &&& r->Ok_0.1.user_id->0@ == user
}

/// Removes the reaction of the request from the cache: the reactions of the
/// reacting user with the emoji leave the message. Answers with the ID of
/// the reaction event to redact and the event that tells the application;
/// `ReactionNotFound` where the cache holds no such reaction.
pub fn remove_reaction(cache: &mut MemoryCache, request: Reaction, own_user_id: Option<String>) -> (r: Result<(String, Reaction), ClientError>)
    ensures
        ({
            let user = reacting_user_spec(request.user_id, own_user_id);
            let o = old(cache).rooms_view();
            let n = final(cache).rooms_view();
            &&& final(cache).settings() == old(cache).settings()
            &&& !o.contains_key(request.room_id@) ==> r == Err::<(String, Reaction), ClientError>(
                ClientError::ReactionNotFound,
            ) && n == o
            &&& o.contains_key(request.room_id@) ==> exists|removed: Option<ReactionMetadata>|
                {
                    &&& #[trigger] reactions_removed_by_emoji(
                        o[request.room_id@],
                        n[request.room_id@],
                        request.message_id@,
                        user,
                        request.reaction@,
                        removed,
                    )
                    &&& n.dom() == o.dom()
                    &&& forall|k: Seq<char>| #[trigger] o.contains_key(k) && k != request.room_id@ ==> n[k] == o[k]
                    &&& match removed {
                        Some(meta) => removal_answered(r, meta, request, user),
                        None => r == Err::<(String, Reaction), ClientError>(ClientError::ReactionNotFound),
                    }
                }
        }),
{
    let ghost o = cache.rooms_view();
    let ghost own = own_user_id;
    let user_id = reacting_user(crate::chat::clone_opt_str(&request.user_id), own_user_id);
    proof {
        if request.user_id is None && own is None {
            assert(user_id@ =~= Seq::<char>::empty());
        }
        assert(user_id@ == reacting_user_spec(request.user_id, own));
    }
    let removed = cache.remove_reaction_by_emoji(
        request.room_id.as_str(),
        request.message_id.as_str(),
        user_id.as_str(),
        request.reaction.as_str(),
    );
    let ghost removed_copy = removed;
    let ghost req = request;
    let r = reaction_removal(request, user_id, removed);
    proof {
        if o.contains_key(req.room_id@) {
            let n = cache.rooms_view();
            assert(reactions_removed_by_emoji(
                o[req.room_id@],
                n[req.room_id@],
                req.message_id@,
                reacting_user_spec(req.user_id, own_user_id),
                req.reaction@,
                removed_copy,
            ));
        }
    }
    r
}

} // verus!
