//! The decisions of the executor that answers the application's requests.
//!
//! Requests and responses travel as frames: eight bytes that give the
//! payload's length in little-endian order, then the payload. Each request
//! names a kind; the executor calls the client for it and routes the
//! client's answer: some kinds are answered under the request's tag, some
//! as events under tag 0, and some only when they fail.
use vstd::prelude::*;

use vstd::bytes::{lemma_auto_spec_u64_to_from_le_bytes, spec_u64_from_le_bytes, spec_u64_to_le_bytes, u64_from_le_bytes};

use crate::chat::{Error, ErrorType, ResponseContainer, ResponseContent};
use crate::proto_cache::{buffers_view, encode_proto_messages, frame, frames_encoding};

verus! {

/// The reason given with a feature that a client does not implement.
pub const NOT_IMPLEMENTED_MESSAGE: &'static str = "The requested feature is not implemented by this client";

/// The reason given for a request for a single message, which is not served.
pub const MESSAGE_REQUEST_MESSAGE: &'static str = "MessageRequest is currently not implemented";

/// An error returned from the runner.
#[derive(Debug, PartialEq, Eq, Structural)]
pub enum RunnerError {
    /// The channel for receiving requests closed.
    RequestChannelClosed,
    /// The channel for sending responses closed.
    ResponseChannelClosed,
    /// Invalid data was received on the input.
    InvalidData,
    /// An internal task panicked or was cancelled.
    TaskPanicked,
    /// An internal channel was closed.
    InternalChannelClosed,
}

/// The kinds of request that the application sends.
#[derive(Debug, Clone, Copy, PartialEq, Eq, Structural)]
pub enum RequestKind {
    Initialization,
    LoginFlows,
    IdentityProviders,
    LoginUsernamePassword,
    LoginSso,
    RecoveryKeyVerification,
    CrossSigningStart,
    CrossSigningMethodSelected,
    CrossSigningConfirm,
    VerificationAbort,
    User,
    UserSearch,
    UserStatusSetOwn,
    PublicRoomList,
    Invitation,
    InvitedReply,
    RoomList,
    RoomCreateGroup,
    RoomCreateDirect,
    RoomChange,
    RoomLeave,
    RoomJoin,
    RoomKnock,
    RoomMessages,
    RoomMarkAsRead,
    MessageSend,
    MessageRemove,
    MessageChange,
    CreateReaction,
    RemoveReaction,
    Message,
}

/// Where the outcome of a request goes.
#[derive(Debug, Clone, Copy, PartialEq, Eq, Structural)]
pub enum ResponseRoute {
    /// The answer or the failure is sent under the request's tag.
    Reply,
    /// The answer or the failure is sent under tag 0, as an event.
    Event,
    /// Only a failure is sent, under the request's tag; the client sends
    /// what succeeds as events of its own.
    FailureOnly,
    /// The request is not served: the not-implemented error is sent under
    /// the request's tag, and the client is not called.
    Unserved,
}

/// The route of each kind of request.
pub open spec fn route_of(kind: RequestKind) -> ResponseRoute {
    match kind {
        RequestKind::Initialization => ResponseRoute::Event,
        RequestKind::LoginUsernamePassword => ResponseRoute::Event,
        RequestKind::RecoveryKeyVerification => ResponseRoute::Event,
        RequestKind::VerificationAbort => ResponseRoute::Event,
        RequestKind::CrossSigningMethodSelected => ResponseRoute::FailureOnly,
        RequestKind::CrossSigningConfirm => ResponseRoute::FailureOnly,
        RequestKind::UserStatusSetOwn => ResponseRoute::FailureOnly,
        RequestKind::InvitedReply => ResponseRoute::FailureOnly,
        RequestKind::RoomKnock => ResponseRoute::FailureOnly,
        RequestKind::RoomMessages => ResponseRoute::FailureOnly,
        RequestKind::MessageRemove => ResponseRoute::FailureOnly,
        RequestKind::MessageChange => ResponseRoute::FailureOnly,
        RequestKind::CreateReaction => ResponseRoute::FailureOnly,
        RequestKind::RemoveReaction => ResponseRoute::FailureOnly,
        RequestKind::Message => ResponseRoute::Unserved,
        _ => ResponseRoute::Reply,
    }
}

/// Whether the content is the kind of answer that the client gives to the
/// kind of request.
pub open spec fn answer_fits(kind: RequestKind, c: ResponseContent) -> bool {
    match kind {
        RequestKind::Initialization => c is StatusUpdate,
        RequestKind::LoginFlows => c is LoginFlowsResponse,
        RequestKind::IdentityProviders => c is IdentityProvidersResponse,
        RequestKind::LoginUsernamePassword => c is StatusUpdate,
        RequestKind::LoginSso => c is LoginSsoResponse,
        RequestKind::RecoveryKeyVerification => c is VerificationEndEvent,
        RequestKind::CrossSigningStart => c is CrossSigningStartResponse,
        RequestKind::VerificationAbort => c is VerificationEndEvent,
        RequestKind::User => c is UserResponse,
        RequestKind::UserSearch => c is UserSearchResponse,
        RequestKind::PublicRoomList => c is PublicRoomListResponse,
        RequestKind::Invitation => c is RoomChangeEvent,
        RequestKind::RoomList => c is RoomListResponse,
        RequestKind::RoomCreateGroup => c is RoomCreatedEvent,
        RequestKind::RoomCreateDirect => c is RoomCreatedEvent,
        RequestKind::RoomChange => c is RoomChangeEvent,
        RequestKind::RoomLeave => c is RoomLeftEvent,
        RequestKind::RoomJoin => c is RoomCreatedEvent,
        RequestKind::RoomMarkAsRead => c is RoomChangeEvent,
        RequestKind::MessageSend => c is MessageSendResponse,
        _ => false,
    }
}

/// Whether the client's answer has the shape that the kind of request
/// calls for: content of the right kind for requests that are answered,
/// nothing for those whose success is not answered.
pub open spec fn answer_well_formed(kind: RequestKind, answer: Result<Option<ResponseContent>, Error>) -> bool {
    match answer {
        Ok(Some(c)) => (route_of(kind) is Reply || route_of(kind) is Event) && answer_fits(kind, c),
        Ok(None) => route_of(kind) is FailureOnly,
        Err(_) => true,
    }
}

/// The route of the kind of request.
pub fn response_route(kind: RequestKind) -> (r: ResponseRoute)
    ensures
        r == route_of(kind),
{
    match kind {
        RequestKind::Initialization => ResponseRoute::Event,
        RequestKind::LoginUsernamePassword => ResponseRoute::Event,
        RequestKind::RecoveryKeyVerification => ResponseRoute::Event,
        RequestKind::VerificationAbort => ResponseRoute::Event,
        RequestKind::CrossSigningMethodSelected => ResponseRoute::FailureOnly,
        RequestKind::CrossSigningConfirm => ResponseRoute::FailureOnly,
        RequestKind::UserStatusSetOwn => ResponseRoute::FailureOnly,
        RequestKind::InvitedReply => ResponseRoute::FailureOnly,
        RequestKind::RoomKnock => ResponseRoute::FailureOnly,
        RequestKind::RoomMessages => ResponseRoute::FailureOnly,
        RequestKind::MessageRemove => ResponseRoute::FailureOnly,
        RequestKind::MessageChange => ResponseRoute::FailureOnly,
        RequestKind::CreateReaction => ResponseRoute::FailureOnly,
        RequestKind::RemoveReaction => ResponseRoute::FailureOnly,
        RequestKind::Message => ResponseRoute::Unserved,
        _ => ResponseRoute::Reply,
    }
}

/// Whether the content is the kind of answer that the client gives to the
/// kind of request.
pub fn fits_request(kind: RequestKind, c: &ResponseContent) -> (r: bool)
    ensures
        r == answer_fits(kind, *c),
{
    match kind {
        RequestKind::Initialization => matches!(c, ResponseContent::StatusUpdate(_)),
        RequestKind::LoginFlows => matches!(c, ResponseContent::LoginFlowsResponse(_)),
        RequestKind::IdentityProviders => matches!(c, ResponseContent::IdentityProvidersResponse(_)),
        RequestKind::LoginUsernamePassword => matches!(c, ResponseContent::StatusUpdate(_)),
        RequestKind::LoginSso => matches!(c, ResponseContent::LoginSsoResponse(_)),
        RequestKind::RecoveryKeyVerification => matches!(c, ResponseContent::VerificationEndEvent(_)),
        RequestKind::CrossSigningStart => matches!(c, ResponseContent::CrossSigningStartResponse(_)),
        RequestKind::VerificationAbort => matches!(c, ResponseContent::VerificationEndEvent(_)),
        RequestKind::User => matches!(c, ResponseContent::UserResponse(_)),
        RequestKind::UserSearch => matches!(c, ResponseContent::UserSearchResponse(_)),
        RequestKind::PublicRoomList => matches!(c, ResponseContent::PublicRoomListResponse(_)),
        RequestKind::Invitation => matches!(c, ResponseContent::RoomChangeEvent(_)),
        RequestKind::RoomList => matches!(c, ResponseContent::RoomListResponse(_)),
        RequestKind::RoomCreateGroup => matches!(c, ResponseContent::RoomCreatedEvent(_)),
        RequestKind::RoomCreateDirect => matches!(c, ResponseContent::RoomCreatedEvent(_)),
        RequestKind::RoomChange => matches!(c, ResponseContent::RoomChangeEvent(_)),
        RequestKind::RoomLeave => matches!(c, ResponseContent::RoomLeftEvent(_)),
        RequestKind::RoomJoin => matches!(c, ResponseContent::RoomCreatedEvent(_)),
        RequestKind::RoomMarkAsRead => matches!(c, ResponseContent::RoomChangeEvent(_)),
        RequestKind::MessageSend => matches!(c, ResponseContent::MessageSendResponse(_)),
        _ => false,
    }
}

/// Whether the client's answer has the shape that the kind of request
/// calls for; see `answer_well_formed`.
pub fn answer_is_well_formed(kind: RequestKind, answer: &Result<Option<ResponseContent>, Error>) -> (r: bool)
    ensures
        r == answer_well_formed(kind, *answer),
{
    match answer {
        Ok(Some(c)) => {
            let route = response_route(kind);
            (matches!(route, ResponseRoute::Reply) || matches!(route, ResponseRoute::Event)) && fits_request(kind, c)
        },
        Ok(None) => matches!(response_route(kind), ResponseRoute::FailureOnly),
        Err(_) => true,
    }
}

/// The error of a feature that the client does not implement.
pub fn not_implemented_error() -> (r: Error)
    ensures
        r.error_type == ErrorType::NotImplemented.spec_code(),
        r.error_string matches Some(m) && m@ == NOT_IMPLEMENTED_MESSAGE@,
{
    Error {
        error_type: ErrorType::NotImplemented.to_i32(),
        error_string: Some(String::from_str(NOT_IMPLEMENTED_MESSAGE)),
    }
}

/// The error sent for a request for a single message.
pub fn message_request_error() -> (r: Error)
    ensures
        r.error_type == ErrorType::NotImplemented.spec_code(),
        r.error_string matches Some(m) && m@ == MESSAGE_REQUEST_MESSAGE@,
{
    Error {
        error_type: ErrorType::NotImplemented.to_i32(),
        error_string: Some(String::from_str(MESSAGE_REQUEST_MESSAGE)),
    }
}

/// The container that carries an outcome under the tag: the content, or
/// the error.
pub open spec fn result_container(tag: u64, content: Result<ResponseContent, Error>) -> ResponseContainer {
    ResponseContainer {
        tag,
        content: Some(
            match content {
                Ok(c) => c,
                Err(e) => ResponseContent::Error(e),
            },
        ),
    }
}

/// The container that carries an outcome under the tag.
pub fn send_result(tag: u64, content: Result<ResponseContent, Error>) -> (r: ResponseContainer)
    ensures
        r == result_container(tag, content),
{
    let content = match content {
        Ok(c) => c,
        Err(err) => ResponseContent::Error(err),
    };
    ResponseContainer { tag, content: Some(content) }
}

/// What the executor sends for a request with the tag, given the client's
/// answer: `Ok(Some(c))` for content, `Ok(None)` where the client gives
/// none, `Err(e)` where it failed. Nothing is sent for a success of a kind
/// that is answered only when it fails (and no kind that is answered gives
/// none).
pub open spec fn request_outcome(
    tag: u64,
    kind: RequestKind,
    answer: Result<Option<ResponseContent>, Error>,
) -> Option<ResponseContainer> {
    let to: u64 = if route_of(kind) is Event {
        0
    } else {
        tag
    };
    match route_of(kind) {
        ResponseRoute::Reply | ResponseRoute::Event => match answer {
            Ok(Some(c)) => Some(result_container(to, Ok(c))),
            Ok(None) => None,
            Err(e) => Some(result_container(to, Err(e))),
        },
        ResponseRoute::FailureOnly => match answer {
            Err(e) => Some(result_container(tag, Err(e))),
            _ => None,
        },
        ResponseRoute::Unserved => None,
    }
}

/// What the executor sends once the client answered a request with the
/// tag; see `request_outcome`.
pub fn complete_request(tag: u64, kind: RequestKind, answer: Result<Option<ResponseContent>, Error>) -> (r: Option<
    ResponseContainer,
>)
    requires
        answer_well_formed(kind, answer),
        !(route_of(kind) is Unserved),
    ensures
        r == request_outcome(tag, kind, answer),
{
    match response_route(kind) {
        ResponseRoute::Reply | ResponseRoute::Event => {
            let to = if matches!(response_route(kind), ResponseRoute::Event) {
                0
            } else {
                tag
            };
            match answer {
                Ok(Some(c)) => Some(send_result(to, Ok(c))),
                Ok(None) => None,
                Err(e) => Some(send_result(to, Err(e))),
            }
        },
        ResponseRoute::FailureOnly => match answer {
            Err(e) => Some(send_result(tag, Err(e))),
            _ => None,
        },
        ResponseRoute::Unserved => None,
    }
}

/// A task for the executor.
#[derive(Debug, PartialEq, Eq)]
pub enum ExecutorTask {
    /// Stops the executor.
    Exit,
    /// A request with its tag, and its kind where it has content.
    Request(u64, Option<RequestKind>),
    /// A response or event to hand to the client's handler, then to the
    /// output.
    Response(ResponseContainer),
}

/// What the executor does next.
#[derive(Debug, PartialEq, Eq)]
pub enum ExecutorAction {
    /// Stop.
    Stop,
    /// Call the client for the request with the tag and kind, then send
    /// what `complete_request` gives for its answer.
    CallClient(u64, RequestKind),
    /// Hand the container to the client's response handler, then to the
    /// output.
    Respond(ResponseContainer),
}

/// Whether the container answers the request with the tag with the error
/// for a request for a single message.
pub open spec fn unserved_reply(tag: u64, c: ResponseContainer) -> bool {
    &&& c.tag == tag
    &&& c.content matches Some(ResponseContent::Error(e))
    &&& e.error_type == ErrorType::NotImplemented.spec_code()
    &&& e.error_string matches Some(m) && m@ == MESSAGE_REQUEST_MESSAGE@
}

/// What the executor does for a task. A request without content is not
/// accepted: it means that the input was corrupt.
pub fn next_action(task: ExecutorTask) -> (r: ExecutorAction)
    requires
        task matches ExecutorTask::Request(_, k) ==> k is Some,
    ensures
        match task {
            ExecutorTask::Exit => r is Stop,
            ExecutorTask::Request(tag, k) => match k->0 {
                RequestKind::Message => r matches ExecutorAction::Respond(c) && unserved_reply(tag, c),
                kind => r == ExecutorAction::CallClient(tag, kind),
            },
            ExecutorTask::Response(c) => r == ExecutorAction::Respond(c),
        },
{
    match task {
        ExecutorTask::Exit => ExecutorAction::Stop,
        ExecutorTask::Request(tag, kind) => {
            let kind = match kind {
                Some(k) => k,
                None => {
                    return ExecutorAction::Stop;
                },
            };
            match kind {
                RequestKind::Message => ExecutorAction::Respond(send_result(tag, Err(message_request_error()))),
                _ => ExecutorAction::CallClient(tag, kind),
            }
        },
        ExecutorTask::Response(c) => ExecutorAction::Respond(c),
    }
}

/// A task for the output.
#[derive(Debug, PartialEq, Eq)]
pub enum OutputTask {
    /// Stops the output.
    Exit,
    /// Writes the response to the application.
    Response(ResponseContainer),
}

/// The container of an event that a request's handler sends: under tag 0.
pub fn event_container(content: ResponseContent) -> (r: ResponseContainer)
    ensures
        r.tag == 0,
        r.content == Some(content),
{
    ResponseContainer { tag: 0, content: Some(content) }
}

/// The container of an error that a request's handler sends: under tag 0.
pub fn error_container(err: Error) -> (r: ResponseContainer)
    ensures
        r.tag == 0,
        r.content == Some(ResponseContent::Error(err)),
{
    ResponseContainer { tag: 0, content: Some(ResponseContent::Error(err)) }
}

/// The container of one part of a response sent in parts: under the tag of
/// the request that it answers.
pub fn multipart_item(tag: u64, item: ResponseContent) -> (r: ResponseContainer)
    ensures
        r.tag == tag,
        r.content == Some(item),
{
    ResponseContainer { tag, content: Some(item) }
}

/// The container that ends a response sent in parts.
pub fn multipart_end(tag: u64) -> (r: ResponseContainer)
    ensures
        r.tag == tag,
        r.content == Some(ResponseContent::MultipartEnd(crate::chat::MultipartEnd {})),
{
    ResponseContainer { tag, content: Some(ResponseContent::MultipartEnd(crate::chat::MultipartEnd {})) }
}

// ---------------------------------------------------------------------------
// Frames
// ---------------------------------------------------------------------------

/// The length of a request's payload, from the eight bytes that precede it.
/// Fewer bytes mean that the input ended: the request channel closed.
pub fn read_size(header: &[u8]) -> (r: Result<u64, RunnerError>)
    ensures
        header@.len() == 8 ==> r == Ok::<u64, RunnerError>(spec_u64_from_le_bytes(header@)),
        header@.len() < 8 ==> r == Err::<u64, RunnerError>(RunnerError::RequestChannelClosed),
        header@.len() > 8 ==> r == Ok::<u64, RunnerError>(spec_u64_from_le_bytes(header@.subrange(0, 8))),
{
    if header.len() < 8 {
        return Err(RunnerError::RequestChannelClosed);
    }
    let first = vstd::slice::slice_subrange(header, 0, 8);
    proof {
        if header@.len() == 8 {
            assert(first@ =~= header@);
        }
    }
    Ok(u64_from_le_bytes(first))
}

/// The frame that carries an encoded response: its length as eight
/// little-endian bytes, then the bytes.
pub fn response_frame(payload: Vec<u8>) -> (r: Vec<u8>)
    ensures
        r@ == frame(payload@),
{
    let ghost p = payload@;
    let messages = vec![payload];
    let r = encode_proto_messages(&messages);
    proof {
        assert(buffers_view(messages@) =~= seq![p]);
        assert(seq![p].drop_last() =~= Seq::<Seq<u8>>::empty());
        assert(frames_encoding(seq![p]) == frames_encoding(Seq::<Seq<u8>>::empty()) + frame(p));
        assert(frames_encoding(Seq::<Seq<u8>>::empty()) =~= Seq::<u8>::empty());
        assert(Seq::<u8>::empty() + frame(p) =~= frame(p));
    }
    r
}


/// Every failure of a request that is served reaches the application:
/// under the request's tag, or under tag 0 for a request answered by
/// events; and every answer of a request that is answered does too.
pub proof fn lemma_outcomes_reach_the_application(tag: u64, kind: RequestKind, answer: Result<Option<ResponseContent>, Error>)
    requires
        !(route_of(kind) is Unserved),
        answer_well_formed(kind, answer),
    ensures
        answer is Err ==> request_outcome(tag, kind, answer) == Some(
            result_container(
                if route_of(kind) is Event {
                    0
                } else {
                    tag
                },
                Err(answer->Err_0),
            ),
        ),
        answer matches Ok(Some(c)) ==> request_outcome(tag, kind, answer) == Some(
            result_container(
                if route_of(kind) is Event {
                    0
                } else {
                    tag
                },
                Ok(c),
            ),
        ),
        answer matches Ok(None) ==> request_outcome(tag, kind, answer) is None,
{
}

/// The kinds of request whose outcome the application learns from events:
/// the initialization, the login with user name and password, the
/// verification with the recovery key and the abort of a verification.
pub open spec fn answered_by_events(kind: RequestKind) -> bool {
    kind == RequestKind::Initialization || kind == RequestKind::LoginUsernamePassword || kind
        == RequestKind::RecoveryKeyVerification || kind == RequestKind::VerificationAbort
}

/// The kinds of request whose success the client reports with events of its
/// own, so that only their failure is answered.
pub open spec fn answered_only_on_failure(kind: RequestKind) -> bool {
    kind == RequestKind::CrossSigningMethodSelected || kind == RequestKind::CrossSigningConfirm || kind
        == RequestKind::UserStatusSetOwn || kind == RequestKind::InvitedReply || kind == RequestKind::RoomKnock
        || kind == RequestKind::RoomMessages || kind == RequestKind::MessageRemove || kind
        == RequestKind::MessageChange || kind == RequestKind::CreateReaction || kind
        == RequestKind::RemoveReaction
}

/// Where the outcome of each kind of request goes. An answer that fits the
/// kind of request is accepted, and is sent under the request's tag, except
/// for the kinds answered by events, whose answer goes under tag 0; so a
/// room list, a user, a created room or a sent message answers its request.
/// A failure goes the same way. The kinds answered only on failure accept
/// no content and send nothing on success. Only a request for a single
/// message is not served.
pub proof fn lemma_each_kind_answered_where_it_belongs(tag: u64, kind: RequestKind, c: ResponseContent, e: Error)
    ensures
        answer_fits(kind, c) && !answered_by_events(kind) ==> answer_well_formed(kind, Ok(Some(c)))
            && request_outcome(tag, kind, Ok(Some(c))) == Some(result_container(tag, Ok(c))),
        answer_fits(kind, c) && answered_by_events(kind) ==> answer_well_formed(kind, Ok(Some(c)))
            && request_outcome(tag, kind, Ok(Some(c))) == Some(result_container(0, Ok(c))),
        kind != RequestKind::Message && !answered_by_events(kind) ==> request_outcome(tag, kind, Err(e)) == Some(
            result_container(tag, Err(e)),
        ),
        answered_by_events(kind) ==> request_outcome(tag, kind, Err(e)) == Some(result_container(0, Err(e))),
        answered_only_on_failure(kind) ==> answer_well_formed(kind, Ok(None)) && request_outcome(
            tag,
            kind,
            Ok(None),
        ) is None,
        !(route_of(kind) is Unserved) <==> kind != RequestKind::Message,
{
}

/// The size that the receiver reads from a frame's first eight bytes is
/// the length of the payload that the frame carries.
pub proof fn lemma_frame_size_read_back(payload: Seq<u8>)
    requires
        payload.len() <= u64::MAX,
    ensures
        frame(payload).len() == 8 + payload.len(),
        spec_u64_from_le_bytes(frame(payload).subrange(0, 8)) == payload.len(),
        frame(payload).subrange(8, frame(payload).len() as int) == payload,
{
    lemma_auto_spec_u64_to_from_le_bytes();
    let size = spec_u64_to_le_bytes(payload.len() as u64);
    assert(frame(payload).subrange(0, 8) =~= size);
    assert(frame(payload).subrange(8, frame(payload).len() as int) =~= payload);
}

} // verus!
