use gouda::chat::{
    Error, ErrorType, LoginSsoResponse, ResponseContainer, ResponseContent, StatusCode, StatusUpdate,
};
use gouda::executor::{
    complete_request, error_container, event_container, multipart_end, multipart_item,
    next_action, not_implemented_error, read_size, response_frame, response_route, send_result,
    ExecutorAction, ExecutorTask, RequestKind, ResponseRoute, RunnerError,
};

fn error(msg: &str) -> Error {
    Error { error_type: ErrorType::Network.to_i32(), error_string: Some(msg.to_owned()) }
}

#[test]
fn executor_routes() {
    assert_eq!(response_route(RequestKind::Initialization), ResponseRoute::Event);
    assert_eq!(response_route(RequestKind::LoginFlows), ResponseRoute::Reply);
    assert_eq!(response_route(RequestKind::RoomKnock), ResponseRoute::FailureOnly);
    assert_eq!(response_route(RequestKind::Message), ResponseRoute::Unserved);
}

#[test]
fn executor_login_answer_is_an_event() {
    let answer = Ok(Some(ResponseContent::StatusUpdate(StatusUpdate { code: StatusCode::LoggedIn.to_i32() })));
    let sent = complete_request(12, RequestKind::LoginUsernamePassword, answer);
    assert_eq!(
        sent,
        Some(ResponseContainer {
            tag: 0,
            content: Some(ResponseContent::StatusUpdate(StatusUpdate { code: 1 })),
        })
    );
}

#[test]
fn executor_reply_keeps_the_tag() {
    let answer = Ok(Some(ResponseContent::LoginSsoResponse(LoginSsoResponse {
        login_url: "https://some.backend".to_owned(),
    })));
    let sent = complete_request(13, RequestKind::LoginSso, answer).unwrap();
    assert_eq!(sent.tag, 13);
    assert_eq!(
        sent.content,
        Some(ResponseContent::LoginSsoResponse(LoginSsoResponse { login_url: "https://some.backend".to_owned() }))
    );
}

#[test]
fn executor_failure_is_sent_under_the_tag() {
    let sent = complete_request(7, RequestKind::RoomLeave, Err(error("down")));
    assert_eq!(sent, Some(ResponseContainer { tag: 7, content: Some(ResponseContent::Error(error("down"))) }));
    let sent = complete_request(7, RequestKind::MessageChange, Err(error("down")));
    assert_eq!(sent, Some(ResponseContainer { tag: 7, content: Some(ResponseContent::Error(error("down"))) }));
    let sent = complete_request(7, RequestKind::Initialization, Err(error("down")));
    assert_eq!(sent, Some(ResponseContainer { tag: 0, content: Some(ResponseContent::Error(error("down"))) }));
}

#[test]
fn executor_success_without_answer_sends_nothing() {
    assert_eq!(complete_request(5, RequestKind::CreateReaction, Ok(None)), None);
    assert_eq!(complete_request(5, RequestKind::UserStatusSetOwn, Ok(None)), None);
}

#[test]
fn executor_next_actions() {
    assert_eq!(next_action(ExecutorTask::Exit), ExecutorAction::Stop);
    assert_eq!(
        next_action(ExecutorTask::Request(3, Some(RequestKind::RoomList))),
        ExecutorAction::CallClient(3, RequestKind::RoomList)
    );
    let response = ResponseContainer { tag: 4, content: None };
    assert_eq!(
        next_action(ExecutorTask::Response(ResponseContainer { tag: 4, content: None })),
        ExecutorAction::Respond(response)
    );
    match next_action(ExecutorTask::Request(9, Some(RequestKind::Message))) {
        ExecutorAction::Respond(c) => {
            assert_eq!(c.tag, 9);
            assert_eq!(
                c.content,
                Some(ResponseContent::Error(Error {
                    error_type: ErrorType::NotImplemented.to_i32(),
                    error_string: Some("MessageRequest is currently not implemented".to_owned()),
                }))
            );
        }
        other => panic!("unexpected action {other:?}"),
    }
}

#[test]
fn executor_not_implemented_error() {
    let e = not_implemented_error();
    assert_eq!(e.error_type, 1);
    assert_eq!(e.error_string, Some("The requested feature is not implemented by this client".to_owned()));
}

#[test]
fn executor_send_result() {
    let c = send_result(2, Err(error("x")));
    assert_eq!(c, ResponseContainer { tag: 2, content: Some(ResponseContent::Error(error("x"))) });
}

#[test]
fn executor_context_containers() {
    let e = error_container(error("y"));
    assert_eq!(e.tag, 0);
    let ev = event_container(ResponseContent::StatusUpdate(StatusUpdate { code: 23 }));
    assert_eq!(ev, ResponseContainer { tag: 0, content: Some(ResponseContent::StatusUpdate(StatusUpdate { code: 23 })) });
    assert_eq!(multipart_item(8, ResponseContent::StatusUpdate(StatusUpdate { code: 2 })).tag, 8);
    assert_eq!(multipart_end(8).tag, 8);
}

#[test]
fn executor_read_size() {
    assert_eq!(read_size(&[0x61, 0x96, 0x0a, 0x00, 0x00, 0x00, 0x00, 0x00]), Ok(693857));
    assert_eq!(read_size(&[0x61, 0x96, 0x0a]), Err(RunnerError::RequestChannelClosed));
}

#[test]
fn executor_response_frame() {
    let framed = response_frame(vec![0x08, 0x17]);
    assert_eq!(framed, vec![0x02, 0, 0, 0, 0, 0, 0, 0, 0x08, 0x17]);
}
