use gouda::bridge::ClientError;
use gouda::chat::{StatusCode, StatusUpdate};
use gouda::session::{SyncNext, SyncOutcome, SyncState};

fn status(code: StatusCode) -> StatusUpdate {
    StatusUpdate { code: code.to_i32() }
}

#[test]
fn session_network_unavailable_is_reported_once() {
    let mut state = SyncState::new();
    let (events, next) = state.process_sync_result(SyncOutcome::ConnectionFailed);
    assert_eq!(events, vec![status(StatusCode::NetworkUnavailable)]);
    assert_eq!(next, SyncNext::RetryAfterTimeout);
    let (events, _) = state.process_sync_result(SyncOutcome::ConnectionFailed);
    assert!(events.is_empty());
    let (events, next) = state.process_sync_result(SyncOutcome::Succeeded);
    assert_eq!(events, vec![status(StatusCode::LoggedIn)]);
    assert_eq!(next, SyncNext::SyncAgain);
    let (events, _) = state.process_sync_result(SyncOutcome::Succeeded);
    assert!(events.is_empty());
}

#[test]
fn session_token_errors() {
    let mut state = SyncState::new();
    let (events, next) = state.process_sync_result(SyncOutcome::TokenUnknown { soft_logout: true });
    assert!(events.is_empty());
    assert_eq!(next, SyncNext::RefreshToken);
    let (events, next) = state.process_sync_result(SyncOutcome::TokenUnknown { soft_logout: false });
    assert_eq!(events, vec![status(StatusCode::SessionInvalid)]);
    assert_eq!(next, SyncNext::Stop(ClientError::LoggedOut));
    let (_, next) = state.process_sync_result(SyncOutcome::Failed("oops".to_owned()));
    assert_eq!(next, SyncNext::Stop(ClientError::MatrixSdkError("oops".to_owned())));
}
