//! The steps of keeping a session in sync with the server: what the
//! outcome of each sync leads to.
use vstd::prelude::*;

use crate::bridge::ClientError;
use crate::chat::{StatusCode, StatusUpdate};

verus! {

/// The outcome of one sync with the server.
pub enum SyncOutcome {
    Succeeded,
    /// The server could not be reached.
    ConnectionFailed,
    /// The server does not know the access token; a soft logout keeps the
    /// session, which a token refresh restores.
    TokenUnknown { soft_logout: bool },
    /// Another failure, with its reason.
    Failed(String),
}

/// What the sync does next.
#[derive(Debug, PartialEq, Eq)]
pub enum SyncNext {
    /// Sync again.
    SyncAgain,
    /// Wait for the retry timeout, then sync again.
    RetryAfterTimeout,
    /// Refresh the access token and save the session, then sync again.
    RefreshToken,
    /// Stop syncing with the error.
    Stop(ClientError),
}

/// The state of a running sync: whether the last failure was that the
/// network was unavailable.
pub struct SyncState {
    pub network_was_unavailable: bool,
}

/// A status update with the state.
pub open spec fn status(code: StatusCode) -> StatusUpdate {
    StatusUpdate { code: code.spec_code() }
}

impl SyncState {
    /// A sync that has not failed.
    pub fn new() -> (r: Self)
        ensures
            !r.network_was_unavailable,
    {
        SyncState { network_was_unavailable: false }
    }

    /// Takes the outcome of a sync: the status updates to send to the
    /// application, in order, and what to do next. The application hears
    /// once that the network is unavailable, and that it is logged in again
    /// once a sync succeeds after that; a hard logout invalidates the
    /// session and stops.
    pub fn process_sync_result(&mut self, outcome: SyncOutcome) -> (r: (Vec<StatusUpdate>, SyncNext))
        ensures
            match outcome {
                SyncOutcome::Succeeded => {
                    &&& !final(self).network_was_unavailable
                    &&& r.1 == SyncNext::SyncAgain
                    &&& if old(self).network_was_unavailable {
                        r.0@ == seq![status(StatusCode::LoggedIn)]
                    } else {
                        r.0@.len() == 0
                    }
                },
                SyncOutcome::ConnectionFailed => {
                    &&& final(self).network_was_unavailable
                    &&& r.1 == SyncNext::RetryAfterTimeout
                    &&& if old(self).network_was_unavailable {
                        r.0@.len() == 0
                    } else {
                        r.0@ == seq![status(StatusCode::NetworkUnavailable)]
                    }
                },
                SyncOutcome::TokenUnknown { soft_logout } => {
                    &&& final(self).network_was_unavailable == old(self).network_was_unavailable
                    &&& if soft_logout {
                        r.0@.len() == 0 && r.1 == SyncNext::RefreshToken
                    } else {
                        r.0@ == seq![status(StatusCode::SessionInvalid)] && r.1 == SyncNext::Stop(
                            ClientError::LoggedOut,
                        )
                    }
                },
                SyncOutcome::Failed(reason) => {
                    &&& final(self).network_was_unavailable == old(self).network_was_unavailable
                    &&& r.0@.len() == 0
                    &&& r.1 == SyncNext::Stop(ClientError::MatrixSdkError(reason))
                },
            },
    {
        let mut events: Vec<StatusUpdate> = Vec::new();
        match outcome {
            SyncOutcome::Succeeded => {
                if self.network_was_unavailable {
                    self.network_was_unavailable = false;
                    events.push(StatusUpdate { code: StatusCode::LoggedIn.to_i32() });
                }
                (events, SyncNext::SyncAgain)
            },
            SyncOutcome::ConnectionFailed => {
                if !self.network_was_unavailable {
                    events.push(StatusUpdate { code: StatusCode::NetworkUnavailable.to_i32() });
                }
                self.network_was_unavailable = true;
                (events, SyncNext::RetryAfterTimeout)
            },
            SyncOutcome::TokenUnknown { soft_logout } => {
                if !soft_logout {
                    events.push(StatusUpdate { code: StatusCode::SessionInvalid.to_i32() });
                    (events, SyncNext::Stop(ClientError::LoggedOut))
                } else {
                    (events, SyncNext::RefreshToken)
                }
            },
            SyncOutcome::Failed(reason) => (events, SyncNext::Stop(ClientError::MatrixSdkError(reason))),
        }
    }
}

} // verus!
