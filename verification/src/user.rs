//! Keeping cached users up to date with the server.
use vstd::prelude::*;

use crate::builder::{user_difference, UserChangeEventBuilder};
use crate::chat::{opt_status_eq, opt_str_eq, User, UserChangeEvent, UserView};
use crate::text::str_equal;

verus! {

/// Whether two users are the same in every field.
pub fn users_equal(a: &User, b: &User) -> (r: bool)
    ensures
        r == (a@ == b@),
{
    str_equal(a.user_id.as_str(), b.user_id.as_str()) && opt_str_eq(&a.display_name, &b.display_name)
        && opt_str_eq(&a.avatar_path, &b.avatar_path) && opt_status_eq(&a.status, &b.status)
}

/// The view of a user of whom nothing is known.
pub open spec fn unknown_user() -> UserView {
    UserView { user_id: Seq::empty(), display_name: None, avatar_path: None, status: None }
}

/// The change to send once a cached user was fetched again: none where the
/// cached user (or, where none is cached, a user of whom nothing is known)
/// is the fetched one, else every field in which it differs.
pub fn user_sync_event(cached: Option<User>, fetched: &User) -> (r: Option<UserChangeEvent>)
    ensures
        ({
            let c = match cached {
                Some(u) => u@,
                None => unknown_user(),
            };
            if c == fetched@ {
                r is None
            } else {
                r matches Some(e) && e@ == user_difference(c, fetched@)
            }
        }),
{
    let cached = match cached {
        Some(u) => u,
        None => User::default(),
    };
    if users_equal(&cached, fetched) {
        None
    } else {
        Some(UserChangeEventBuilder::compare_users(&cached, fetched).to_proto())
    }
}

} // verus!
