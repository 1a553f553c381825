//! Logging in: who a session belongs to, and how long a failed login takes.

use vstd::prelude::*;

use crate::data::users::{UserId, UserSnapshot};
use crate::data::{Data, DataError};
use crate::text::{nfc_form, nfc_text};

verus! {

/// Age of a cookie that persists, in seconds: thirty days.
pub const MAX_AGE_PERSIST: i64 = 2_592_000;

/// Least time that a failed login takes, in milliseconds.
pub const MIN_AUTH_DURATION_MS: u64 = 1000;

/// Most that is added at random to the time of a failed login, in
/// milliseconds.
pub const AUTH_DURATION_EXTEND_MS: u64 = 1000;

/// Why a request has no user.
#[derive(Debug, Clone, Copy, PartialEq, Eq, Structural)]
pub enum SessionError {
    NoSession,
    InternalError,
}

/// The user that a session belongs to. `session_user` is the id that the
/// data of the session hold, or nothing where they hold none: a session
/// whose data are corrupt counts as no session, and so does one of a user
/// that is gone.
pub fn get_user_session(data: &Data, session_user: Option<UserId>) -> (res: Result<
    UserSnapshot,
    SessionError,
>)
    ensures
        match session_user {
            Some(id) => match data@.user(id) {
                Some(row) => res matches Ok(user) && user@ == row,
                None => res matches Err(SessionError::NoSession),
            },
            None => res matches Err(SessionError::NoSession),
        },
{
    let id = match session_user {
        Some(id) => id,
        None => {
            return Err(SessionError::NoSession);
        },
    };
    match data.user(id) {
        Ok(Some(user)) => Ok(user),
        Ok(None) => Err(SessionError::NoSession),
        Err(_) => Err(SessionError::InternalError),
    }
}

/// The user that logs in under a name: the user whose name is the
/// normalization form C of the name that was given.
pub fn find_user(data: &Data, name: &str) -> (res: Result<Option<UserSnapshot>, DataError>)
    ensures
        res matches Ok(found) && match (found, data@.user_by_name(nfc_form(name@))) {
            (Some(user), Some(row)) => user@ == row,
            (None, None) => true,
            _ => false,
        },
{
    let name = nfc_text(name);
    data.user_by_name(name.as_str())
}

/// The age of the cookie of a new session: thirty days where the session is
/// to persist.
pub fn login_max_age(persist: bool) -> (max_age: Option<i64>)
    ensures
        max_age == if persist {
            Some(MAX_AGE_PERSIST)
        } else {
            None
        },
{
    if persist {
        Some(MAX_AGE_PERSIST)
    } else {
        None
    }
}

/// The least time that a failed login takes on the draw `draw`, in
/// milliseconds: a second and, at random, up to a second more. The draw
/// stands for the fraction that its upper 53 bits are of two to the power of
/// 53.
pub open spec fn response_delay(draw: u64) -> u64 {
    (MIN_AUTH_DURATION_MS + (draw / 2048) * AUTH_DURATION_EXTEND_MS / 0x20_0000_0000_0000) as u64
}

/// Used to determine an earliest allowed response time for unsuccessful login
pub fn get_earliest_response_delay(draw: u64) -> (delay: u64)
    ensures
        delay == response_delay(draw),
        MIN_AUTH_DURATION_MS <= delay < MIN_AUTH_DURATION_MS + AUTH_DURATION_EXTEND_MS,
{
    let fraction: u128 = (draw / 2048) as u128;
    assert(fraction * 1000 / 0x20_0000_0000_0000 < 1000) by (nonlinear_arith)
        requires
            fraction < 0x20_0000_0000_0000,
    ;
    let extend: u128 = fraction * (AUTH_DURATION_EXTEND_MS as u128) / 0x20_0000_0000_0000u128;
    MIN_AUTH_DURATION_MS + extend as u64
}

} // verus!
