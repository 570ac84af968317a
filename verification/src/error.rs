//! Errors of the group, captcha, customer-app and user services.

use vstd::prelude::*;

verus! {

/// The codes of the service errors.
#[derive(Debug, Clone, Copy, PartialEq, Eq, Structural)]
pub enum ServiceErrorCode {
    GroupAccess,
    GroupUserRank,
    GroupKeyNotFound,
    GroupNoKeys,
    UnexpectedTime,
    CaptchaNotFound,
    CaptchaTooOld,
    CaptchaWrong,
    CaptchaCreate,
    AppTokenNotFound,
    AppNotFound,
    UserExists,
}

/// A refused request: the HTTP status, the service code and the message for
/// the end user.
#[derive(Debug, Clone, Copy, PartialEq, Eq)]
pub struct ServiceError {
    pub http_status_code: u16,
    pub error_code: ServiceErrorCode,
    pub msg: &'static str,
}

impl ServiceError {
    pub fn new_msg(http_status_code: u16, error_code: ServiceErrorCode, msg: &'static str) -> (e: Self)
        ensures
            e.http_status_code == http_status_code,
            e.error_code == error_code,
            e.msg == msg,
    {
        ServiceError { http_status_code, error_code, msg }
    }
}

/// What a lookup found, or the given error where it found nothing.
pub fn found_or<T>(found: Option<T>, missing: ServiceError) -> (res: Result<T, ServiceError>)
    ensures
        match found {
            Some(v) => res == Ok::<T, ServiceError>(v),
            None => res == Err::<T, ServiceError>(missing),
        },
{
    match found {
        Some(v) => Ok(v),
        None => Err(missing),
    }
}

} // verus!
