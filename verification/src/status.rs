//! How the workflow reads an HTTP status code.

use vstd::prelude::*;

verus! {

/// The status that tells that the credentials were not accepted.
pub const UNAUTHORIZED: u16 = 401;

/// What a status code means to the workflow.
#[derive(Debug, Clone, Copy, PartialEq, Eq)]
pub enum StatusClass {
    /// 200 to 299: the request was served.
    Success,
    /// 401: the token is invalid or has expired.
    AuthFailure,
    /// Any other status: the request failed.
    RequestFailure,
}

/// A status of the 2xx class.
pub open spec fn is_success(status: u16) -> bool {
    200 <= status < 300
}

/// The class of a status code.
pub open spec fn class_of(status: u16) -> StatusClass {
    if is_success(status) {
        StatusClass::Success
    } else if status == UNAUTHORIZED {
        StatusClass::AuthFailure
    } else {
        StatusClass::RequestFailure
    }
}

/// Classifies a status code.
pub fn classify(status: u16) -> (class: StatusClass)
    ensures
        class == class_of(status),
{
    if 200 <= status && status < 300 {
        StatusClass::Success
    } else if status == UNAUTHORIZED {
        StatusClass::AuthFailure
    } else {
        StatusClass::RequestFailure
    }
}

/// Whether a status is of the 2xx class.
pub fn succeeded(status: u16) -> (ok: bool)
    ensures
        ok == is_success(status),
{
    200 <= status && status < 300
}

} // verus!
