//! The error taxonomy of the gateway.

use vstd::prelude::*;

verus! {

/// What went wrong, with a message for the caller.
#[derive(Clone)]
pub enum PlimErrorKind {
    NotFound(String),
    Unauthorized(String),
    Forbidden(String),
    Validation(String),
    InternalServerError(String),
}

impl PlimErrorKind {
    /// A missing plan, webhook, key, token or user.
    pub fn not_found(msg: &str) -> (r: PlimErrorKind)
        ensures
            r matches PlimErrorKind::NotFound(m) && m@ == msg@,
    {
        PlimErrorKind::NotFound(String::from_str(msg))
    }

    /// Bad credentials or a rejected token.
    pub fn unauthorized(msg: &str) -> (r: PlimErrorKind)
        ensures
            r matches PlimErrorKind::Unauthorized(m) && m@ == msg@,
    {
        PlimErrorKind::Unauthorized(String::from_str(msg))
    }

    /// A role or secret mismatch.
    pub fn forbidden(msg: &str) -> (r: PlimErrorKind)
        ensures
            r matches PlimErrorKind::Forbidden(m) && m@ == msg@,
    {
        PlimErrorKind::Forbidden(String::from_str(msg))
    }

    /// A malformed or incomplete request.
    pub fn validation(msg: &str) -> (r: PlimErrorKind)
        ensures
            r matches PlimErrorKind::Validation(m) && m@ == msg@,
    {
        PlimErrorKind::Validation(String::from_str(msg))
    }

    /// A failure of a downstream store or API.
    pub fn internal_server_error(msg: &str) -> (r: PlimErrorKind)
        ensures
            r matches PlimErrorKind::InternalServerError(m) && m@ == msg@,
    {
        PlimErrorKind::InternalServerError(String::from_str(msg))
    }

    /// The HTTP status that answers the error.
    pub fn status_code(&self) -> (r: u16)
        ensures
            r == match self {
                PlimErrorKind::NotFound(_) => 404u16,
                PlimErrorKind::Unauthorized(_) => 401u16,
                PlimErrorKind::Forbidden(_) => 403u16,
                PlimErrorKind::Validation(_) => 400u16,
                PlimErrorKind::InternalServerError(_) => 500u16,
            },
    {
        match self {
            PlimErrorKind::NotFound(_) => 404,
            PlimErrorKind::Unauthorized(_) => 401,
            PlimErrorKind::Forbidden(_) => 403,
            PlimErrorKind::Validation(_) => 400,
            PlimErrorKind::InternalServerError(_) => 500,
        }
    }

    /// The message carried by the error.
    pub fn message(&self) -> (r: &String)
        ensures
            r@ == match self {
                PlimErrorKind::NotFound(m) => m@,
                PlimErrorKind::Unauthorized(m) => m@,
                PlimErrorKind::Forbidden(m) => m@,
                PlimErrorKind::Validation(m) => m@,
                PlimErrorKind::InternalServerError(m) => m@,
            },
    {
        match self {
            PlimErrorKind::NotFound(m) => m,
            PlimErrorKind::Unauthorized(m) => m,
            PlimErrorKind::Forbidden(m) => m,
            PlimErrorKind::Validation(m) => m,
            PlimErrorKind::InternalServerError(m) => m,
        }
    }
}

} // verus!
