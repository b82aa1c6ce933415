//! Why a request is turned away, and how the answer to it reads.

use vstd::prelude::*;

verus! {

/// The reasons for which this crate turns a request away.
#[derive(Clone, Copy, PartialEq, Eq, Structural, Debug)]
pub enum AuthError {
    /// No stored user has the presented id and an unexpired refresh token equal to the presented
    /// one.
    InvalidCredentials,
    /// The request carries no `Authorization` header of the form `Bearer <token>`.
    InvalidAuthorizationHeader,
    /// The access token is malformed, forged, expired or made for someone else.
    InvalidToken,
    /// The server, not the request, is at fault.
    Internal,
}

impl AuthError {
    /// The status of the HTTP answer: `401 Unauthorized`, or `500 Internal Server Error` where the
    /// request is not to blame.
    pub open spec fn spec_status(self) -> u16 {
        match self {
            AuthError::Internal => 500,
            _ => 401,
        }
    }

    /// The machine-readable code in the body of the answer; an internal error has none.
    pub open spec fn spec_code(self) -> Option<Seq<char>> {
        match self {
            AuthError::InvalidCredentials => Some("INVALID_CREDENTIALS"@),
            AuthError::InvalidAuthorizationHeader => Some("INVALID_AUTHORIZATION_HEADER"@),
            AuthError::InvalidToken => Some("INVALID_TOKEN"@),
            AuthError::Internal => None,
        }
    }

    /// The text for people in the body of the answer; an internal error tells nothing.
    pub open spec fn spec_message(self) -> Seq<char> {
        match self {
            AuthError::InvalidCredentials => "invalid or expired credentials"@,
            AuthError::InvalidAuthorizationHeader => "invalid or missing authorization header"@,
            AuthError::InvalidToken => "malformed or invalid token"@,
            AuthError::Internal => ""@,
        }
    }

    /// The status of the HTTP answer.
    pub fn status(&self) -> (status: u16)
        ensures
            status == self.spec_status(),
    {
        match self {
            AuthError::Internal => 500,
            _ => 401,
        }
    }

    /// The machine-readable code in the body of the answer, if it has one.
    pub fn code(&self) -> (code: Option<&'static str>)
        ensures
            match code {
                Some(text) => self.spec_code() == Some(text@),
                None => self.spec_code() is None,
            },
    {
        match self {
            AuthError::InvalidCredentials => Some("INVALID_CREDENTIALS"),
            AuthError::InvalidAuthorizationHeader => Some("INVALID_AUTHORIZATION_HEADER"),
            AuthError::InvalidToken => Some("INVALID_TOKEN"),
            AuthError::Internal => None,
        }
    }

    /// The text for people in the body of the answer.
    pub fn message(&self) -> (message: &'static str)
        ensures
            message@ == self.spec_message(),
    {
        match self {
            AuthError::InvalidCredentials => "invalid or expired credentials",
            AuthError::InvalidAuthorizationHeader => "invalid or missing authorization header",
            AuthError::InvalidToken => "malformed or invalid token",
            AuthError::Internal => "",
        }
    }
}

} // verus!
