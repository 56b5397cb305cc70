//! User accounts and the bodies of the session endpoints.
use vstd::prelude::*;

verus! {

/// A user account; `token` is the session token issued at the last login,
/// cleared at logout.
#[derive(Clone, Debug, PartialEq)]
pub struct User {
    pub id: Option<String>,
    pub email: String,
    pub password: String,
    pub token: Option<String>,
}

/// The body of a successful login reply.
#[derive(Clone, Debug, PartialEq)]
pub struct UserLoginResponse {
    pub token: String,
}

/// The body of a logout request.
#[derive(Clone, Debug, PartialEq)]
pub struct LogoutRequest {
    pub email: String,
}

} // verus!
