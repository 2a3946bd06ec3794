//! Request shapes accepted by the service layer.

use vstd::prelude::*;
use crate::entity::Role;

verus! {

/// Payload of account creation: a login and the plaintext password.
pub struct CreateUser {
    pub login: String,
    pub password: String,
}

/// Payload of a login attempt.
pub struct LoginUser {
    pub login: String,
    pub password: String,
}

/// Payload of account deletion. The target id is optional: role-aware
/// target resolution decides which record is actually affected.
pub struct DeleteUser {
    pub id: Option<u128>,
}

/// Payload of an account update. Only supplied fields are mutated.
pub struct UpdateUser {
    pub id: Option<u128>,
    pub login: Option<String>,
    pub password: Option<String>,
    pub role: Option<Role>,
}

} // verus!
