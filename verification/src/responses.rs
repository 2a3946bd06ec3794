//! Response shapes returned by the service layer.
//!
//! `User` deliberately has no password field: the stored hash is never
//! exposed in any response shape.

use vstd::prelude::*;
use crate::entity::Role;

verus! {

/// The two token kinds. They are not interchangeable: the kind is part of
/// the signed payload, and a Refresh token must never be accepted where an
/// Access token is required, and vice versa.
#[derive(Clone, Copy, Debug, PartialEq, Eq, Structural)]
pub enum TokenType {
    ACCESS,
    REFRESH,
}

/// A signed bearer token together with its kind.
pub struct Token {
    pub typ: TokenType,
    pub token: String,
}

/// The signed payload carried inside a token.
pub struct TokenClaims {
    pub _type: TokenType,
    pub sub: String,
    pub iat: u64,
    pub exp: u64,
}

/// Public view of an account: everything a caller may see. No password.
pub struct User {
    pub id: u128,
    pub login: String,
    pub role: Role,
    pub created_at: u64,
}

impl Clone for User {
    fn clone(&self) -> (r: Self)
        ensures
            r == self,
    {
        User {
            id: self.id,
            login: self.login.clone(),
            role: self.role,
            created_at: self.created_at,
        }
    }
}

/// A page of users together with the total number of accounts.
pub struct UserData {
    pub total: u64,
    pub data: Vec<User>,
}

/// Outcome flag of an operation that reports only success.
#[derive(Clone, Copy, Debug, PartialEq, Eq, Structural)]
pub struct Status {
    pub status: bool,
}

/// Body of the health probe.
#[derive(Clone, Copy, Debug, PartialEq, Eq, Structural)]
pub struct HealthCheck {
    pub ok: bool,
}

} // verus!
