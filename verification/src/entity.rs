//! The persistent `user` entity.

use vstd::prelude::*;

verus! {

/// Authorization role of an account. New accounts default to `User`;
/// only the explicit update path may change a role, and only an Admin
/// caller may set another user's role.
#[derive(Clone, Copy, Debug, PartialEq, Eq, Structural)]
pub enum Role {
    Admin,
    User,
}

/// One row of the `user` table: the stored record, including the salted
/// password hash. The identifier is the 128-bit value of the account's UUID;
/// timestamps are Unix seconds.
pub struct Model {
    pub id: u128,
    pub login: String,
    pub password: String,
    pub role: Role,
    pub created_at: u64,
    pub updated_at: u64,
}

impl Clone for Model {
    fn clone(&self) -> (r: Self)
        ensures
            r == self,
    {
        Model {
            id: self.id,
            login: self.login.clone(),
            password: self.password.clone(),
            role: self.role,
            created_at: self.created_at,
            updated_at: self.updated_at,
        }
    }
}

} // verus!
