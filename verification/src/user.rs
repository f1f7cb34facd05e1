//! The user record and its two enumerations.
//!
//! A `User` row is created only through the create operation, which forces
//! `role` to `UserRole::User` and `status` to `UserStatus::Active`; the store
//! assigns `id` and `created_at` (held here as seconds since the Unix epoch).

use vstd::prelude::*;

verus! {

/// The role of a user account. Creation always forces `User`; the
/// caller-supplied role is accepted on the wire but discarded.
#[derive(Clone, Copy, Debug, PartialEq, Eq, Structural)]
pub enum UserRole {
    Admin,
    User,
}

/// Whether a user record is live. Deletion is a transition to `Inactive`,
/// never a row removal; there is no transition back to `Active`.
#[derive(Clone, Copy, Debug, PartialEq, Eq, Structural)]
pub enum UserStatus {
    Active,
    Inactive,
}

/// One user row, as stored and as returned to clients.
#[derive(Debug)]
pub struct User {
    pub id: i32,
    pub name: String,
    pub email: String,
    pub password: String,
    pub role: UserRole,
    pub status: UserStatus,
    /// Seconds since the Unix epoch, assigned by the store at insertion.
    pub created_at: i64,
}

/// The mathematical value of a `User`: its fields with the strings read
/// as character sequences.
pub struct UserView {
    pub id: int,
    pub name: Seq<char>,
    pub email: Seq<char>,
    pub password: Seq<char>,
    pub role: UserRole,
    pub status: UserStatus,
    pub created_at: int,
}

impl View for User {
    type V = UserView;

    open spec fn view(&self) -> UserView {
        UserView {
            id: self.id as int,
            name: self.name@,
            email: self.email@,
            password: self.password@,
            role: self.role,
            status: self.status,
            created_at: self.created_at as int,
        }
    }
}

} // verus!
