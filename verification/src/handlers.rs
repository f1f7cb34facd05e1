//! The three domain operations, against the user table.
//!
//! Creation reads only `name`, `email` and `password` from its payload,
//! forces `role` and `status`, and lets the store assign `id` and
//! `created_at`. Fetching returns the one matching row or fails through
//! the error adapter — by design with the generic 500-class error, not a
//! not-found status. Deletion flips the matching row's status to
//! `Inactive` and succeeds whether or not a row matched.

use vstd::prelude::*;
use vstd::string::StringExecFns;
use crate::errors::AppError;
use crate::store::{UserTable, find_user, has_id, set_status};
use crate::user::{User, UserRole, UserStatus};

verus! {

/// The cause reported when a lookup that must return one row returns none.
pub open spec fn no_rows_cause() -> Seq<char> {
    "no rows returned by the query"@
}

/// The values the create operation binds into the insert: the payload's
/// `name`, `email` and `password` unchanged, the role forced to `User`
/// and the status forced to `Active`, whatever the payload carried.
pub fn create_bindings(payload: User) -> (b: (String, String, String, UserRole, UserStatus))
    ensures
        b.0@ == payload@.name,
        b.1@ == payload@.email,
        b.2@ == payload@.password,
        b.3 == UserRole::User,
        b.4 == UserStatus::Active,
{
    (payload.name, payload.email, payload.password, UserRole::User, UserStatus::Active)
}

/// Creates a user from a payload: only `name`, `email` and `password` are
/// read; `role` becomes `User`, `status` becomes `Active`, and the store
/// assigns a fresh id and the creation time `now`.
pub fn create_user(table: &mut UserTable, payload: User, now: i64) -> (r: Result<User, AppError>)
    requires
        old(table).wf(),
        old(table).spec_next_id() < i32::MAX,
    ensures
        final(table).wf(),
        r matches Ok(u) && {
            &&& u@.name == payload@.name
            &&& u@.email == payload@.email
            &&& u@.password == payload@.password
            &&& u@.role == UserRole::User
            &&& u@.status == UserStatus::Active
            &&& u@.created_at == now as int
            &&& u@.id == old(table).spec_next_id()
            &&& !has_id(old(table)@, u@.id)
            &&& final(table)@ == old(table)@.push(u@)
        },
        final(table).spec_next_id() == old(table).spec_next_id() + 1,
{
    let (name, email, password, role, status) = create_bindings(payload);
    let u = table.insert_returning(name, email, password, role, status, now);
    Ok(u)
}

/// Fetches the one row matching `user_id`. A missing row surfaces as the
/// generic adapted error, not as a not-found status.
pub fn get_user_by_id(table: &UserTable, user_id: i32) -> (r: Result<User, AppError>)
    requires
        table.wf(),
    ensures
        r matches Ok(u) ==> find_user(table@, user_id as int) == Some(u@),
        r matches Err(e) ==> e@ == no_rows_cause(),
        r is Ok <==> has_id(table@, user_id as int),
{
    match table.select_by_id(user_id) {
        Some(u) => Ok(u),
        None => Err(AppError::new(String::from_str("no rows returned by the query"))),
    }
}

/// Soft-deletes the row matching `user_id`: its status becomes `Inactive`.
/// The row is never removed, and a missing id is still a success.
pub fn delete_user_by_id(table: &mut UserTable, user_id: i32) -> (r: Result<(), AppError>)
    requires
        old(table).wf(),
    ensures
        final(table).wf(),
        r is Ok,
        final(table)@ == set_status(old(table)@, user_id as int, UserStatus::Inactive),
        final(table).spec_next_id() == old(table).spec_next_id(),
{
    let _affected = table.set_status_by_id(user_id, UserStatus::Inactive);
    Ok(())
}

} // verus!
