//! The account of the user who asks.
use crate::models;
use crate::routes::{Refusal, Status, INTERNAL_ERROR};
use crate::ws::server::{public_user, User};
use vstd::prelude::*;

verus! {

/// The user that a request was made by. Without one the request is refused.
pub fn requester(user: Option<&models::User>) -> (res: Result<models::User, Refusal>)
    ensures
        res is Ok <==> user is Some,
        res matches Ok(found) ==> found == *user->0,
        res matches Err(refusal) ==> refusal@ == Refusal::of(
            Status::Unauthorized,
            "Unauthorized"@,
        ),
{
    match user {
        Some(user) => Ok(user.clone()),
        None => Err(Refusal::with_body(Status::Unauthorized, "Unauthorized")),
    }
}

/// The answer to a request to change the account, given the changed account
/// and whether the changes were stored.
pub fn modify_user(user: models::User, success: bool) -> (res: Result<User, Refusal>)
    ensures
        res is Ok <==> success,
        res matches Ok(shown) ==> shown@ == public_user(user@),
        res matches Err(refusal) ==> refusal@ == Refusal::of(
            Status::InternalServerError,
            INTERNAL_ERROR@,
        ),
{
    if success {
        Ok(User::from(user))
    } else {
        Err(Refusal::internal())
    }
}

} // verus!
