//! Logging in: a user name and password for a signed token.
use vstd::prelude::*;

use crate::api::status::Status;
use crate::database::models::{UpdateUserModel, UserModel};
use crate::outside::{bcrypt_verify, bcrypt_verify_result};

verus! {

/// The body of a login request.
pub struct LoginRequestbody {
    pub username: String,
    pub password: String,
}

/// The answer to a successful login: the signed token.
pub struct LoginResponseBody {
    pub jwt: String,
}

/// How a login goes on after the user was looked up: an unknown user is
/// answered 401, a failed lookup 500.
pub fn lookup_status(found: Result<bool, ()>) -> (r: Result<(), Status>)
    ensures
        r == (match found {
            Ok(true) => Ok(()),
            Ok(false) => Err(Status::Unauthorized),
            Err(()) => Err(Status::InternalServerError),
        }),
{
    match found {
        Ok(true) => Ok(()),
        Ok(false) => Err(Status::Unauthorized),
        Err(()) => Err(Status::InternalServerError),
    }
}

/// What the password check of a login answers for `password` against the
/// stored `hash`: on when the hash verifies it, 401 for a wrong password,
/// 500 when bcrypt fails.
pub open spec fn password_outcome(password: Seq<char>, hash: Seq<char>) -> Result<(), Status> {
    match bcrypt_verify_result(password, hash) {
        Some(true) => Ok(()),
        Some(false) => Err(Status::Unauthorized),
        None => Err(Status::InternalServerError),
    }
}

/// Checks the password of a login against the stored hash.
pub fn check_password(password: &str, stored_hash: &str) -> (r: Result<(), Status>)
    ensures
        r == password_outcome(password@, stored_hash@),
{
    match bcrypt_verify(password, stored_hash) {
        Some(true) => Ok(()),
        Some(false) => Err(Status::Unauthorized),
        None => Err(Status::InternalServerError),
    }
}

/// The scopes a stored user holds: the present entries, in order.
pub open spec fn present_scopes(scopes: Seq<Option<String>>) -> Seq<String>
    decreases scopes.len(),
{
    if scopes.len() == 0 {
        Seq::empty()
    } else {
        let rest = present_scopes(scopes.drop_last());
        match scopes.last() {
            Some(s) => rest.push(s),
            None => rest,
        }
    }
}

/// The present scopes of a stored user, in order.
pub fn scopes_of(scopes: &Vec<Option<String>>) -> (r: Vec<String>)
    ensures
        r@ == present_scopes(scopes@),
{
    let mut r: Vec<String> = Vec::new();
    let mut i: usize = 0;
    while i < scopes.len()
        invariant
            i <= scopes@.len(),
            r@ == present_scopes(scopes@.subrange(0, i as int)),
        decreases scopes@.len() - i,
    {
        proof {
            let t = scopes@.subrange(0, i + 1);
            assert(t.drop_last() =~= scopes@.subrange(0, i as int));
            assert(t.last() == scopes@[i as int]);
        }
        match &scopes[i] {
            Some(s) => r.push(s.clone()),
            None => {},
        }
        i = i + 1;
    }
    assert(scopes@.subrange(0, scopes@.len() as int) =~= scopes@);
    r
}

/// A user logs in with the password it was given: wherever a stored hash
/// verifies a password (as every hash the user endpoints store verifies the
/// password it was made from), the password check of a login lets that
/// password through.
pub proof fn lemma_stored_password_logs_in(password: Seq<char>, hash: Seq<char>)
    requires
        bcrypt_verify_result(password, hash) == Some(true),
    ensures
        password_outcome(password, hash) == Ok::<(), Status>(()),
{
}

/// A changed password logs in: after an update that stores a hash of the
/// new password (as every hash the user endpoints store verifies the
/// password it was made from), the password check of a login lets the new
/// password through.
pub proof fn lemma_changed_password_logs_in(row: UserModel, update: UpdateUserModel, password: Seq<char>)
    requires
        update.password matches Some(h) && bcrypt_verify_result(password, h@) == Some(true),
    ensures
        password_outcome(password, row.updated_fields(update).0) == Ok::<(), Status>(()),
{
}

} // verus!
