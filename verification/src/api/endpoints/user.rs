//! The user endpoints: creating users and changing their password, role and
//! scopes.  Passwords are stored as bcrypt hashes.
use vstd::prelude::*;
use vstd::string::*;

use crate::api::endpoints::utils::{
    failures, length_within, pattern_matches, report, username_pattern, Patterns, ValidationErrors,
};
use crate::api::status::{RepositoryErrorKind, Status};
use crate::database::models::{NewUserModel, UpdateUserModel};
use crate::outside::{bcrypt_hash, bcrypt_verify_result};

verus! {

/// A user name of 3 to 100 characters that matches the user name pattern.
pub open spec fn valid_username(name: Seq<char>) -> bool {
    length_within(name, 3, 100) && pattern_matches(username_pattern(), name)
}

/// A password of 8 to 255 characters.
pub open spec fn valid_password(password: Seq<char>) -> bool {
    length_within(password, 8, 255)
}

fn check_password_length(password: &String) -> (b: bool)
    ensures
        b == valid_password(password@),
{
    let n = password.as_str().unicode_len();
    8 <= n && n <= 255
}

/// Scopes as the users table stores them: each one present.
pub open spec fn stored_scopes(scopes: Seq<String>) -> Seq<Option<String>> {
    scopes.map_values(|s: String| Some(s))
}

fn store_scopes(scopes: &Vec<String>) -> (r: Vec<Option<String>>)
    ensures
        r@ == stored_scopes(scopes@),
{
    let mut r: Vec<Option<String>> = Vec::new();
    let mut i: usize = 0;
    while i < scopes.len()
        invariant
            i <= scopes@.len(),
            r@ == stored_scopes(scopes@.subrange(0, i as int)),
        decreases scopes@.len() - i,
    {
        r.push(Some(scopes[i].clone()));
        i = i + 1;
        assert(r@ =~= stored_scopes(scopes@.subrange(0, i as int)));
    }
    assert(scopes@.subrange(0, scopes@.len() as int) =~= scopes@);
    r
}

/// The body of a request that creates a user.  The role and the scopes are
/// carried in the form the users table stores.
pub struct CreateUserRequestBody {
    pub username: String,
    pub password: String,
    pub role: String,
    pub scopes: Vec<String>,
}

impl CreateUserRequestBody {
    /// The checks of the request, field by field.
    pub open spec fn checks(self) -> Seq<(Seq<char>, bool)> {
        seq![("username"@, valid_username(self.username@)), ("password"@, valid_password(self.password@))]
    }

    /// A request the API accepts.
    pub open spec fn is_valid(self) -> bool {
        valid_username(self.username@) && valid_password(self.password@)
    }

    /// Validates the request; the error lists the fields that fail.
    pub fn validate(&self, patterns: &Patterns) -> (r: Result<(), ValidationErrors>)
        ensures
            r is Ok <==> self.is_valid(),
            r matches Err(e) ==> e.names() == failures(self.checks()),
    {
        let n = self.username.as_str().unicode_len();
        let name_ok = 3 <= n && n <= 100 && patterns.is_username(self.username.as_str());
        let passed = vec![name_ok, check_password_length(&self.password)];
        let names = vec!["username", "password"];
        proof {
            reveal_strlit("username");
            reveal_strlit("password");
        }
        let r = report(names, passed, Ghost(self.checks()));
        assert(self.checks()[0].1 && self.checks()[1].1 <==> self.is_valid());
        r
    }
}

/// The row a valid request creates: the password replaced by a bcrypt hash
/// that verifies it.  An invalid request is answered 422, a failed hash
/// 500.
pub fn create_model(body: &CreateUserRequestBody, patterns: &Patterns) -> (r: Result<NewUserModel, Status>)
    ensures
        !body.is_valid() ==> r == Err::<NewUserModel, Status>(Status::UnprocessableEntity),
        body.is_valid() ==> (r is Err ==> r == Err::<NewUserModel, Status>(Status::InternalServerError)),
        r matches Ok(m) ==> {
            &&& m.username == body.username
            &&& m.role == body.role
            &&& m.scopes@ == stored_scopes(body.scopes@)
            &&& bcrypt_verify_result(body.password@, m.password@) == Some(true)
        },
{
    if body.validate(patterns).is_err() {
        return Err(Status::UnprocessableEntity);
    }
    let hashed = match bcrypt_hash(body.password.as_str()) {
        Some(h) => h,
        None => return Err(Status::InternalServerError),
    };
    Ok(user_row(body, hashed))
}

/// The row of a new user from its request and the hash of its password.
pub fn user_row(body: &CreateUserRequestBody, hashed: String) -> (m: NewUserModel)
    ensures
        m.username == body.username,
        m.password == hashed,
        m.role == body.role,
        m.scopes@ == stored_scopes(body.scopes@),
{
    NewUserModel {
        username: body.username.clone(),
        password: hashed,
        role: body.role.clone(),
        scopes: store_scopes(&body.scopes),
    }
}

/// The status of a create: 201 on success, 409 for a taken user name, 500
/// otherwise.
pub fn create_status(result: Result<(), RepositoryErrorKind>) -> (s: Status)
    ensures
        s == (match result {
            Ok(()) => Status::Created,
            Err(RepositoryErrorKind::UniqueViolation) => Status::Conflict,
            Err(_) => Status::InternalServerError,
        }),
{
    match result {
        Ok(()) => Status::Created,
        Err(RepositoryErrorKind::UniqueViolation) => Status::Conflict,
        Err(_) => Status::InternalServerError,
    }
}

/// The body of a request that changes a user; a missing field stays.
pub struct UpdateUserRequestBody {
    pub password: Option<String>,
    pub role: Option<String>,
    pub scopes: Option<Vec<String>>,
}

impl UpdateUserRequestBody {
    /// The checks of the request, field by field; an absent field passes.
    pub open spec fn checks(self) -> Seq<(Seq<char>, bool)> {
        seq![("password"@, match self.password { Some(p) => valid_password(p@), None => true })]
    }

    /// A request the API accepts.
    pub open spec fn is_valid(self) -> bool {
        match self.password {
            Some(p) => valid_password(p@),
            None => true,
        }
    }

    /// Validates the request; the error lists the fields that fail.
    pub fn validate(&self) -> (r: Result<(), ValidationErrors>)
        ensures
            r is Ok <==> self.is_valid(),
            r matches Err(e) ==> e.names() == failures(self.checks()),
    {
        let ok = match &self.password {
            Some(p) => check_password_length(p),
            None => true,
        };
        let passed = vec![ok];
        let names = vec!["password"];
        proof {
            reveal_strlit("password");
        }
        let r = report(names, passed, Ghost(self.checks()));
        assert(self.checks()[0].1 <==> self.is_valid());
        r
    }
}

/// The change a valid request makes: a new password is replaced by a bcrypt
/// hash that verifies it.  An invalid request is answered 422, a failed hash
/// 500.
pub fn update_model(body: &UpdateUserRequestBody) -> (r: Result<UpdateUserModel, Status>)
    ensures
        !body.is_valid() ==> r == Err::<UpdateUserModel, Status>(Status::UnprocessableEntity),
        body.is_valid() ==> (r is Err ==> r == Err::<UpdateUserModel, Status>(Status::InternalServerError)),
        body.is_valid() && body.password is None ==> r is Ok,
        r matches Ok(m) ==> {
            &&& m.role == body.role
            &&& (match body.scopes {
                Some(s) => (m.scopes matches Some(v) && v@ == stored_scopes(s@)),
                None => m.scopes is None,
            })
            &&& (match body.password {
                Some(p) => (m.password matches Some(h) && bcrypt_verify_result(p@, h@) == Some(true)),
                None => m.password is None,
            })
        },
{
    if body.validate().is_err() {
        return Err(Status::UnprocessableEntity);
    }
    let password = match &body.password {
        Some(p) => match bcrypt_hash(p.as_str()) {
            Some(h) => Some(h),
            None => return Err(Status::InternalServerError),
        },
        None => None,
    };
    let role = match &body.role {
        Some(r) => Some(r.clone()),
        None => None,
    };
    let scopes = match &body.scopes {
        Some(s) => Some(store_scopes(s)),
        None => None,
    };
    Ok(UpdateUserModel { password, role, scopes })
}

/// The status of an update: 200 on success, 404 for an unknown user, 500
/// otherwise.
pub fn update_status(result: Result<(), RepositoryErrorKind>) -> (s: Status)
    ensures
        s == (match result {
            Ok(()) => Status::Success,
            Err(RepositoryErrorKind::NotFound) => Status::NotFound,
            Err(_) => Status::InternalServerError,
        }),
{
    match result {
        Ok(()) => Status::Success,
        Err(RepositoryErrorKind::NotFound) => Status::NotFound,
        Err(_) => Status::InternalServerError,
    }
}

/// The administrator the server stores at start-up when there is none:
/// user `admin` with the password `admin` (as a bcrypt hash that verifies
/// it), the role `admin` and no scopes.  `None` when hashing fails.
pub fn default_admin_model() -> (r: Option<NewUserModel>)
    ensures
        r matches Some(m) ==> {
            &&& m.username@ == "admin"@
            &&& m.role@ == "admin"@
            &&& m.scopes@.len() == 0
            &&& bcrypt_verify_result("admin"@, m.password@) == Some(true)
        },
{
    let hashed = match bcrypt_hash("admin") {
        Some(h) => h,
        None => return None,
    };
    Some(admin_row(hashed))
}

/// The row of the default administrator with the hash of its password:
/// user `admin`, role `admin`, no scopes.
pub fn admin_row(hashed: String) -> (m: NewUserModel)
    ensures
        m.username@ == "admin"@,
        m.password == hashed,
        m.role@ == "admin"@,
        m.scopes@.len() == 0,
{
    proof {
        reveal_strlit("admin");
    }
    NewUserModel {
        username: String::from_str("admin"),
        password: hashed,
        role: String::from_str("admin"),
        scopes: Vec::new(),
    }
}

} // verus!
