//! The gates in front of the endpoints: a bearer token must verify, and
//! some endpoints want an administrator or a scope.
use vstd::prelude::*;

use crate::api::status::Status;
use crate::jwt::role_names;
use crate::text::{chars_of, has_prefix, starts_with_at, str_eq, string_from_chars};

verus! {

/// What a gate does with a request.
#[derive(Clone, Copy, PartialEq, Eq, Structural, Debug)]
pub enum Gate {
    /// Hand the request on.
    Proceed,
    /// Answer it with this status.
    Reject(Status),
}

/// The scheme prefix of a bearer token.
pub open spec fn bearer_prefix() -> Seq<char> {
    "Bearer "@
}

/// The token of an `Authorization` header: what follows `Bearer `.
pub open spec fn token_of(header: Option<Seq<char>>) -> Option<Seq<char>> {
    match header {
        Some(h) => if has_prefix(h, bearer_prefix()) {
            Some(h.subrange(bearer_prefix().len() as int, h.len() as int))
        } else {
            None
        },
        None => None,
    }
}

/// A string as a character sequence, or `None`.
pub open spec fn opt_chars(s: Option<&str>) -> Option<Seq<char>> {
    match s {
        Some(v) => Some(v@),
        None => None,
    }
}

/// The bearer token of an `Authorization` header, if it carries one.
pub fn bearer_token(header: Option<&str>) -> (r: Option<String>)
    ensures
        match r {
            Some(t) => token_of(opt_chars(header)) == Some(t@),
            None => token_of(opt_chars(header)) is None,
        },
{
    match header {
        None => None,
        Some(h) => {
            let cs = chars_of(h);
            let prefix = chars_of("Bearer ");
            proof {
                reveal_strlit("Bearer ");
                assert(cs@.subrange(0, cs@.len() as int) =~= cs@);
            }
            if starts_with_at(&cs, 0, &prefix) {
                Some(string_from_chars(cs.as_slice(), prefix.len(), cs.len()))
            } else {
                None
            }
        },
    }
}

/// The authentication gate: a request without a token, or whose token does
/// not verify, is answered 401.  `verified` is `None` without a token, else
/// whether the token verified.
pub fn auth_gate(verified: Option<bool>) -> (g: Gate)
    ensures
        g == (if verified == Some(true) {
            Gate::Proceed
        } else {
            Gate::Reject(Status::Unauthorized)
        }),
{
    match verified {
        Some(true) => Gate::Proceed,
        _ => Gate::Reject(Status::Unauthorized),
    }
}

/// What a gate knows of the caller from its verified claims.
#[derive(Clone, Copy, PartialEq, Eq, Structural, Debug)]
pub struct Caller {
    pub is_admin: bool,
    pub has_scope: bool,
}

/// Whether `roles` holds the role `name`.
fn holds_role(roles: &Vec<String>, name: &str) -> (b: bool)
    ensures
        b == role_names(roles@).contains(name@),
{
    let mut i: usize = 0;
    while i < roles.len()
        invariant
            i <= roles@.len(),
            forall|k: int| 0 <= k < i ==> roles@[k]@ != name@,
        decreases roles@.len() - i,
    {
        if str_eq(roles[i].as_str(), name) {
            assert(role_names(roles@)[i as int] == name@);
            return true;
        }
        i = i + 1;
    }
    proof {
        if role_names(roles@).contains(name@) {
            let k = choose|k: int| 0 <= k < role_names(roles@).len() && role_names(roles@)[k] == name@;
            assert(roles@[k]@ == name@);
        }
    }
    false
}

/// What the gates know of a caller whose verified claims carry `roles`: an
/// administrator holds the role `admin`; a caller has the scope an endpoint
/// asks for when its roles name it.
pub fn caller_of(roles: &Vec<String>, scope: Option<&str>) -> (c: Caller)
    ensures
        c.is_admin == role_names(roles@).contains("admin"@),
        c.has_scope == (match scope {
            Some(s) => role_names(roles@).contains(s@),
            None => false,
        }),
{
    let is_admin = holds_role(roles, "admin");
    let has_scope = match scope {
        Some(s) => holds_role(roles, s),
        None => false,
    };
    Caller { is_admin, has_scope }
}

/// The administrator gate: without claims 401, a caller who is no
/// administrator 403.
pub fn admin_gate(caller: Option<Caller>) -> (g: Gate)
    ensures
        g == (match caller {
            None => Gate::Reject(Status::Unauthorized),
            Some(c) => if c.is_admin {
                Gate::Proceed
            } else {
                Gate::Reject(Status::Forbidden)
            },
        }),
{
    match caller {
        None => Gate::Reject(Status::Unauthorized),
        Some(c) => if c.is_admin {
            Gate::Proceed
        } else {
            Gate::Reject(Status::Forbidden)
        },
    }
}

/// The scope gate: without claims 401; an administrator, or a caller with
/// the scope, passes; anyone else 403.
pub fn scoped_gate(caller: Option<Caller>) -> (g: Gate)
    ensures
        g == (match caller {
            None => Gate::Reject(Status::Unauthorized),
            Some(c) => if c.is_admin || c.has_scope {
                Gate::Proceed
            } else {
                Gate::Reject(Status::Forbidden)
            },
        }),
{
    match caller {
        None => Gate::Reject(Status::Unauthorized),
        Some(c) => if c.is_admin || c.has_scope {
            Gate::Proceed
        } else {
            Gate::Reject(Status::Forbidden)
        },
    }
}

} // verus!
