use proxy_manager::api::endpoints::login::{check_password, lookup_status, scopes_of};
use proxy_manager::api::endpoints::user::{self, CreateUserRequestBody, UpdateUserRequestBody};
use proxy_manager::api::endpoints::utils::Patterns;
use proxy_manager::api::middleware::{admin_gate, auth_gate, bearer_token, caller_of, scoped_gate, Caller, Gate};
use proxy_manager::api::status::{RepositoryErrorKind, Status};

#[test]
fn created_user_logs_in_with_its_password() {
    let p = Patterns::compile().unwrap();
    let body = CreateUserRequestBody {
        username: "alice".into(),
        password: "correct horse".into(),
        role: "user".into(),
        scopes: vec!["proxy_hosts:read".into()],
    };
    let m = user::create_model(&body, &p).ok().unwrap();
    assert_eq!(m.username, "alice");
    assert_eq!(m.scopes, vec![Some("proxy_hosts:read".to_string())]);
    assert_ne!(m.password, "correct horse");
    assert_eq!(check_password("correct horse", &m.password), Ok(()));
    assert_eq!(check_password("wrong horse", &m.password), Err(Status::Unauthorized));
    assert_eq!(check_password("x", "not a bcrypt hash"), Err(Status::InternalServerError));
}

#[test]
fn user_validation() {
    let p = Patterns::compile().unwrap();
    let body = CreateUserRequestBody { username: "al".into(), password: "short".into(), role: "user".into(), scopes: vec![] };
    assert_eq!(body.validate(&p).unwrap_err().fields, vec!["username".to_string(), "password".to_string()]);
    assert_eq!(user::create_model(&body, &p).err(), Some(Status::UnprocessableEntity));
    let upd = UpdateUserRequestBody { password: Some("1234567".into()), role: None, scopes: None };
    assert_eq!(user::update_model(&upd).err(), Some(Status::UnprocessableEntity));
    let upd = UpdateUserRequestBody { password: None, role: Some("admin".into()), scopes: Some(vec!["a".into()]) };
    let m = user::update_model(&upd).ok().unwrap();
    assert!(m.password.is_none());
    assert_eq!(m.role.as_deref(), Some("admin"));
    assert_eq!(m.scopes, Some(vec![Some("a".to_string())]));
    assert_eq!(user::create_status(Err(RepositoryErrorKind::UniqueViolation)), Status::Conflict);
    assert_eq!(user::update_status(Err(RepositoryErrorKind::NotFound)), Status::NotFound);
}

#[test]
fn login_lookup_and_scopes() {
    assert_eq!(lookup_status(Ok(true)), Ok(()));
    assert_eq!(lookup_status(Ok(false)), Err(Status::Unauthorized));
    assert_eq!(lookup_status(Err(())), Err(Status::InternalServerError));
    assert_eq!(scopes_of(&vec![Some("a".into()), None, Some("b".into())]), vec!["a".to_string(), "b".to_string()]);
}

#[test]
fn gates() {
    assert_eq!(bearer_token(Some("Bearer abc.def")), Some("abc.def".to_string()));
    assert_eq!(bearer_token(Some("bearer abc")), None);
    assert_eq!(bearer_token(Some("Basic xyz")), None);
    assert_eq!(bearer_token(None), None);
    assert_eq!(auth_gate(None), Gate::Reject(Status::Unauthorized));
    assert_eq!(auth_gate(Some(false)), Gate::Reject(Status::Unauthorized));
    assert_eq!(auth_gate(Some(true)), Gate::Proceed);
    let admin = Caller { is_admin: true, has_scope: false };
    let reader = Caller { is_admin: false, has_scope: true };
    let other = Caller { is_admin: false, has_scope: false };
    assert_eq!(admin_gate(Some(admin)), Gate::Proceed);
    assert_eq!(admin_gate(Some(reader)), Gate::Reject(Status::Forbidden));
    assert_eq!(admin_gate(None), Gate::Reject(Status::Unauthorized));
    assert_eq!(scoped_gate(Some(admin)), Gate::Proceed);
    assert_eq!(scoped_gate(Some(reader)), Gate::Proceed);
    assert_eq!(scoped_gate(Some(other)), Gate::Reject(Status::Forbidden));
    assert_eq!(scoped_gate(None), Gate::Reject(Status::Unauthorized));
}

#[test]
fn updates_without_a_password_always_succeed() {
    let upd = UpdateUserRequestBody { password: None, role: None, scopes: None };
    let m = user::update_model(&upd).ok().unwrap();
    assert!(m.password.is_none() && m.role.is_none() && m.scopes.is_none());
}

#[test]
fn rows_are_built_from_the_hash() {
    let body = CreateUserRequestBody { username: "bob".into(), password: "secret-pass".into(), role: "user".into(), scopes: vec!["x".into()] };
    let m = user::user_row(&body, "HASH".into());
    assert_eq!((m.username.as_str(), m.password.as_str(), m.role.as_str()), ("bob", "HASH", "user"));
    assert_eq!(m.scopes, vec![Some("x".to_string())]);
    let a = user::admin_row("HASH".into());
    assert_eq!((a.username.as_str(), a.password.as_str(), a.role.as_str()), ("admin", "HASH", "admin"));
    assert!(a.scopes.is_empty());
    let d = user::default_admin_model().unwrap();
    assert_eq!(check_password("admin", &d.password), Ok(()));
    assert_eq!(d.role, "admin");
}

#[test]
fn callers_are_read_from_their_roles() {
    let roles = vec!["user".to_string(), "proxy_hosts:read".to_string()];
    assert_eq!(caller_of(&roles, Some("proxy_hosts:read")), Caller { is_admin: false, has_scope: true });
    assert_eq!(caller_of(&roles, Some("proxy_hosts:write")), Caller { is_admin: false, has_scope: false });
    assert_eq!(caller_of(&roles, None), Caller { is_admin: false, has_scope: false });
    let admin = vec!["admin".to_string()];
    assert_eq!(caller_of(&admin, Some("upstreams:write")), Caller { is_admin: true, has_scope: false });
    assert_eq!(caller_of(&vec![], Some("admin")), Caller { is_admin: false, has_scope: false });
}
