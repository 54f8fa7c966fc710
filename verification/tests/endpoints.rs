use proxy_manager::api::endpoints::access_list::{
    self, CreateAccessListRequest, CreateAccessListRuleRequest, UpdateAccessListRequest,
    UpdateAccessListRuleRequest,
};
use proxy_manager::api::endpoints::proxy_host::{
    self, CreateProxyHostRequest, UpdateProxyHostRequest,
};
use proxy_manager::api::endpoints::upstream::{self, CreateUpstreamRequest, UpdateUpstreamRequest};
use proxy_manager::api::endpoints::utils::Patterns;
use proxy_manager::api::status::{RepositoryErrorKind, Status};
use proxy_manager::database::models::UpdateProxyHost;

fn patterns() -> Patterns {
    Patterns::compile().unwrap()
}

#[test]
fn status_codes() {
    assert_eq!(Status::Success.code(), 200);
    assert_eq!(Status::Created.code(), 201);
    assert_eq!(Status::NoContent.code(), 204);
    assert_eq!(Status::BadRequest.code(), 400);
    assert_eq!(Status::Unauthorized.code(), 401);
    assert_eq!(Status::Forbidden.code(), 403);
    assert_eq!(Status::NotFound.code(), 404);
    assert_eq!(Status::Conflict.code(), 409);
    assert_eq!(Status::UnprocessableEntity.code(), 422);
    assert_eq!(Status::InternalServerError.code(), 500);
}

#[test]
fn upstream_schema_defaults_to_http() {
    let body = CreateUpstreamRequest {
        name: "backend".into(),
        host: "backend.internal".into(),
        port: 8080,
        schema: None,
    };
    let m = upstream::create_model(body, &patterns()).ok().unwrap();
    assert_eq!(m.schema, "http");
    assert_eq!(m.host, "backend.internal");
    assert_eq!(m.port, 8080);
}

#[test]
fn upstream_invalid_fields_are_reported() {
    let body = CreateUpstreamRequest {
        name: "".into(),
        host: "backend".into(),
        port: 70000,
        schema: Some("ftp".into()),
    };
    let e = body.validate(&patterns()).unwrap_err();
    assert_eq!(e.fields, vec!["name".to_string(), "port".to_string(), "schema".to_string()]);
    assert_eq!(
        upstream::create_model(body, &patterns()).err(),
        Some(Status::UnprocessableEntity)
    );
}

#[test]
fn upstream_update_keeps_absent_fields_absent() {
    let body = UpdateUpstreamRequest { name: None, host: None, port: Some(443), schema: Some("https".into()) };
    let m = upstream::update_model(body, &patterns()).ok().unwrap();
    assert_eq!(m.port, Some(443));
    assert_eq!(m.schema.as_deref(), Some("https"));
    assert!(m.name.is_none() && m.host.is_none());
    let bad = UpdateUpstreamRequest { name: None, host: Some("a b".into()), port: None, schema: None };
    assert_eq!(upstream::update_model(bad, &patterns()).err(), Some(Status::UnprocessableEntity));
}

#[test]
fn upstream_statuses() {
    assert_eq!(upstream::create_status(Ok(())), Status::Success);
    assert_eq!(upstream::create_status(Err(RepositoryErrorKind::UniqueViolation)), Status::Conflict);
    assert_eq!(upstream::create_status(Err(RepositoryErrorKind::NotFound)), Status::InternalServerError);
    assert_eq!(upstream::update_status(Err(RepositoryErrorKind::NotFound)), Status::NotFound);
    assert_eq!(upstream::delete_status(Ok(())), Status::NoContent);
    assert_eq!(upstream::delete_status(Err(RepositoryErrorKind::ForeignKeyViolation)), Status::Conflict);
    assert_eq!(upstream::delete_status(Err(RepositoryErrorKind::Other)), Status::InternalServerError);
}

#[test]
fn access_list_rules_are_ordered_by_position() {
    let body = CreateAccessListRequest {
        name: "office".into(),
        rules: vec![
            CreateAccessListRuleRequest { action: "allow".into(), address: "10.0.0.0/8".into() },
            CreateAccessListRuleRequest { action: "deny".into(), address: "0.0.0.0".into() },
        ],
    };
    let (list, rules) = access_list::create_models(&body, &vec![false, true]).ok().unwrap();
    assert_eq!(list.name, "office");
    assert_eq!(rules.len(), 2);
    assert_eq!(rules[0].sort_order, 0);
    assert_eq!(rules[1].sort_order, 1);
    assert_eq!(rules[1].action, "deny");
    assert_eq!(rules[0].access_list_id, 0);
}

#[test]
fn access_list_without_rules_or_with_bad_rule_is_refused() {
    let empty = CreateAccessListRequest { name: "x".into(), rules: vec![] };
    assert_eq!(empty.validate(&vec![]).unwrap_err().fields, vec!["rules".to_string()]);
    assert_eq!(
        access_list::create_models(&empty, &vec![]).err(),
        Some(Status::UnprocessableEntity)
    );
    let bad = CreateAccessListRequest {
        name: "".into(),
        rules: vec![CreateAccessListRuleRequest { action: "block".into(), address: "1.2.3.4".into() }],
    };
    assert_eq!(
        bad.validate(&vec![true]).unwrap_err().fields,
        vec!["name".to_string(), "rules".to_string()]
    );
}

#[test]
fn access_list_update_attaches_rules_to_the_list() {
    let body = UpdateAccessListRequest {
        name: Some("renamed".into()),
        rules: Some(vec![UpdateAccessListRuleRequest { action: "allow".into(), address: "::1".into() }]),
    };
    let (model, rows) = access_list::update_models(7, &body, &vec![true]).ok().unwrap();
    assert_eq!(model.unwrap().name.as_deref(), Some("renamed"));
    let rows = rows.unwrap();
    assert_eq!(rows[0].access_list_id, 7);
    assert_eq!(rows[0].sort_order, 0);
    let none = UpdateAccessListRequest { name: None, rules: None };
    let (model, rows) = access_list::update_models(7, &none, &vec![]).ok().unwrap();
    assert!(model.is_none() && rows.is_none());
    let empty = UpdateAccessListRequest { name: None, rules: Some(vec![]) };
    assert_eq!(access_list::update_models(7, &empty, &vec![]).err(), Some(Status::UnprocessableEntity));
    assert_eq!(access_list::update_status(Err(RepositoryErrorKind::UniqueViolation)), Status::Conflict);
    assert_eq!(access_list::delete_status(Err(RepositoryErrorKind::NotFound)), Status::NotFound);
}

#[test]
fn proxy_host_needs_a_domain_and_an_upstream() {
    let body = CreateProxyHostRequest {
        domain: "app.example.com".into(),
        certificate_name: Some("app.example.com".into()),
        access_list_id: None,
        upstream_ids: vec![3, 4],
    };
    let (m, ids) = proxy_host::create_model(body, &patterns()).ok().unwrap();
    assert_eq!(m.domain, "app.example.com");
    assert_eq!(ids, vec![3, 4]);
    let no_upstream = CreateProxyHostRequest {
        domain: "app.example.com".into(),
        certificate_name: None,
        access_list_id: None,
        upstream_ids: vec![],
    };
    assert_eq!(
        proxy_host::create_model(no_upstream, &patterns()).err(),
        Some(Status::UnprocessableEntity)
    );
    let bad_domain = CreateProxyHostRequest {
        domain: "localhost".into(),
        certificate_name: None,
        access_list_id: None,
        upstream_ids: vec![1],
    };
    assert_eq!(
        proxy_host::create_model(bad_domain, &patterns()).err(),
        Some(Status::UnprocessableEntity)
    );
    assert_eq!(proxy_host::create_status(Err(RepositoryErrorKind::ForeignKeyViolation)), Status::BadRequest);
    assert_eq!(proxy_host::create_status(Ok(())), Status::Created);
}

#[test]
fn proxy_host_update_becomes_a_change() {
    let body = UpdateProxyHostRequest {
        domain: None,
        certificate_name: Some(None),
        access_list_id: Some(Some(2)),
        upstream_ids: None,
    };
    let change: UpdateProxyHost = proxy_host::update_change(body, &patterns()).ok().unwrap();
    assert_eq!(change.model.certificate_name, Some(None));
    assert_eq!(change.model.access_list_id, Some(Some(2)));
    assert!(change.model.domain.is_none() && change.upstream_ids.is_none());
    let empty = UpdateProxyHostRequest {
        domain: None,
        certificate_name: None,
        access_list_id: None,
        upstream_ids: Some(vec![]),
    };
    assert_eq!(proxy_host::update_change(empty, &patterns()).err(), Some(Status::UnprocessableEntity));
    assert_eq!(proxy_host::update_status(Err(RepositoryErrorKind::NotFound)), Status::NotFound);
    assert_eq!(proxy_host::delete_status(Ok(())), Status::NoContent);
}
