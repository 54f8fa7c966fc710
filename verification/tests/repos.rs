use proxy_manager::database::models::{
    AccessListModel, AccessListRuleModel, NewAccessListRuleModel, ProxyHostModel, Timestamp,
    UpdateProxyHostModel, UpdateUpstreamModel, UpdateUserModel, UpstreamModel, UserModel,
};
use proxy_manager::database::repos::{
    AccessListsRepository, ProxyHostUpstreamsRepository, ProxyHostsRepository,
};

fn at(secs: i64) -> Timestamp {
    Timestamp { secs, nanos: 0 }
}

fn list(id: i32, name: &str) -> AccessListModel {
    AccessListModel { id, name: name.into(), created_at: at(1) }
}

fn rule(id: i32, list_id: i32, address: &str) -> AccessListRuleModel {
    AccessListRuleModel {
        id,
        access_list_id: list_id,
        action: "allow".into(),
        address: address.into(),
        sort_order: id,
        created_at: at(2),
    }
}

fn host(id: i32, domain: &str, access_list_id: Option<i32>) -> ProxyHostModel {
    ProxyHostModel { id, domain: domain.into(), certificate_name: None, access_list_id, created_at: at(3) }
}

fn upstream(id: i32, host: &str) -> UpstreamModel {
    UpstreamModel { id, name: host.into(), schema: "http".into(), host: host.into(), port: 80, created_at: at(4) }
}

#[test]
fn new_rules_are_attached_to_the_new_list() {
    let rules = vec![
        NewAccessListRuleModel { access_list_id: 0, action: "allow".into(), address: "1.1.1.1".into(), sort_order: 0 },
        NewAccessListRuleModel { access_list_id: 0, action: "deny".into(), address: "2.2.2.2".into(), sort_order: 1 },
    ];
    let stamped = AccessListsRepository::stamp_rules(&rules, 42);
    assert_eq!(stamped.len(), 2);
    assert!(stamped.iter().all(|r| r.access_list_id == 42));
    assert_eq!(stamped[1].address, "2.2.2.2");
    assert_eq!(stamped[1].sort_order, 1);
}

#[test]
fn rules_are_grouped_under_their_lists() {
    let lists = vec![list(1, "a"), list(2, "b"), list(3, "c")];
    let rules = vec![rule(10, 2, "x"), rule(11, 1, "y"), rule(12, 2, "z"), rule(13, 9, "w")];
    let groups = AccessListsRepository::group_rules(&lists, &rules);
    assert_eq!(groups.len(), 3);
    assert_eq!(groups[0].0.name, "a");
    assert_eq!(groups[0].1.iter().map(|r| r.id).collect::<Vec<_>>(), vec![11]);
    assert_eq!(groups[1].1.iter().map(|r| r.id).collect::<Vec<_>>(), vec![10, 12]);
    assert!(groups[2].1.is_empty());
}

#[test]
fn hosts_are_assembled_with_their_upstreams_and_list() {
    let hosts = vec![host(1, "a.example.com", Some(5)), host(2, "b.example.com", None), host(3, "c.example.com", Some(6))];
    let pairs = vec![(1, upstream(7, "u7")), (2, upstream(8, "u8")), (1, upstream(9, "u9"))];
    let lists = vec![list(5, "office")];
    let rules = vec![rule(20, 5, "10.0.0.0/8"), rule(21, 6, "::1")];
    assert_eq!(ProxyHostUpstreamsRepository::host_ids(&hosts), vec![1, 2, 3]);
    assert_eq!(ProxyHostUpstreamsRepository::access_list_ids(&hosts), vec![5, 6]);
    let records = ProxyHostUpstreamsRepository::assemble(&hosts, &pairs, &lists, &rules);
    assert_eq!(records.len(), 3);
    assert_eq!(records[0].1.iter().map(|u| u.id).collect::<Vec<_>>(), vec![7, 9]);
    assert_eq!(records[1].1.iter().map(|u| u.id).collect::<Vec<_>>(), vec![8]);
    let (l, r) = records[0].2.as_ref().unwrap();
    assert_eq!(l.name, "office");
    assert_eq!(r.len(), 1);
    assert!(records[1].2.is_none());
    // Host 3 names list 6, which was not read: no access list.
    assert!(records[2].2.is_none());
    let responses = proxy_manager::api::endpoints::proxy_host::responses(&records);
    assert_eq!(responses[0].access_list.as_deref(), Some("office"));
    assert_eq!(responses[2].access_list, None);
}

#[test]
fn links_name_the_host_and_each_upstream() {
    let links = ProxyHostsRepository::upstream_links(4, &vec![7, 8]);
    assert_eq!(links.len(), 2);
    assert_eq!((links[0].proxy_host_id, links[0].upstream_id), (4, 7));
    assert_eq!((links[1].proxy_host_id, links[1].upstream_id), (4, 8));
}

#[test]
fn proxy_host_updates_replace_only_named_fields() {
    let mut row = host(1, "a.example.com", Some(5));
    row.certificate_name = Some("a.example.com".into());
    let clear_cert = UpdateProxyHostModel { domain: None, certificate_name: Some(None), access_list_id: None };
    let after = row.apply_update(&clear_cert).unwrap();
    assert_eq!(after.certificate_name, None);
    assert_eq!(after.access_list_id, Some(5));
    assert_eq!(after.domain, "a.example.com");
    let again = after.apply_update(&clear_cert).unwrap();
    assert_eq!(again.certificate_name, None);
    let nothing = UpdateProxyHostModel { domain: None, certificate_name: None, access_list_id: None };
    assert!(row.apply_update(&nothing).is_none());
}

#[test]
fn upstream_and_user_updates() {
    let u = upstream(1, "old");
    let after = u.apply_update(&UpdateUpstreamModel { name: None, schema: None, host: Some("new".into()), port: Some(8443) }).unwrap();
    assert_eq!(after.host, "new");
    assert_eq!(after.port, 8443);
    assert_eq!(after.name, "old");
    assert!(u.apply_update(&UpdateUpstreamModel { name: None, schema: None, host: None, port: None }).is_none());

    let user = UserModel {
        id: 1,
        username: "alice".into(),
        password: "hash".into(),
        role: "user".into(),
        scopes: vec![Some("proxy_hosts:read".into())],
        created_at: at(5),
    };
    let after = user.apply_update(&UpdateUserModel { password: None, role: Some("admin".into()), scopes: None }).unwrap();
    assert_eq!(after.role, "admin");
    assert_eq!(after.password, "hash");
    assert_eq!(after.scopes, vec![Some("proxy_hosts:read".to_string())]);
    assert!(user.apply_update(&UpdateUserModel { password: None, role: None, scopes: None }).is_none());
}
