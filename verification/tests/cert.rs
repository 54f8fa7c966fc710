use proxy_manager::cert::authority::{
    authorization_action, challenge_record_name, challenges_published, may_finalize,
    AuthorizationAction, AuthorizationState, CertificateAuthority, OrderState,
};
use proxy_manager::cert::cloudflare::{
    challenge_domain, check_deleted, created_record_id, split_record_id, txt_record, zone_step,
    CloudflareApiError, CloudflareDns, CloudflareError, CloudflareResponse, DnsRecord, ZoneResult,
    ZoneStep,
};
use proxy_manager::cert::{create_dns_provider, DnsProviderHandle, DnsProviderId};

#[test]
fn provider_names_parse_case_insensitively() {
    assert_eq!(DnsProviderId::from_str("cloudflare").ok(), Some(DnsProviderId::Cloudflare));
    assert_eq!(DnsProviderId::from_str("CloudFlare").ok(), Some(DnsProviderId::Cloudflare));
    let e = DnsProviderId::from_str("route53").err().unwrap();
    assert_eq!(e.message(), "Unknown DNS provider: 'route53'.");
    let id = DnsProviderId::Cloudflare;
    assert_eq!(id.name(), "cloudflare");
    assert_eq!(DnsProviderId::from_str(&id.name()).ok(), Some(id));
}

#[test]
fn cloudflare_provider_needs_its_token() {
    match create_dns_provider(DnsProviderId::Cloudflare, Some("tok".into())) {
        Ok(DnsProviderHandle::Cloudflare(p)) => assert_eq!(p.token(), "tok"),
        Err(_) => panic!("a token was given"),
    }
    let e = create_dns_provider(DnsProviderId::Cloudflare, None).err().unwrap();
    assert_eq!(e.message(), "Missing required environment variable: CF_API_TOKEN");
}

#[test]
fn zone_candidates_go_from_longest_to_second_level() {
    assert_eq!(
        CloudflareDns::zone_candidates("a.b.example.com"),
        vec!["a.b.example.com".to_string(), "b.example.com".to_string(), "example.com".to_string()]
    );
    assert_eq!(CloudflareDns::zone_candidates("example.com"), vec!["example.com".to_string()]);
    assert!(CloudflareDns::zone_candidates("localhost").is_empty());
}

#[test]
fn challenge_names_and_record_ids() {
    assert_eq!(challenge_domain("_acme-challenge.example.com"), "example.com");
    assert_eq!(challenge_domain("_acme-challenge._acme-challenge.x.io"), "x.io");
    assert_eq!(challenge_domain("example.com"), "example.com");
    assert_eq!(challenge_domain(&challenge_record_name("shop.example.com")), "shop.example.com");
    assert_eq!(split_record_id("zone/rec"), Some(("zone".to_string(), "rec".to_string())));
    assert_eq!(split_record_id("z/r/s"), Some(("z".to_string(), "r/s".to_string())));
    assert_eq!(split_record_id("norecord"), None);
    assert_eq!(
        CloudflareDns::records_url("abc"),
        "https://api.cloudflare.com/client/v4/zones/abc/dns_records"
    );
    assert_eq!(
        CloudflareDns::record_url("abc", "r1"),
        "https://api.cloudflare.com/client/v4/zones/abc/dns_records/r1"
    );
    let body = txt_record("_acme-challenge.example.com", "digest");
    assert_eq!((body.type_.as_str(), body.ttl), ("TXT", 60));
}

fn errors(msgs: &[&str]) -> Vec<CloudflareApiError> {
    msgs.iter().map(|m| CloudflareApiError { message: m.to_string() }).collect()
}

#[test]
fn cloudflare_answers() {
    let failed: CloudflareResponse<Vec<ZoneResult>> =
        CloudflareResponse { success: false, result: None, errors: errors(&["bad token", "denied"]) };
    assert_eq!(failed.error_messages(), "bad token, denied");
    match zone_step(&failed) {
        Err(e) => assert_eq!(e.message(), "Cloudflare API error: bad token, denied"),
        Ok(_) => panic!("the answer failed"),
    }
    let found = CloudflareResponse {
        success: true,
        result: Some(vec![ZoneResult { id: "z1".into() }, ZoneResult { id: "z2".into() }]),
        errors: vec![],
    };
    assert!(matches!(zone_step(&found), Ok(ZoneStep::Found(id)) if id == "z1"));
    let none: CloudflareResponse<Vec<ZoneResult>> = CloudflareResponse { success: true, result: Some(vec![]), errors: vec![] };
    assert!(matches!(zone_step(&none), Ok(ZoneStep::Next)));

    let created = CloudflareResponse { success: true, result: Some(DnsRecord { id: "r9".into() }), errors: vec![] };
    let record_id = created_record_id("z1", &created).ok();
    assert_eq!(record_id, Some("z1/r9".to_string()));
    // The id of a created record is one the deletion accepts.
    assert_eq!(split_record_id(&record_id.unwrap()), Some(("z1".to_string(), "r9".to_string())));
    let empty: CloudflareResponse<DnsRecord> = CloudflareResponse { success: true, result: None, errors: vec![] };
    assert!(matches!(created_record_id("z1", &empty), Err(CloudflareError::EmptyResult)));
    let deleted: CloudflareResponse<()> = CloudflareResponse { success: true, result: None, errors: vec![] };
    assert!(check_deleted(&deleted).is_ok());
    assert_eq!(
        CloudflareError::NoZone("x.io".into()).message(),
        "No active Cloudflare zone found for domain: x.io"
    );
}

#[test]
fn acme_decisions() {
    assert_eq!(
        CertificateAuthority::staging().acme_url(),
        "https://acme-staging-v02.api.letsencrypt.org/directory"
    );
    assert_eq!(
        CertificateAuthority::production().acme_url(),
        "https://acme-v02.api.letsencrypt.org/directory"
    );
    assert_eq!(CertificateAuthority::new("https://ca.test/dir".into()).acme_url(), "https://ca.test/dir");
    assert_eq!(challenge_record_name("example.com"), "_acme-challenge.example.com");
    assert_eq!(authorization_action(AuthorizationState::Valid), AuthorizationAction::Skip);
    assert_eq!(authorization_action(AuthorizationState::Pending), AuthorizationAction::Answer);
    assert_eq!(authorization_action(AuthorizationState::Revoked), AuthorizationAction::Fail);
    assert!(may_finalize(OrderState::Ready));
    assert!(!may_finalize(OrderState::Processing));
    assert!(!challenges_published(&vec![]));
    assert!(challenges_published(&vec!["r".to_string()]));
}
