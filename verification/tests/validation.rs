use proxy_manager::api::endpoints::utils::{
    validate_access_list_action, validate_address, validate_forward_schema, Patterns,
};

#[test]
fn forward_schema_is_http_or_https() {
    assert!(validate_forward_schema("http").is_ok());
    assert!(validate_forward_schema("https").is_ok());
    let e = validate_forward_schema("ftp").unwrap_err();
    assert_eq!(e.code, "forward_schema must be 'http' or 'https'");
    assert!(validate_forward_schema("HTTP").is_err());
}

#[test]
fn action_is_allow_or_deny() {
    assert!(validate_access_list_action("allow").is_ok());
    assert!(validate_access_list_action("deny").is_ok());
    assert_eq!(validate_access_list_action("block").unwrap_err().code, "invalid_action");
}

#[test]
fn address_is_ip_or_network() {
    assert!(validate_address("192.168.1.10", true).is_ok());
    assert!(validate_address("10.0.0.0/8", false).is_ok());
    assert!(validate_address("fd00::/64", false).is_ok());
    assert_eq!(validate_address("nonsense", false).unwrap_err().code, "invalid_address");
    assert!(validate_address("10.0.0.1", false).is_err());
}

#[test]
fn patterns_compile_and_match() {
    let p = Patterns::compile().expect("the API's patterns compile");
    assert!(p.is_domain("example.com"));
    assert!(p.is_domain("a-b.sub.example.org"));
    assert!(!p.is_domain("localhost"));
    assert!(!p.is_domain("-bad.example.com"));
    assert!(p.is_host("localhost"));
    assert!(p.is_host("backend-1.internal"));
    assert!(!p.is_host("bad host"));
    assert!(p.is_username("admin_2-x"));
    assert!(!p.is_username("no spaces"));
    assert!(p.is_cert_name("my.cert_1-a"));
    assert!(!p.is_cert_name("a/b"));
}
