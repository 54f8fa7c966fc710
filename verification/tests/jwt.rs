use proxy_manager::jwt::{jwt_secret, Claims, JwtConfig, JwtError, JwtService};

fn test_service() -> JwtService {
    JwtService::new(JwtConfig::from_secret(b"super-secret-key", 3600))
}

#[test]
fn test_issue_and_verify() {
    let svc = test_service();
    let token = svc.issue("user-123", vec!["admin".into()]).unwrap();
    let data = svc.verify(&token).unwrap();

    assert_eq!(data.sub, "user-123");
    assert!(data.roles.contains(&"admin".to_owned()));
}

#[test]
fn test_expired_token() {
    let svc = test_service();

    let claims = Claims { sub: "user-123".to_owned(), iat: 0, exp: 1, roles: vec![] };

    let token = svc.sign(&claims);
    let err = svc.verify(&token).unwrap_err();
    assert!(matches!(err, JwtError::Expired));
}

#[test]
fn test_invalid_token() {
    let svc = test_service();
    let err = svc.verify("not.a.token").unwrap_err();
    assert!(matches!(err, JwtError::VerifyError));
}

#[test]
fn claims_last_the_configured_lifetime() {
    let svc = test_service();
    let c = svc.claims_at("bob", vec!["user".into()], 1_000);
    assert_eq!(c.sub, "bob");
    assert_eq!(c.iat, 1_000);
    assert_eq!(c.exp, 4_600);
    assert_eq!(c.roles, vec!["user".to_string()]);
    let now = svc.claims_now("bob", vec![]).unwrap();
    assert_eq!(now.exp - now.iat, 3600);
}

#[test]
fn claims_for_refuses_an_expiry_past_64_bits() {
    let svc = test_service();
    let c = svc.claims_for("bob", vec![], 5).unwrap();
    assert_eq!((c.iat, c.exp), (5, 3605));
    assert!(svc.claims_for("bob", vec![], u64::MAX - 3600).is_some());
    assert!(svc.claims_for("bob", vec![], u64::MAX - 3599).is_none());
}

#[test]
fn issued_tokens_carry_the_claims() {
    let svc = test_service();
    assert_eq!(svc.issue_at("bob", vec![], u64::MAX), Err(JwtError::Overflow));
    let far = 4_000_000_000;
    let token = svc.issue_at("bob", vec!["user".into(), "proxy_hosts:read".into()], far).unwrap();
    let claims = svc.verify_at(&token, far + 3600 + 60).unwrap();
    assert_eq!(claims.sub, "bob");
    assert_eq!(claims.iat, far);
    assert_eq!(claims.exp, far + 3600);
    assert_eq!(claims.roles, vec!["user".to_string(), "proxy_hosts:read".to_string()]);
    // One second past the leeway the token has expired.
    assert!(matches!(svc.verify_at(&token, far + 3600 + 61), Err(JwtError::Expired)));
    // Signing is deterministic, and another secret does not verify.
    assert_eq!(svc.issue_at("bob", vec!["user".into(), "proxy_hosts:read".into()], far).unwrap(), token);
    let other = JwtService::new(JwtConfig::from_secret(b"another-secret", 3600));
    assert!(matches!(other.verify_at(&token, far), Err(JwtError::VerifyError)));
    // A token whose signature was altered is refused.
    let mut forged = token.clone();
    let last = forged.pop().unwrap();
    forged.push(if last == 'A' { 'B' } else { 'A' });
    assert!(matches!(svc.verify_at(&forged, far), Err(JwtError::VerifyError)));
}

#[test]
fn secret_comes_from_the_setting_or_the_debug_default() {
    assert_eq!(jwt_secret(Some("s3cr3t".into()), false), Ok("s3cr3t".to_string()));
    assert_eq!(jwt_secret(Some("s3cr3t".into()), true), Ok("s3cr3t".to_string()));
    assert_eq!(jwt_secret(None, true), Ok("debug-secret".to_string()));
    assert_eq!(jwt_secret(None, false), Err(JwtError::MissingSecret));
    assert_eq!(JwtConfig::from_secret(b"abc", 7).secret, b"abc".to_vec());
}
