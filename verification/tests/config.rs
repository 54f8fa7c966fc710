use proxy_manager::config::{jwt_expiry_seconds, parse_unsigned, decimal_text, ApiSettings};
use proxy_manager::database::config::DatabaseConfig;

#[test]
fn unsigned_numbers_parse_as_std_does() {
    assert_eq!(parse_unsigned("8080", 65535), Some(8080));
    assert_eq!(parse_unsigned("+12", 65535), Some(12));
    assert_eq!(parse_unsigned("007", 65535), Some(7));
    assert_eq!(parse_unsigned("", 65535), None);
    assert_eq!(parse_unsigned("+", 65535), None);
    assert_eq!(parse_unsigned("-1", 65535), None);
    assert_eq!(parse_unsigned("65536", 65535), None);
    assert_eq!(parse_unsigned("12a", 65535), None);
    assert_eq!(parse_unsigned("18446744073709551615", u64::MAX), Some(u64::MAX));
    assert_eq!(parse_unsigned("18446744073709551616", u64::MAX), None);
    for s in ["0", "+9", "65535", "65536", "x", "", " 1"] {
        assert_eq!(parse_unsigned(s, 65535), s.parse::<u16>().ok().map(u64::from));
    }
}

#[test]
fn api_settings_default() {
    let s = ApiSettings::from_values(None, None);
    assert_eq!(s.host, "0.0.0.0");
    assert_eq!(s.port, 8181);
    assert_eq!(s.address(), "0.0.0.0:8181");
    let s = ApiSettings::from_values(Some("127.0.0.1".into()), Some("not a port".into()));
    assert_eq!(s.address(), "127.0.0.1:8181");
    let s = ApiSettings::from_values(None, Some("9000".into()));
    assert_eq!(s.port, 9000);
    assert_eq!(decimal_text(0), "0");
    assert_eq!(decimal_text(1234567), "1234567");
}

#[test]
fn jwt_expiry_defaults_to_an_hour() {
    assert_eq!(jwt_expiry_seconds(&None), 3600);
    assert_eq!(jwt_expiry_seconds(&Some("60".into())), 60);
    assert_eq!(jwt_expiry_seconds(&Some("soon".into())), 3600);
}

#[test]
fn database_settings() {
    let c = DatabaseConfig::from_values(Some("postgres://db".into()), None).ok().unwrap();
    assert_eq!(c.database_url, "postgres://db");
    assert_eq!(c.max_connections, 10);
    let c = DatabaseConfig::from_values(Some("postgres://db".into()), Some("25".into())).ok().unwrap();
    assert_eq!(c.max_connections, 25);
    let c = DatabaseConfig::from_values(Some("postgres://db".into()), Some("many".into())).ok().unwrap();
    assert_eq!(c.max_connections, 10);
    let e = DatabaseConfig::from_values(None, Some("25".into())).err().unwrap();
    assert_eq!(e.message, "DATABASE_URL environment variable not set");
}
