use proxy_manager::api::endpoints::certificate::request::{
    issued_model, issued_row, plan_request, CreateCertificateRequestBody,
};
use proxy_manager::api::endpoints::certificate::upload::{upload_model, upload_row, UploadCertificateRequestBody};
use proxy_manager::api::endpoints::certificate::create::{create_model, CreateCertificateRequestBody as CreateBody};
use proxy_manager::api::endpoints::certificate::{
    decode_certificate_pair, decode_pem, delete_status, encode_pem, store_status,
    certificate_to_load, stored_certificate_pem, CertificateReturnValue, PairCheck,
};
use proxy_manager::api::endpoints::utils::Patterns;
use proxy_manager::api::status::{RepositoryErrorKind, Status};
use proxy_manager::cert::DnsProviderId;
use proxy_manager::database::models::{CertificateModel, Timestamp};

const PEM: &str = "-----BEGIN CERTIFICATE-----\nMIIB\n-----END CERTIFICATE-----\n";

#[test]
fn pem_round_trips_through_base64() {
    let stored = encode_pem(PEM);
    assert_eq!(stored, "LS0tLS1CRUdJTiBDRVJUSUZJQ0FURS0tLS0tCk1JSUIKLS0tLS1FTkQgQ0VSVElGSUNBVEUtLS0tLQo=");
    assert_eq!(decode_pem(&stored).as_deref(), Some(PEM));
    // Groups of three bytes, and the padding of a last group of one or two.
    assert_eq!(encode_pem("Man"), "TWFu");
    assert_eq!(encode_pem("Ma"), "TWE=");
    assert_eq!(encode_pem("M"), "TQ==");
    assert_eq!(encode_pem(""), "");
    // The UTF-8 bytes are encoded: `é` is C3 A9.
    assert_eq!(encode_pem("é"), "w6k=");
    assert_eq!(decode_pem("%%%"), None);
    // Only the canonical encoding of some bytes decodes.
    assert_eq!(decode_pem("TWFu").as_deref(), Some("Man"));
    assert_eq!(decode_pem("TWE=").as_deref(), Some("Ma"));
    assert_eq!(decode_pem("TWE"), None);
    assert_eq!(decode_pem("TWF="), None);
    // Valid base64 of bytes that are no UTF-8.
    assert_eq!(decode_pem("/w=="), None);
}

#[test]
fn certificate_pair_must_decode() {
    let c = encode_pem("cert");
    let k = encode_pem("key");
    assert_eq!(decode_certificate_pair(&c, &k).ok(), Some(("cert".to_string(), "key".to_string())));
    assert_eq!(decode_certificate_pair(&c, "not base64!").err(), Some(Status::BadRequest));
}

#[test]
fn upload_validation_and_row() {
    let p = Patterns::compile().unwrap();
    let body = UploadCertificateRequestBody { name: "bad name".into(), certificate: "".into(), pem_key: "k".into() };
    assert_eq!(body.validate(&p).unwrap_err().fields, vec!["name".to_string(), "certificate".to_string()]);
    let body = UploadCertificateRequestBody { name: "site.cert".into(), certificate: "Y2VydA==".into(), pem_key: "a2V5".into() };
    assert!(body.validate(&p).is_ok());
    let m = upload_model(body, "encrypted".into(), Some(Timestamp { secs: 10, nanos: 0 }));
    assert_eq!(m.type_, "custom");
    assert_eq!(m.name, "site.cert");
    assert_eq!(m.certificate, "Y2VydA==");
    assert_eq!(m.private_key, "encrypted");
    assert_eq!(m.dns_provider, None);
    let c = create_model(CreateBody { certificate: "Y2VydA==".into(), pem_key: "a2V5".into(), name: "n".into() }, "enc".into(), None);
    assert_eq!(c.type_, "");
    assert_eq!(store_status(Err(RepositoryErrorKind::UniqueViolation)), Status::Conflict);
    assert_eq!(store_status(Ok(())), Status::Created);
    assert_eq!(delete_status(Err(RepositoryErrorKind::NotFound)), Status::NotFound);
    assert_eq!(delete_status(Ok(())), Status::NoContent);
}

#[test]
fn certificate_request_plan() {
    let p = Patterns::compile().unwrap();
    let body = CreateCertificateRequestBody { domain: "example.com".into(), dns_provider: "Cloudflare".into(), dns_propagation_secs: None };
    let plan = plan_request(&body, &p, false).ok().unwrap();
    assert_eq!(plan.provider, DnsProviderId::Cloudflare);
    assert_eq!(plan.propagation_secs, 30);
    assert_eq!(plan_request(&body, &p, true).err(), Some(Status::NoContent));
    let unknown = CreateCertificateRequestBody { domain: "example.com".into(), dns_provider: "route53".into(), dns_propagation_secs: Some(60) };
    assert_eq!(plan_request(&unknown, &p, false).err(), Some(Status::BadRequest));
    let invalid = CreateCertificateRequestBody { domain: "example.com".into(), dns_provider: "cloudflare".into(), dns_propagation_secs: Some(301) };
    assert_eq!(plan_request(&invalid, &p, false).err(), Some(Status::UnprocessableEntity));
    let m = issued_model("example.com", PEM, "enc".into(), None, "cloudflare");
    assert_eq!(m.type_, "letsencrypt");
    assert_eq!(m.dns_provider.as_deref(), Some("cloudflare"));
    assert_eq!(decode_pem(&m.certificate).as_deref(), Some(PEM));
}

#[test]
fn listing_and_loading_stored_certificates() {
    let model = CertificateModel {
        id: 3,
        name: "example.com".into(),
        type_: "letsencrypt".into(),
        certificate: encode_pem(PEM),
        private_key: "enc".into(),
        dns_provider: Some("cloudflare".into()),
        expires_at: None,
        created_at: Timestamp { secs: 1, nanos: 2 },
    };
    assert_eq!(stored_certificate_pem(&model).as_deref(), Some(PEM));
    let v = CertificateReturnValue::from(model);
    assert_eq!((v.id, v.name.as_str(), v.type_.as_str()), (3, "example.com", "letsencrypt"));
    assert_eq!(v.created_at, Timestamp { secs: 1, nanos: 2 });
}

fn upload_body() -> UploadCertificateRequestBody {
    UploadCertificateRequestBody { name: "site.cert".into(), certificate: "Y2VydA==".into(), pem_key: "a2V5".into() }
}

#[test]
fn uploads_store_the_encrypted_key_of_an_accepted_pair() {
    let expires = Some(Timestamp { secs: 1_900_000_000, nanos: 0 });
    assert_eq!(upload_row(upload_body(), PairCheck::Refused, Some("sealed".into())).err(), Some(Status::BadRequest));
    let accepted = PairCheck::Accepted { expires_at: expires };
    assert_eq!(upload_row(upload_body(), accepted, None).err(), Some(Status::BadRequest));
    let m = upload_row(upload_body(), accepted, Some("sealed".into())).ok().unwrap();
    assert_eq!(m.private_key, "sealed");
    assert_eq!(m.expires_at, expires);
    assert_eq!((m.name.as_str(), m.certificate.as_str(), m.type_.as_str()), ("site.cert", "Y2VydA==", "custom"));
    assert_eq!(m.dns_provider, None);
}

#[test]
fn issued_certificates_store_the_encrypted_key_of_an_accepted_pair() {
    let accepted = PairCheck::Accepted { expires_at: None };
    assert_eq!(
        issued_row("example.com", PEM, PairCheck::Refused, Some("sealed".into()), "cloudflare").err(),
        Some(Status::InternalServerError)
    );
    assert_eq!(issued_row("example.com", PEM, accepted, None, "cloudflare").err(), Some(Status::InternalServerError));
    let m = issued_row("example.com", PEM, accepted, Some("sealed".into()), "cloudflare").ok().unwrap();
    assert_eq!(m.private_key, "sealed");
    assert_eq!(m.type_, "letsencrypt");
    assert_eq!(decode_pem(&m.certificate).as_deref(), Some(PEM));
}

#[test]
fn start_up_loads_decodable_accepted_certificates() {
    let model = |certificate: String| CertificateModel {
        id: 1,
        name: "example.com".into(),
        type_: "custom".into(),
        certificate,
        private_key: "sealed".into(),
        dns_provider: None,
        expires_at: None,
        created_at: Timestamp { secs: 0, nanos: 0 },
    };
    let accepted = PairCheck::Accepted { expires_at: None };
    let good = model(encode_pem(PEM));
    assert_eq!(certificate_to_load(&good, Some("KEY".into()), accepted), Some((PEM.to_string(), "KEY".to_string())));
    assert_eq!(certificate_to_load(&good, None, accepted), None);
    assert_eq!(certificate_to_load(&good, Some("KEY".into()), PairCheck::Refused), None);
    assert_eq!(certificate_to_load(&model("%%%".into()), Some("KEY".into()), accepted), None);
}
