//! Uploading a custom certificate as PEM texts sent as base64.
use vstd::prelude::*;
use vstd::string::*;

use crate::api::endpoints::utils::{
    cert_name_pattern, failures, pattern_matches, report, Patterns, ValidationErrors,
};
use crate::api::endpoints::certificate::PairCheck;
use crate::api::status::Status;
use crate::database::models::{NewCertificateModel, Timestamp};

verus! {

/// The body of a request that uploads a certificate.
pub struct UploadCertificateRequestBody {
    pub name: String,
    pub certificate: String,
    pub pem_key: String,
}

/// A certificate name: at least one character, matching the name pattern.
pub open spec fn valid_cert_name(name: Seq<char>) -> bool {
    name.len() >= 1 && pattern_matches(cert_name_pattern(), name)
}

impl UploadCertificateRequestBody {
    /// The checks of the request, field by field.
    pub open spec fn checks(self) -> Seq<(Seq<char>, bool)> {
        seq![
            ("name"@, valid_cert_name(self.name@)),
            ("certificate"@, self.certificate@.len() >= 1),
            ("pem_key"@, self.pem_key@.len() >= 1),
        ]
    }

    /// A request the API accepts.
    pub open spec fn is_valid(self) -> bool {
        valid_cert_name(self.name@) && self.certificate@.len() >= 1 && self.pem_key@.len() >= 1
    }

    /// Validates the request; the error lists the fields that fail.
    pub fn validate(&self, patterns: &Patterns) -> (r: Result<(), ValidationErrors>)
        ensures
            r is Ok <==> self.is_valid(),
            r matches Err(e) ==> e.names() == failures(self.checks()),
    {
        let name_ok = self.name.as_str().unicode_len() >= 1 && patterns.is_cert_name(self.name.as_str());
        let passed = vec![
            name_ok,
            self.certificate.as_str().unicode_len() >= 1,
            self.pem_key.as_str().unicode_len() >= 1,
        ];
        let names = vec!["name", "certificate", "pem_key"];
        proof {
            reveal_strlit("name");
            reveal_strlit("certificate");
            reveal_strlit("pem_key");
        }
        let r = report(names, passed, Ghost(self.checks()));
        assert(self.checks()[0].1 && self.checks()[1].1 && self.checks()[2].1 <==> self.is_valid());
        r
    }
}

/// The row of an uploaded certificate: of type `custom`, without a DNS
/// provider, with the base64 certificate as sent and the key as the
/// certificate store encrypted it.
pub fn upload_model(body: UploadCertificateRequestBody, private_key: String, expires_at: Option<Timestamp>) -> (m:
    NewCertificateModel)
    ensures
        m.name == body.name,
        m.certificate == body.certificate,
        m.private_key == private_key,
        m.expires_at == expires_at,
        m.type_@ == "custom"@,
        m.dns_provider is None,
{
    NewCertificateModel {
        type_: String::from_str("custom"),
        name: body.name,
        certificate: body.certificate,
        private_key,
        expires_at,
        dns_provider: None,
    }
}

/// The row of an upload from what the certificate store answered: 400 when
/// it refused the certificate and key as a pair, or could not encrypt the
/// key; otherwise the row with the encrypted key and the certificate's
/// expiry.
pub fn upload_row(body: UploadCertificateRequestBody, check: PairCheck, encrypted_key: Option<String>) -> (r:
    Result<NewCertificateModel, Status>)
    ensures
        match (check, encrypted_key) {
            (PairCheck::Accepted { expires_at }, Some(k)) => (r matches Ok(m) && m.name == body.name
                && m.certificate == body.certificate && m.private_key == k && m.expires_at == expires_at
                && m.type_@ == "custom"@ && m.dns_provider is None),
            _ => r == Err::<NewCertificateModel, Status>(Status::BadRequest),
        },
{
    match (check, encrypted_key) {
        (PairCheck::Accepted { expires_at }, Some(k)) => Ok(upload_model(body, k, expires_at)),
        _ => Err(Status::BadRequest),
    }
}

} // verus!
