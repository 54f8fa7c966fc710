//! Creating a certificate from PEM texts sent as base64.
use vstd::prelude::*;

use crate::database::models::{NewCertificateModel, Timestamp};

verus! {

/// The body of a request that creates a certificate.
pub struct CreateCertificateRequestBody {
    pub certificate: String,
    pub pem_key: String,
    pub name: String,
}

/// The row of a created certificate: the base64 certificate as sent, the
/// encrypted key, no type and no DNS provider.
pub fn create_model(body: CreateCertificateRequestBody, private_key: String, expires_at: Option<Timestamp>) -> (m:
    NewCertificateModel)
    ensures
        m.name == body.name,
        m.certificate == body.certificate,
        m.private_key == private_key,
        m.expires_at == expires_at,
        m.type_@ == Seq::<char>::empty(),
        m.dns_provider is None,
{
    NewCertificateModel {
        type_: String::new(),
        name: body.name,
        certificate: body.certificate,
        private_key,
        expires_at,
        dns_provider: None,
    }
}

} // verus!
