//! The certificate endpoints: certificates uploaded as PEM, and certificates
//! requested from an ACME authority.  Certificates are stored as base64 of
//! their PEM text.
use vstd::prelude::*;

pub mod create;
pub mod request;
pub mod upload;

use crate::api::status::{RepositoryErrorKind, Status};
use crate::database::models::{CertificateModel, Timestamp};
use crate::outside::{base64_decode, base64_encode, base64_standard_decode, base64_standard_encode, utf8_string};

verus! {

/// The PEM text that base64 `text` carries: its decoded bytes read as
/// UTF-8; `None` when either step fails.
pub open spec fn pem_of(text: Seq<char>) -> Option<Seq<char>> {
    match base64_standard_decode(text) {
        Some(bytes) => if vstd::utf8::valid_utf8(bytes) {
            Some(vstd::utf8::decode_utf8(bytes))
        } else {
            None
        },
        None => None,
    }
}

/// A string as a character sequence, or `None`.
pub open spec fn opt_text(s: Option<String>) -> Option<Seq<char>> {
    match s {
        Some(v) => Some(v@),
        None => None,
    }
}

/// What the certificate store makes of a certificate and a private key, both
/// as PEM text: refused, or accepted as a certificate and the key of that
/// certificate, with the time the certificate expires where it reads one.
#[derive(Clone, Copy, PartialEq, Eq, Structural, Debug)]
pub enum PairCheck {
    Refused,
    Accepted { expires_at: Option<Timestamp> },
}

/// The PEM text that base64 `text` carries.
pub fn decode_pem(text: &str) -> (r: Option<String>)
    ensures
        opt_text(r) == pem_of(text@),
{
    match base64_decode(text) {
        Some(bytes) => utf8_string(bytes),
        None => None,
    }
}

/// The base64 form in which a PEM text is stored.  What is stored this way
/// is read back as the same PEM text.
pub fn encode_pem(pem: &str) -> (r: String)
    ensures
        r@ == base64_standard_encode(pem@),
        pem_of(r@) == Some(pem@),
{
    let r = base64_encode(pem);
    proof {
        vstd::utf8::encode_utf8_valid_utf8(pem@);
        vstd::utf8::encode_utf8_decode_utf8(pem@);
    }
    r
}

/// The PEM texts of a certificate and its key, both sent as base64; a body
/// where either does not decode to UTF-8 text is answered 400.
pub fn decode_certificate_pair(certificate: &str, pem_key: &str) -> (r: Result<(String, String), Status>)
    ensures
        match (pem_of(certificate@), pem_of(pem_key@)) {
            (Some(c), Some(k)) => (r matches Ok((rc, rk)) && rc@ == c && rk@ == k),
            _ => r == Err::<(String, String), Status>(Status::BadRequest),
        },
{
    match (decode_pem(certificate), decode_pem(pem_key)) {
        (Some(c), Some(k)) => Ok((c, k)),
        _ => Err(Status::BadRequest),
    }
}

/// The status of storing a certificate: 201 on success, 409 for a duplicate
/// name, 500 otherwise.
pub fn store_status(result: Result<(), RepositoryErrorKind>) -> (s: Status)
    ensures
        s == (match result {
            Ok(()) => Status::Created,
            Err(RepositoryErrorKind::UniqueViolation) => Status::Conflict,
            Err(_) => Status::InternalServerError,
        }),
{
    match result {
        Ok(()) => Status::Created,
        Err(RepositoryErrorKind::UniqueViolation) => Status::Conflict,
        Err(_) => Status::InternalServerError,
    }
}

/// The status of a delete, from the outcome of looking the certificate up
/// and then removing it: 204 when both succeed, 404 for an unknown
/// certificate, 500 when either step fails otherwise.
pub fn delete_status(outcome: Result<(), RepositoryErrorKind>) -> (s: Status)
    ensures
        s == (match outcome {
            Ok(()) => Status::NoContent,
            Err(RepositoryErrorKind::NotFound) => Status::NotFound,
            Err(_) => Status::InternalServerError,
        }),
{
    match outcome {
        Ok(()) => Status::NoContent,
        Err(RepositoryErrorKind::NotFound) => Status::NotFound,
        Err(_) => Status::InternalServerError,
    }
}

/// A certificate as a listing shows it: no PEM, no key.
pub struct CertificateReturnValue {
    pub id: i32,
    pub name: String,
    pub type_: String,
    pub created_at: Timestamp,
    pub expires_at: Option<Timestamp>,
}

impl From<CertificateModel> for CertificateReturnValue {
    fn from(model: CertificateModel) -> (r: Self)
        ensures
            r.id == model.id,
            r.name == model.name,
            r.type_ == model.type_,
            r.created_at == model.created_at,
            r.expires_at == model.expires_at,
    {
        CertificateReturnValue {
            id: model.id,
            name: model.name,
            type_: model.type_,
            created_at: model.created_at,
            expires_at: model.expires_at,
        }
    }
}

impl vstd::std_specs::convert::FromSpecImpl<CertificateModel> for CertificateReturnValue {
    open spec fn obeys_from_spec() -> bool {
        true
    }

    open spec fn from_spec(model: CertificateModel) -> Self {
        CertificateReturnValue {
            id: model.id,
            name: model.name,
            type_: model.type_,
            created_at: model.created_at,
            expires_at: model.expires_at,
        }
    }
}

/// A listing shows a stored certificate as it is stored: its id, name,
/// type, creation time and expiry, all unchanged.
pub proof fn lemma_listing_keeps_the_stored_fields(model: CertificateModel)
    ensures
        ({
            let v = <CertificateReturnValue as vstd::std_specs::convert::FromSpec<
                CertificateModel,
            >>::from_spec(model);
            &&& v.id == model.id
            &&& v.name == model.name
            &&& v.type_ == model.type_
            &&& v.created_at == model.created_at
            &&& v.expires_at == model.expires_at
        }),
{
}

/// The PEM text of a stored certificate, as the loader reads it at start-up;
/// `None` when the stored text does not decode.
pub fn stored_certificate_pem(model: &CertificateModel) -> (r: Option<String>)
    ensures
        opt_text(r) == pem_of(model.certificate@),
{
    decode_pem(model.certificate.as_str())
}

/// Whether start-up loads a stored certificate into the certificate store,
/// and with which PEM texts: when its certificate decodes, its key was
/// decrypted (`key_pem`), and the store accepts the pair; otherwise the row
/// is skipped.
pub fn certificate_to_load(model: &CertificateModel, key_pem: Option<String>, check: PairCheck) -> (r: Option<
    (String, String),
>)
    ensures
        match (pem_of(model.certificate@), key_pem, check) {
            (Some(c), Some(k), PairCheck::Accepted { .. }) => (r matches Some((rc, rk)) && rc@ == c && rk == k),
            _ => r is None,
        },
{
    let cert_pem = match stored_certificate_pem(model) {
        Some(c) => c,
        None => return None,
    };
    match (key_pem, check) {
        (Some(k), PairCheck::Accepted { .. }) => Some((cert_pem, k)),
        _ => None,
    }
}

} // verus!
