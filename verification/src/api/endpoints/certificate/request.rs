//! Requesting a certificate for a domain from the ACME authority.
use vstd::prelude::*;
use vstd::string::*;

use crate::api::endpoints::certificate::{encode_pem, pem_of, PairCheck};
use crate::api::endpoints::proxy_host::{check_domain, valid_domain};
use crate::api::endpoints::utils::{failures, report, Patterns, ValidationErrors};
use crate::api::status::Status;
use crate::cert::DnsProviderId;
use crate::database::models::{NewCertificateModel, Timestamp};
use crate::outside::{base64_standard_encode, unicode_lowercase};

verus! {

/// How long the flow waits for DNS records to propagate when the request
/// names no time.
pub const DEFAULT_DNS_PROPAGATION_SECS: u64 = 30;

/// The body of a request for a certificate.
pub struct CreateCertificateRequestBody {
    pub domain: String,
    pub dns_provider: String,
    pub dns_propagation_secs: Option<u64>,
}

impl CreateCertificateRequestBody {
    /// The checks of the request, field by field.
    pub open spec fn checks(self) -> Seq<(Seq<char>, bool)> {
        seq![
            ("domain"@, valid_domain(self.domain@)),
            ("dns_provider"@, self.dns_provider@.len() >= 1),
            ("dns_propagation_secs"@, match self.dns_propagation_secs {
                Some(s) => 1 <= s <= 300,
                None => true,
            }),
        ]
    }

    /// A request the API accepts.
    pub open spec fn is_valid(self) -> bool {
        &&& valid_domain(self.domain@)
        &&& self.dns_provider@.len() >= 1
        &&& match self.dns_propagation_secs {
            Some(s) => 1 <= s <= 300,
            None => true,
        }
    }

    /// Validates the request; the error lists the fields that fail.
    pub fn validate(&self, patterns: &Patterns) -> (r: Result<(), ValidationErrors>)
        ensures
            r is Ok <==> self.is_valid(),
            r matches Err(e) ==> e.names() == failures(self.checks()),
    {
        let secs_ok = match self.dns_propagation_secs {
            Some(s) => 1 <= s && s <= 300,
            None => true,
        };
        let passed = vec![
            check_domain(&self.domain, patterns),
            self.dns_provider.as_str().unicode_len() >= 1,
            secs_ok,
        ];
        let names = vec!["domain", "dns_provider", "dns_propagation_secs"];
        proof {
            reveal_strlit("domain");
            reveal_strlit("dns_provider");
            reveal_strlit("dns_propagation_secs");
        }
        let r = report(names, passed, Ghost(self.checks()));
        assert(self.checks()[0].1 && self.checks()[1].1 && self.checks()[2].1 <==> self.is_valid());
        r
    }
}

/// What a valid request goes on with: the DNS provider, and how long to wait
/// for the records to propagate.
pub struct RequestPlan {
    pub provider: DnsProviderId,
    pub propagation_secs: u64,
}

/// Decides how a request goes on.  An invalid request is answered 422; a
/// domain that already has a certificate, 204; an unknown provider, 400.
/// Otherwise the flow goes on with the provider and the propagation time
/// asked for, 30 seconds when none is.
pub fn plan_request(body: &CreateCertificateRequestBody, patterns: &Patterns, already_stored: bool) -> (r: Result<
    RequestPlan,
    Status,
>)
    ensures
        !body.is_valid() ==> r == Err::<RequestPlan, Status>(Status::UnprocessableEntity),
        body.is_valid() && already_stored ==> r == Err::<RequestPlan, Status>(Status::NoContent),
        body.is_valid() && !already_stored ==> (if unicode_lowercase(body.dns_provider@)
            == "cloudflare"@ {
            r matches Ok(p) && p.provider == DnsProviderId::Cloudflare && p.propagation_secs == (
            match body.dns_propagation_secs {
                Some(s) => s,
                None => 30,
            })
        } else {
            r == Err::<RequestPlan, Status>(Status::BadRequest)
        }),
{
    if body.validate(patterns).is_err() {
        return Err(Status::UnprocessableEntity);
    }
    if already_stored {
        return Err(Status::NoContent);
    }
    let provider = match DnsProviderId::from_str(body.dns_provider.as_str()) {
        Ok(p) => p,
        Err(_) => return Err(Status::BadRequest),
    };
    let propagation_secs = match body.dns_propagation_secs {
        Some(s) => s,
        None => DEFAULT_DNS_PROPAGATION_SECS,
    };
    Ok(RequestPlan { provider, propagation_secs })
}

/// The row of a certificate issued for `domain`: of type `letsencrypt`,
/// named after the domain, with the certificate chain stored as base64 of
/// its PEM text (which reads back as that text), the key as the certificate
/// store encrypted it, and the provider that answered the challenge.
pub fn issued_model(
    domain: &str,
    certificate_pem: &str,
    private_key: String,
    expires_at: Option<Timestamp>,
    dns_provider: &str,
) -> (m: NewCertificateModel)
    ensures
        m.name@ == domain@,
        m.certificate@ == base64_standard_encode(certificate_pem@),
        pem_of(m.certificate@) == Some(certificate_pem@),
        m.private_key == private_key,
        m.expires_at == expires_at,
        m.type_@ == "letsencrypt"@,
        m.dns_provider matches Some(p) && p@ == dns_provider@,
{
    NewCertificateModel {
        type_: String::from_str("letsencrypt"),
        name: String::from_str(domain),
        certificate: encode_pem(certificate_pem),
        private_key,
        expires_at,
        dns_provider: Some(String::from_str(dns_provider)),
    }
}

/// The row of an issued certificate from what the certificate store
/// answered for the chain and key the authority returned: 500 when it
/// refused them as a pair, or could not encrypt the key; otherwise the row
/// of `issued_model` with the encrypted key and the certificate's expiry.
pub fn issued_row(
    domain: &str,
    certificate_pem: &str,
    check: PairCheck,
    encrypted_key: Option<String>,
    dns_provider: &str,
) -> (r: Result<NewCertificateModel, Status>)
    ensures
        match (check, encrypted_key) {
            (PairCheck::Accepted { expires_at }, Some(k)) => (r matches Ok(m) && m.name@ == domain@
                && m.certificate@ == base64_standard_encode(certificate_pem@) && pem_of(m.certificate@)
                == Some(certificate_pem@) && m.private_key == k && m.expires_at == expires_at
                && m.type_@ == "letsencrypt"@ && (m.dns_provider matches Some(p) && p@ == dns_provider@)),
            _ => r == Err::<NewCertificateModel, Status>(Status::InternalServerError),
        },
{
    match (check, encrypted_key) {
        (PairCheck::Accepted { expires_at }, Some(k)) => Ok(
            issued_model(domain, certificate_pem, k, expires_at, dns_provider),
        ),
        _ => Err(Status::InternalServerError),
    }
}

} // verus!
