//! Certificates from an ACME authority by DNS-01 challenges: which DNS
//! provider answers the challenges, and how it is configured.
use vstd::prelude::*;
use vstd::string::*;

pub mod authority;
pub mod cloudflare;

use crate::cert::cloudflare::CloudflareDns;
use crate::outside::{ascii_lowercase, is_ascii_char, to_lowercase, unicode_lowercase};
use crate::text::{concat_str, str_eq};

verus! {

/// The DNS providers that can answer DNS-01 challenges.
#[derive(Clone, Copy, PartialEq, Eq, Structural, Debug)]
pub enum DnsProviderId {
    Cloudflare,
}

/// The name of a provider, as the API spells it.
pub open spec fn provider_name(id: DnsProviderId) -> Seq<char> {
    match id {
        DnsProviderId::Cloudflare => "cloudflare"@,
    }
}

/// A provider name that no provider answers to.
pub struct UnknownDnsProvider {
    /// The name as it was given.
    pub name: String,
}

impl UnknownDnsProvider {
    /// `Unknown DNS provider: '<name>'.`
    pub fn message(&self) -> (m: String)
        ensures
            m@ == "Unknown DNS provider: '"@ + self.name@ + "'."@,
    {
        let m = concat_str("Unknown DNS provider: '", self.name.as_str());
        m.concat("'.")
    }
}

impl DnsProviderId {
    /// The name of the provider: `cloudflare`.
    pub fn name(&self) -> (s: String)
        ensures
            s@ == provider_name(*self),
    {
        match self {
            DnsProviderId::Cloudflare => String::from_str("cloudflare"),
        }
    }

    /// The provider a name denotes, compared after lower-casing: `Cloudflare`
    /// and `CLOUDFLARE` name Cloudflare too.
    pub fn from_str(s: &str) -> (r: Result<DnsProviderId, UnknownDnsProvider>)
        ensures
            r is Ok <==> unicode_lowercase(s@) == "cloudflare"@,
            is_ascii_text(s@) ==> (r is Ok <==> ascii_lowercase(s@) == "cloudflare"@),
            r matches Ok(id) ==> id == DnsProviderId::Cloudflare,
            r matches Err(e) ==> e.name@ == s@,
    {
        let lower = to_lowercase(s);
        if str_eq(lower.as_str(), "cloudflare") {
            Ok(DnsProviderId::Cloudflare)
        } else {
            Err(UnknownDnsProvider { name: String::from_str(s) })
        }
    }
}

/// Text made of ASCII characters only.
pub open spec fn is_ascii_text(s: Seq<char>) -> bool {
    forall|i: int| 0 <= i < s.len() ==> is_ascii_char(#[trigger] s[i])
}

/// A provider's name reads back as that provider: the name is ASCII and
/// lower-case already, so by the contract of `from_str` it parses to the
/// one provider there is.
pub proof fn lemma_provider_name_parses_back(id: DnsProviderId)
    ensures
        is_ascii_text(provider_name(id)),
        ascii_lowercase(provider_name(id)) == "cloudflare"@,
        id == DnsProviderId::Cloudflare,
{
    reveal_strlit("cloudflare");
    assert(ascii_lowercase(provider_name(id)) =~= provider_name(id));
}

/// The Cloudflare settings: the API token.
pub struct CloudflareDnsConfig {
    pub api_token: String,
}

/// A configuration value that is required and missing.
pub struct MissingVariable {
    /// The name of the environment variable.
    pub variable: String,
}

impl MissingVariable {
    /// `Missing required environment variable: <name>`.
    pub fn message(&self) -> (m: String)
        ensures
            m@ == "Missing required environment variable: "@ + self.variable@,
    {
        concat_str("Missing required environment variable: ", self.variable.as_str())
    }
}

impl CloudflareDnsConfig {
    /// The settings from the value of `CF_API_TOKEN`, which is required.
    pub fn from_token(api_token: Option<String>) -> (r: Result<Self, MissingVariable>)
        ensures
            match api_token {
                Some(t) => r matches Ok(c) && c.api_token == t,
                None => r matches Err(e) && e.variable@ == "CF_API_TOKEN"@,
            },
    {
        match api_token {
            Some(api_token) => Ok(CloudflareDnsConfig { api_token }),
            None => Err(MissingVariable { variable: String::from_str("CF_API_TOKEN") }),
        }
    }
}

/// A DNS provider ready to answer challenges.
pub enum DnsProviderHandle {
    Cloudflare(CloudflareDns),
}

/// The provider named by `provider_id`, configured from the value of its
/// environment variable; a missing variable is reported.
pub fn create_dns_provider(provider_id: DnsProviderId, cf_api_token: Option<String>) -> (r: Result<
    DnsProviderHandle,
    MissingVariable,
>)
    ensures
        match cf_api_token {
            Some(t) => (r matches Ok(DnsProviderHandle::Cloudflare(p)) && p.api_token() == t@),
            None => (r matches Err(e) && e.variable@ == "CF_API_TOKEN"@),
        },
{
    match provider_id {
        DnsProviderId::Cloudflare => {
            let config = CloudflareDnsConfig::from_token(cf_api_token)?;
            Ok(DnsProviderHandle::Cloudflare(CloudflareDns::new(config)))
        },
    }
}

} // verus!
