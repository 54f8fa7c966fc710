//! Cloudflare as a DNS provider: where its API lives, which zones a domain
//! may belong to, how record ids are written, and what its answers mean.
//! The HTTP exchanges themselves run in the application.
use vstd::prelude::*;
use vstd::string::*;

use crate::cert::CloudflareDnsConfig;
use crate::text::{
    chars_of, concat_str, find_char, first_index_of, has_prefix, lemma_first_index_of, starts_with_at,
    string_from_chars,
};

verus! {

/// A Cloudflare DNS provider: the API token it authenticates with.
pub struct CloudflareDns {
    api_token: String,
}

/// The positions of the dots of `s`, in order.
pub open spec fn dot_positions(s: Seq<char>) -> Seq<int>
    decreases s.len(),
{
    if s.len() == 0 {
        Seq::empty()
    } else {
        let rest = dot_positions(s.drop_last());
        if s.last() == '.' {
            rest.push(s.len() - 1)
        } else {
            rest
        }
    }
}

/// The zones a domain may belong to, longest first: the domain itself and
/// each suffix that starts after one of its dots, except the suffix after
/// the last dot (a bare top-level domain is no zone).
pub open spec fn zone_candidates_of(domain: Seq<char>) -> Seq<Seq<char>> {
    let dots = dot_positions(domain);
    Seq::new(
        dots.len(),
        |k: int|
            domain.subrange(
                if k == 0 {
                    0
                } else {
                    dots[k - 1] + 1
                },
                domain.len() as int,
            ),
    )
}

/// `name` with every leading copy of `prefix` removed, as
/// `str::trim_start_matches` does with a string pattern.
pub open spec fn trim_leading(name: Seq<char>, prefix: Seq<char>) -> Seq<char>
    decreases name.len(),
{
    if prefix.len() > 0 && has_prefix(name, prefix) {
        trim_leading(name.subrange(prefix.len() as int, name.len() as int), prefix)
    } else {
        name
    }
}

/// The prefix of the TXT records that answer DNS-01 challenges.
pub open spec fn challenge_prefix() -> Seq<char> {
    "_acme-challenge."@
}

/// The API address of the DNS records of a zone.
pub open spec fn records_url_of(zone_id: Seq<char>) -> Seq<char> {
    "https://api.cloudflare.com/client/v4/zones/"@ + zone_id + "/dns_records"@
}

impl CloudflareDns {
    /// The API token.
    pub closed spec fn api_token(&self) -> Seq<char> {
        self.api_token@
    }

    /// A provider for the configured token.
    pub fn new(config: CloudflareDnsConfig) -> (r: Self)
        ensures
            r.api_token() == config.api_token@,
    {
        CloudflareDns { api_token: config.api_token }
    }

    /// The API token, to authenticate requests with.
    pub fn token(&self) -> (t: &str)
        ensures
            t@ == self.api_token(),
    {
        self.api_token.as_str()
    }

    /// The zones `domain` may belong to, longest first, to be looked up in
    /// turn until one is found.
    pub fn zone_candidates(domain: &str) -> (r: Vec<String>)
        ensures
            r@.len() == zone_candidates_of(domain@).len(),
            forall|k: int| 0 <= k < r@.len() ==> #[trigger] r@[k]@ == zone_candidates_of(domain@)[k],
    {
        let cs = chars_of(domain);
        let n = cs.len();
        let mut dots: Vec<usize> = Vec::new();
        let mut i: usize = 0;
        while i < n
            invariant
                n == cs@.len(),
                cs@ == domain@,
                i <= n,
                dots@.len() == dot_positions(cs@.subrange(0, i as int)).len(),
                forall|k: int|
                    0 <= k < dots@.len() ==> #[trigger] dots@[k] as int == dot_positions(
                        cs@.subrange(0, i as int),
                    )[k],
                forall|k: int| 0 <= k < dots@.len() ==> #[trigger] dots@[k] < i,
            decreases n - i,
        {
            proof {
                let t = cs@.subrange(0, i + 1);
                assert(t.drop_last() =~= cs@.subrange(0, i as int));
                assert(t.last() == cs@[i as int]);
            }
            if cs[i] == '.' {
                dots.push(i);
            }
            i = i + 1;
        }
        assert(cs@.subrange(0, n as int) =~= cs@);
        let ghost spec_dots = dot_positions(domain@);
        let mut r: Vec<String> = Vec::new();
        let mut k: usize = 0;
        while k < dots.len()
            invariant
                n == cs@.len(),
                cs@ == domain@,
                spec_dots == dot_positions(domain@),
                dots@.len() == spec_dots.len(),
                forall|j: int| 0 <= j < dots@.len() ==> #[trigger] dots@[j] as int == spec_dots[j],
                forall|j: int| 0 <= j < dots@.len() ==> #[trigger] dots@[j] < n,
                k <= dots@.len(),
                r@.len() == k,
                forall|j: int| 0 <= j < k ==> #[trigger] r@[j]@ == zone_candidates_of(domain@)[j],
            decreases dots@.len() - k,
        {
            let start = if k == 0 {
                0
            } else {
                dots[k - 1] + 1
            };
            let s = string_from_chars(cs.as_slice(), start, n);
            r.push(s);
            k = k + 1;
        }
        r
    }

    /// The API address of the DNS records of a zone.
    pub fn records_url(zone_id: &str) -> (u: String)
        ensures
            u@ == records_url_of(zone_id@),
    {
        let u = concat_str("https://api.cloudflare.com/client/v4/zones/", zone_id);
        u.concat("/dns_records")
    }

    /// The API address of one DNS record of a zone.
    pub fn record_url(zone_id: &str, record_id: &str) -> (u: String)
        ensures
            u@ == records_url_of(zone_id@) + "/"@ + record_id@,
    {
        let u = Self::records_url(zone_id);
        let u = u.concat("/");
        u.concat(record_id)
    }
}

/// The domain a challenge record is for: its name with every leading
/// `_acme-challenge.` removed.
pub fn challenge_domain(name: &str) -> (d: String)
    ensures
        d@ == trim_leading(name@, challenge_prefix()),
{
    let cs = chars_of(name);
    let prefix = chars_of("_acme-challenge.");
    proof {
        reveal_strlit("_acme-challenge.");
    }
    let p = prefix.len();
    let n = cs.len();
    let mut from: usize = 0;
    assert(cs@.subrange(0, n as int) =~= cs@);
    while starts_with_at(&cs, from, &prefix)
        invariant
            cs@ == name@,
            prefix@ == challenge_prefix(),
            p == prefix@.len(),
            p > 0,
            n == cs@.len(),
            from <= n,
            trim_leading(name@, challenge_prefix()) == trim_leading(
                cs@.subrange(from as int, n as int),
                challenge_prefix(),
            ),
        decreases n - from,
    {
        let ghost rest = cs@.subrange(from as int, n as int);
        assert(rest.subrange(p as int, rest.len() as int) =~= cs@.subrange(from + p, n as int));
        from = from + p;
    }
    string_from_chars(cs.as_slice(), from, n)
}

/// A record id split at its first `/` into the zone and the record.
pub open spec fn split_at_first_slash(s: Seq<char>) -> Option<(Seq<char>, Seq<char>)> {
    match first_index_of(s, '/') {
        Some(i) => Some((s.subrange(0, i), s.subrange(i + 1, s.len() as int))),
        None => None,
    }
}

/// A record id of the form `<zone_id>/<record_id>`, split at its first `/`.
pub fn split_record_id(record_id: &str) -> (r: Option<(String, String)>)
    ensures
        match r {
            Some((z, i)) => split_at_first_slash(record_id@) == Some((z@, i@)),
            None => split_at_first_slash(record_id@) is None,
        },
{
    let cs = chars_of(record_id);
    let n = cs.len();
    match find_char(&cs, '/') {
        Some(i) => {
            let zone = string_from_chars(cs.as_slice(), 0, i);
            let rest = string_from_chars(cs.as_slice(), i + 1, n);
            Some((zone, rest))
        },
        None => None,
    }
}

/// One error a Cloudflare answer reports.
pub struct CloudflareApiError {
    pub message: String,
}

/// An answer of the Cloudflare API.
pub struct CloudflareResponse<T> {
    pub success: bool,
    pub result: Option<T>,
    pub errors: Vec<CloudflareApiError>,
}

/// Messages joined with `, `.
pub open spec fn joined(messages: Seq<Seq<char>>) -> Seq<char>
    decreases messages.len(),
{
    if messages.len() == 0 {
        Seq::empty()
    } else if messages.len() == 1 {
        messages[0]
    } else {
        joined(messages.drop_last()) + ", "@ + messages.last()
    }
}

/// The messages of reported errors.
pub open spec fn messages_of(errors: Seq<CloudflareApiError>) -> Seq<Seq<char>> {
    errors.map_values(|e: CloudflareApiError| e.message@)
}

impl<T> CloudflareResponse<T> {
    /// The messages of the errors the answer reports, joined with `, `.
    pub fn error_messages(&self) -> (m: String)
        ensures
            m@ == joined(messages_of(self.errors@)),
    {
        let mut m = String::new();
        let mut i: usize = 0;
        while i < self.errors.len()
            invariant
                i <= self.errors@.len(),
                m@ == joined(messages_of(self.errors@.subrange(0, i as int))),
            decreases self.errors@.len() - i,
        {
            proof {
                let t = messages_of(self.errors@.subrange(0, i + 1));
                assert(t.drop_last() =~= messages_of(self.errors@.subrange(0, i as int)));
                assert(t.last() == self.errors@[i as int].message@);
                reveal_strlit(", ");
            }
            if i > 0 {
                m.append(", ");
            }
            m.append(self.errors[i].message.as_str());
            i = i + 1;
        }
        assert(self.errors@.subrange(0, self.errors@.len() as int) =~= self.errors@);
        m
    }
}

/// Why a Cloudflare operation failed.
pub enum CloudflareError {
    /// The API answered without success; the joined error messages.
    Api(String),
    /// No candidate zone of the domain is an active zone.
    NoZone(String),
    /// The API created a record but returned none.
    EmptyResult,
    /// A record id without a `/`.
    InvalidRecordId,
}

impl CloudflareError {
    /// The message of the error.
    pub fn message(&self) -> (m: String)
        ensures
            m@ == (match self {
                CloudflareError::Api(msgs) => "Cloudflare API error: "@ + msgs@,
                CloudflareError::NoZone(d) => "No active Cloudflare zone found for domain: "@ + d@,
                CloudflareError::EmptyResult => "Empty result in create TXT record response"@,
                CloudflareError::InvalidRecordId => "Invalid record_id format, expected '<zone_id>/<record_id>'"@,
            }),
    {
        match self {
            CloudflareError::Api(msgs) => concat_str("Cloudflare API error: ", msgs.as_str()),
            CloudflareError::NoZone(d) => concat_str(
                "No active Cloudflare zone found for domain: ",
                d.as_str(),
            ),
            CloudflareError::EmptyResult => String::from_str("Empty result in create TXT record response"),
            CloudflareError::InvalidRecordId => String::from_str(
                "Invalid record_id format, expected '<zone_id>/<record_id>'",
            ),
        }
    }
}

/// A zone of a zone lookup.
pub struct ZoneResult {
    pub id: String,
}

/// A record the API created.
pub struct DnsRecord {
    pub id: String,
}

/// What one answer of a zone lookup means.
pub enum ZoneStep {
    /// The candidate is a zone: its id.
    Found(String),
    /// The candidate is no zone: try the next one.
    Next,
}

/// Reads the answer to the lookup of one candidate zone: an error when the
/// API reports one, the first zone when there is one, else the next
/// candidate.
pub fn zone_step(response: &CloudflareResponse<Vec<ZoneResult>>) -> (r: Result<ZoneStep, CloudflareError>)
    ensures
        !response.success ==> (r matches Err(CloudflareError::Api(m)) && m@ == joined(
            messages_of(response.errors@),
        )),
        response.success ==> match response.result {
            Some(zones) => if zones@.len() > 0 {
                (r matches Ok(ZoneStep::Found(id)) && id == zones@[0].id)
            } else {
                (r matches Ok(ZoneStep::Next))
            },
            None => (r matches Ok(ZoneStep::Next)),
        },
{
    if !response.success {
        return Err(CloudflareError::Api(response.error_messages()));
    }
    match &response.result {
        Some(zones) => {
            if zones.len() > 0 {
                Ok(ZoneStep::Found(zones[0].id.clone()))
            } else {
                Ok(ZoneStep::Next)
            }
        },
        None => Ok(ZoneStep::Next),
    }
}

/// Reads the answer to the creation of a TXT record in the zone `zone_id`:
/// the record id written as `<zone_id>/<record_id>` (the form the deletion
/// splits), an error the API reports, or an empty result.
pub fn created_record_id(zone_id: &str, response: &CloudflareResponse<DnsRecord>) -> (r: Result<
    String,
    CloudflareError,
>)
    ensures
        !response.success ==> (r matches Err(CloudflareError::Api(m)) && m@ == joined(
            messages_of(response.errors@),
        )),
        response.success ==> match response.result {
            Some(rec) => (r matches Ok(id) && id@ == zone_id@ + "/"@ + rec.id@),
            None => (r matches Err(CloudflareError::EmptyResult)),
        },
{
    if !response.success {
        return Err(CloudflareError::Api(response.error_messages()));
    }
    match &response.result {
        Some(rec) => {
            let with_slash = concat_str(zone_id, "/");
            Ok(with_slash.concat(rec.id.as_str()))
        },
        None => Err(CloudflareError::EmptyResult),
    }
}

/// Reads the answer to the deletion of a record: done, or the error the API
/// reports.
pub fn check_deleted<T>(response: &CloudflareResponse<T>) -> (r: Result<(), CloudflareError>)
    ensures
        response.success ==> r is Ok,
        !response.success ==> (r matches Err(CloudflareError::Api(m)) && m@ == joined(
            messages_of(response.errors@),
        )),
{
    if !response.success {
        return Err(CloudflareError::Api(response.error_messages()));
    }
    Ok(())
}

/// The body that creates a TXT record.
pub struct CreateRecordRequest {
    pub type_: String,
    pub name: String,
    pub content: String,
    pub ttl: u32,
}

/// The TXT record that publishes `value` under `name`, for one minute.
pub fn txt_record(name: &str, value: &str) -> (r: CreateRecordRequest)
    ensures
        r.type_@ == "TXT"@,
        r.name@ == name@,
        r.content@ == value@,
        r.ttl == 60,
{
    CreateRecordRequest {
        type_: String::from_str("TXT"),
        name: String::from_str(name),
        content: String::from_str(value),
        ttl: 60,
    }
}

/// The record published for a domain's challenge names that domain back:
/// removing the challenge prefix from `_acme-challenge.<domain>` gives the
/// domain, unless the domain itself starts with that prefix.
pub proof fn lemma_challenge_name_round_trip(domain: Seq<char>)
    requires
        !has_prefix(domain, challenge_prefix()),
    ensures
        trim_leading(challenge_prefix() + domain, challenge_prefix()) == domain,
{
    reveal_strlit("_acme-challenge.");
    let p = challenge_prefix();
    let name = p + domain;
    assert(name.subrange(0, p.len() as int) =~= p);
    assert(name.subrange(p.len() as int, name.len() as int) =~= domain);
    assert(trim_leading(domain, p) == domain);
    assert(trim_leading(name, p) == trim_leading(domain, p));
}

/// A record id written as `<zone>/<record>` splits back into the zone and
/// the record, provided the zone holds no `/`.
pub proof fn lemma_record_id_round_trip(zone: Seq<char>, record: Seq<char>)
    requires
        forall|i: int| 0 <= i < zone.len() ==> zone[i] != '/',
    ensures
        split_at_first_slash(zone + "/"@ + record) == Some((zone, record)),
{
    reveal_strlit("/");
    let s = zone + "/"@ + record;
    assert forall|j: int| 0 <= j < zone.len() implies s[j] != '/' by {
        assert(s[j] == zone[j]);
    }
    assert(s[zone.len() as int] == '/');
    lemma_first_index_of(s, '/', zone.len() as int);
    assert(s.subrange(0, zone.len() as int) =~= zone);
    assert(s.subrange(zone.len() as int + 1, s.len() as int) =~= record);
}

} // verus!
