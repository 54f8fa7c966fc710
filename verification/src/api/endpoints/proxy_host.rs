//! The proxy-host endpoints: the domains the proxy serves and where it
//! forwards them.
use vstd::prelude::*;
use vstd::string::*;

use crate::api::endpoints::utils::{
    domain_pattern, failures, length_within, pattern_matches, report, Patterns, ValidationErrors,
};
use crate::api::status::{RepositoryErrorKind, Status};
use crate::database::models::{
    AccessListModel, AccessListRuleModel, NewProxyHostModel, ProxyHostModel,
    UpdateProxyHost, UpdateProxyHostModel, UpstreamModel,
};
use crate::database::repos::HostRecord;

verus! {

/// A domain of 1 to 255 characters that matches the domain pattern.
pub open spec fn valid_domain(domain: Seq<char>) -> bool {
    length_within(domain, 1, 255) && pattern_matches(domain_pattern(), domain)
}

/// Whether `domain` is a domain the API accepts.
pub fn check_domain(domain: &String, patterns: &Patterns) -> (b: bool)
    ensures
        b == valid_domain(domain@),
{
    let n = domain.as_str().unicode_len();
    let m = patterns.is_domain(domain.as_str());
    1 <= n && n <= 255 && m
}

/// The body of a request that creates a proxy host.
pub struct CreateProxyHostRequest {
    pub domain: String,
    pub certificate_name: Option<String>,
    pub access_list_id: Option<i32>,
    pub upstream_ids: Vec<i32>,
}

impl CreateProxyHostRequest {
    /// The checks of the request, field by field.
    pub open spec fn checks(self) -> Seq<(Seq<char>, bool)> {
        seq![("domain"@, valid_domain(self.domain@))]
    }

    /// A request whose fields pass their checks.
    pub open spec fn is_valid(self) -> bool {
        valid_domain(self.domain@)
    }

    /// Validates the request; the error lists the fields that fail.
    pub fn validate(&self, patterns: &Patterns) -> (r: Result<(), ValidationErrors>)
        ensures
            r is Ok <==> self.is_valid(),
            r matches Err(e) ==> e.names() == failures(self.checks()),
    {
        let passed = vec![check_domain(&self.domain, patterns)];
        let names = vec!["domain"];
        proof {
            reveal_strlit("domain");
        }
        let r = report(names, passed, Ghost(self.checks()));
        assert(self.checks()[0].1 <==> self.is_valid());
        r
    }
}

/// The row a valid request creates and the upstreams it links; a request
/// that fails validation or names no upstream is answered 422.
pub fn create_model(body: CreateProxyHostRequest, patterns: &Patterns) -> (r: Result<
    (NewProxyHostModel, Vec<i32>),
    Status,
>)
    ensures
        r is Err <==> !body.is_valid() || body.upstream_ids@.len() == 0,
        r matches Err(s) ==> s == Status::UnprocessableEntity,
        r matches Ok((m, ids)) ==> m.domain == body.domain && m.certificate_name
            == body.certificate_name && m.access_list_id == body.access_list_id && ids@
            == body.upstream_ids@,
{
    if body.validate(patterns).is_err() || body.upstream_ids.len() == 0 {
        return Err(Status::UnprocessableEntity);
    }
    Ok(
        (
            NewProxyHostModel {
                domain: body.domain,
                certificate_name: body.certificate_name,
                access_list_id: body.access_list_id,
            },
            body.upstream_ids,
        ),
    )
}

/// The status of a create: 201 when the host is stored and serving, 409 for
/// a duplicate domain, 400 for an unknown upstream, certificate or access
/// list, 500 otherwise.
pub fn create_status(result: Result<(), RepositoryErrorKind>) -> (s: Status)
    ensures
        s == (match result {
            Ok(()) => Status::Created,
            Err(RepositoryErrorKind::UniqueViolation) => Status::Conflict,
            Err(RepositoryErrorKind::ForeignKeyViolation) => Status::BadRequest,
            Err(_) => Status::InternalServerError,
        }),
{
    match result {
        Ok(()) => Status::Created,
        Err(RepositoryErrorKind::UniqueViolation) => Status::Conflict,
        Err(RepositoryErrorKind::ForeignKeyViolation) => Status::BadRequest,
        Err(_) => Status::InternalServerError,
    }
}

/// The body of a request that changes a proxy host.  A missing field stays;
/// for the certificate and the access list an explicit `null` clears it.
pub struct UpdateProxyHostRequest {
    pub domain: Option<String>,
    pub certificate_name: Option<Option<String>>,
    pub access_list_id: Option<Option<i32>>,
    pub upstream_ids: Option<Vec<i32>>,
}

impl UpdateProxyHostRequest {
    /// The checks of the request, field by field; an absent field passes.
    pub open spec fn checks(self) -> Seq<(Seq<char>, bool)> {
        seq![("domain"@, match self.domain { Some(d) => valid_domain(d@), None => true })]
    }

    /// A request whose fields pass their checks.
    pub open spec fn is_valid(self) -> bool {
        match self.domain {
            Some(d) => valid_domain(d@),
            None => true,
        }
    }

    /// Validates the request; the error lists the fields that fail.
    pub fn validate(&self, patterns: &Patterns) -> (r: Result<(), ValidationErrors>)
        ensures
            r is Ok <==> self.is_valid(),
            r matches Err(e) ==> e.names() == failures(self.checks()),
    {
        let domain_ok = match &self.domain {
            Some(d) => check_domain(d, patterns),
            None => true,
        };
        let passed = vec![domain_ok];
        let names = vec!["domain"];
        proof {
            reveal_strlit("domain");
        }
        let r = report(names, passed, Ghost(self.checks()));
        assert(self.checks()[0].1 <==> self.is_valid());
        r
    }
}

impl From<UpdateProxyHostRequest> for UpdateProxyHost {
    fn from(value: UpdateProxyHostRequest) -> (r: Self) {
        UpdateProxyHost {
            model: UpdateProxyHostModel {
                domain: value.domain,
                certificate_name: value.certificate_name,
                access_list_id: value.access_list_id,
            },
            upstream_ids: value.upstream_ids,
        }
    }
}

impl vstd::std_specs::convert::FromSpecImpl<UpdateProxyHostRequest> for UpdateProxyHost {
    open spec fn obeys_from_spec() -> bool {
        true
    }

    open spec fn from_spec(value: UpdateProxyHostRequest) -> Self {
        UpdateProxyHost {
            model: UpdateProxyHostModel {
                domain: value.domain,
                certificate_name: value.certificate_name,
                access_list_id: value.access_list_id,
            },
            upstream_ids: value.upstream_ids,
        }
    }
}

/// The change a request asks for, field for field.
pub open spec fn change_of(value: UpdateProxyHostRequest) -> UpdateProxyHost {
    UpdateProxyHost {
        model: UpdateProxyHostModel {
            domain: value.domain,
            certificate_name: value.certificate_name,
            access_list_id: value.access_list_id,
        },
        upstream_ids: value.upstream_ids,
    }
}

/// An explicit, empty list of upstreams.
pub open spec fn empties_upstreams(ids: Option<Vec<i32>>) -> bool {
    match ids {
        Some(v) => v@.len() == 0,
        None => false,
    }
}

/// The change a valid request makes; a request that fails validation or
/// asks for an empty set of upstreams is answered 422.
pub fn update_change(body: UpdateProxyHostRequest, patterns: &Patterns) -> (r: Result<
    UpdateProxyHost,
    Status,
>)
    ensures
        r is Err <==> !body.is_valid() || empties_upstreams(body.upstream_ids),
        r matches Err(s) ==> s == Status::UnprocessableEntity,
        r matches Ok(u) ==> u == change_of(body),
{
    if body.validate(patterns).is_err() {
        return Err(Status::UnprocessableEntity);
    }
    if let Some(ids) = &body.upstream_ids {
        if ids.len() == 0 {
            return Err(Status::UnprocessableEntity);
        }
    }
    Ok(UpdateProxyHost::from(body))
}

/// The status of an update: 200 when the host is stored and serving, 409
/// for a duplicate domain, 400 for an unknown upstream, certificate or access
/// list, 404 for an unknown host, 500 otherwise.
pub fn update_status(result: Result<(), RepositoryErrorKind>) -> (s: Status)
    ensures
        s == (match result {
            Ok(()) => Status::Success,
            Err(RepositoryErrorKind::UniqueViolation) => Status::Conflict,
            Err(RepositoryErrorKind::ForeignKeyViolation) => Status::BadRequest,
            Err(RepositoryErrorKind::NotFound) => Status::NotFound,
            Err(_) => Status::InternalServerError,
        }),
{
    match result {
        Ok(()) => Status::Success,
        Err(RepositoryErrorKind::UniqueViolation) => Status::Conflict,
        Err(RepositoryErrorKind::ForeignKeyViolation) => Status::BadRequest,
        Err(RepositoryErrorKind::NotFound) => Status::NotFound,
        Err(_) => Status::InternalServerError,
    }
}

/// The status of a delete (the lookup of the host, then its removal): 204
/// on success, 404 for an unknown host, 500 otherwise.
pub fn delete_status(result: Result<(), RepositoryErrorKind>) -> (s: Status)
    ensures
        s == (match result {
            Ok(()) => Status::NoContent,
            Err(RepositoryErrorKind::NotFound) => Status::NotFound,
            Err(_) => Status::InternalServerError,
        }),
{
    match result {
        Ok(()) => Status::NoContent,
        Err(RepositoryErrorKind::NotFound) => Status::NotFound,
        Err(_) => Status::InternalServerError,
    }
}

/// A proxy host as a listing shows it: the host, its upstreams, and the
/// name of its access list.
pub struct ProxyHostResponse {
    pub host: ProxyHostModel,
    pub upstreams: Vec<UpstreamModel>,
    pub access_list: Option<String>,
}

/// The name of the access list of a host record, if it has one.
pub open spec fn list_name(a: Option<(AccessListModel, Vec<AccessListRuleModel>)>) -> Option<String> {
    match a {
        Some((l, _)) => Some(l.name),
        None => None,
    }
}

fn copy_upstreams(v: &Vec<UpstreamModel>) -> (r: Vec<UpstreamModel>)
    ensures
        r@ == v@,
{
    let mut r: Vec<UpstreamModel> = Vec::new();
    let mut i: usize = 0;
    while i < v.len()
        invariant
            i <= v@.len(),
            r@ == v@.subrange(0, i as int),
        decreases v@.len() - i,
    {
        r.push(v[i].duplicate());
        i = i + 1;
        assert(r@ =~= v@.subrange(0, i as int));
    }
    assert(r@ =~= v@);
    r
}

/// The listing entries of a page of host records, in order.
pub fn responses(records: &Vec<HostRecord>) -> (r: Vec<ProxyHostResponse>)
    ensures
        r@.len() == records@.len(),
        forall|i: int|
            0 <= i < records@.len() ==> {
                &&& (#[trigger] r@[i]).host == records@[i].0
                &&& r@[i].upstreams@ == records@[i].1@
                &&& r@[i].access_list == list_name(records@[i].2)
            },
{
    let mut r: Vec<ProxyHostResponse> = Vec::new();
    let mut i: usize = 0;
    while i < records.len()
        invariant
            i <= records@.len(),
            r@.len() == i,
            forall|k: int|
                0 <= k < i ==> {
                    &&& (#[trigger] r@[k]).host == records@[k].0
                    &&& r@[k].upstreams@ == records@[k].1@
                    &&& r@[k].access_list == list_name(records@[k].2)
                },
        decreases records@.len() - i,
    {
        let rec = &records[i];
        let access_list = match &rec.2 {
            Some((l, _)) => Some(l.name.clone()),
            None => None,
        };
        r.push(
            ProxyHostResponse {
                host: rec.0.duplicate(),
                upstreams: copy_upstreams(&rec.1),
                access_list,
            },
        );
        i = i + 1;
    }
    r
}

} // verus!
