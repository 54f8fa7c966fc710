//! The upstream endpoints: creating, changing and deleting the servers that
//! proxy hosts forward to.
use vstd::prelude::*;
use vstd::string::*;

use crate::api::endpoints::utils::{
    failures, host_pattern, is_forward_schema, length_within, pattern_matches, report, validate_forward_schema,
    Patterns, ValidationErrors,
};
use crate::api::status::{RepositoryErrorKind, Status};
use crate::database::models::{NewUpstreamModel, UpdateUpstreamModel};

verus! {

/// The body of a request that creates an upstream.
pub struct CreateUpstreamRequest {
    pub name: String,
    pub host: String,
    pub port: i32,
    pub schema: Option<String>,
}

/// A name of 1 to 255 characters.
pub open spec fn valid_name(name: Seq<char>) -> bool {
    length_within(name, 1, 255)
}

/// A host of 1 to 255 characters that matches the host pattern.
pub open spec fn valid_host(host: Seq<char>) -> bool {
    length_within(host, 1, 255) && pattern_matches(host_pattern(), host)
}

/// A TCP port.
pub open spec fn valid_port(port: i32) -> bool {
    1 <= port <= 65535
}

/// An absent schema, or `http` or `https`.
pub open spec fn valid_schema(schema: Option<String>) -> bool {
    match schema {
        Some(s) => is_forward_schema(s@),
        None => true,
    }
}

fn check_name(name: &String) -> (b: bool)
    ensures
        b == valid_name(name@),
{
    let n = name.as_str().unicode_len();
    1 <= n && n <= 255
}

fn check_host(host: &String, patterns: &Patterns) -> (b: bool)
    ensures
        b == valid_host(host@),
{
    let n = host.as_str().unicode_len();
    let m = patterns.is_host(host.as_str());
    1 <= n && n <= 255 && m
}

fn check_schema(schema: &Option<String>) -> (b: bool)
    ensures
        b == valid_schema(*schema),
{
    match schema {
        Some(s) => validate_forward_schema(s.as_str()).is_ok(),
        None => true,
    }
}

impl CreateUpstreamRequest {
    /// The checks of the request, field by field.
    pub open spec fn checks(self) -> Seq<(Seq<char>, bool)> {
        seq![
            ("name"@, valid_name(self.name@)),
            ("host"@, valid_host(self.host@)),
            ("port"@, valid_port(self.port)),
            ("schema"@, valid_schema(self.schema)),
        ]
    }

    /// A request the API accepts.
    pub open spec fn is_valid(self) -> bool {
        valid_name(self.name@) && valid_host(self.host@) && valid_port(self.port) && valid_schema(
            self.schema,
        )
    }

    /// Validates the request; the error lists the fields that fail.
    pub fn validate(&self, patterns: &Patterns) -> (r: Result<(), ValidationErrors>)
        ensures
            r is Ok <==> self.is_valid(),
            r matches Err(e) ==> e.names() == failures(self.checks()),
    {
        let passed = vec![
            check_name(&self.name),
            check_host(&self.host, patterns),
            1 <= self.port && self.port <= 65535,
            check_schema(&self.schema),
        ];
        let names = vec!["name", "host", "port", "schema"];
        proof {
            reveal_strlit("name");
            reveal_strlit("host");
            reveal_strlit("port");
            reveal_strlit("schema");
        }
        let r = report(names, passed, Ghost(self.checks()));
        assert(self.checks()[0].1 && self.checks()[1].1 && self.checks()[2].1 && self.checks()[3].1
            <==> self.is_valid());
        r
    }
}

/// The schema an upstream gets: the one asked for, else `http`.
pub open spec fn effective_schema(schema: Option<String>) -> Seq<char> {
    match schema {
        Some(s) => s@,
        None => "http"@,
    }
}

/// The row a valid request creates; an invalid request is answered 422.
pub fn create_model(body: CreateUpstreamRequest, patterns: &Patterns) -> (r: Result<
    NewUpstreamModel,
    Status,
>)
    ensures
        r is Err <==> !body.is_valid(),
        r matches Err(s) ==> s == Status::UnprocessableEntity,
        r matches Ok(m) ==> m.name == body.name && m.host == body.host && m.port == body.port
            && m.schema@ == effective_schema(body.schema),
{
    if body.validate(patterns).is_err() {
        return Err(Status::UnprocessableEntity);
    }
    let schema = match body.schema {
        Some(s) => s,
        None => String::from_str("http"),
    };
    if validate_forward_schema(schema.as_str()).is_err() {
        return Err(Status::UnprocessableEntity);
    }
    Ok(NewUpstreamModel { name: body.name, host: body.host, port: body.port, schema })
}

/// The status of a create: the stored row on success, 409 for a duplicate,
/// 500 otherwise.
pub fn create_status(result: Result<(), RepositoryErrorKind>) -> (s: Status)
    ensures
        s == (match result {
            Ok(()) => Status::Success,
            Err(RepositoryErrorKind::UniqueViolation) => Status::Conflict,
            Err(_) => Status::InternalServerError,
        }),
{
    match result {
        Ok(()) => Status::Success,
        Err(RepositoryErrorKind::UniqueViolation) => Status::Conflict,
        Err(_) => Status::InternalServerError,
    }
}

/// The body of a request that changes an upstream; a missing field stays.
pub struct UpdateUpstreamRequest {
    pub name: Option<String>,
    pub host: Option<String>,
    pub port: Option<i32>,
    pub schema: Option<String>,
}

impl UpdateUpstreamRequest {
    /// The checks of the request, field by field; an absent field passes.
    pub open spec fn checks(self) -> Seq<(Seq<char>, bool)> {
        seq![
            ("name"@, match self.name { Some(n) => valid_name(n@), None => true }),
            ("host"@, match self.host { Some(h) => valid_host(h@), None => true }),
            ("port"@, match self.port { Some(p) => valid_port(p), None => true }),
            ("schema"@, valid_schema(self.schema)),
        ]
    }

    /// A request the API accepts.
    pub open spec fn is_valid(self) -> bool {
        &&& (match self.name {
            Some(n) => valid_name(n@),
            None => true,
        })
        &&& (match self.host {
            Some(h) => valid_host(h@),
            None => true,
        })
        &&& (match self.port {
            Some(p) => valid_port(p),
            None => true,
        })
        &&& valid_schema(self.schema)
    }

    /// Validates the request; the error lists the fields that fail.
    pub fn validate(&self, patterns: &Patterns) -> (r: Result<(), ValidationErrors>)
        ensures
            r is Ok <==> self.is_valid(),
            r matches Err(e) ==> e.names() == failures(self.checks()),
    {
        let name_ok = match &self.name {
            Some(n) => check_name(n),
            None => true,
        };
        let host_ok = match &self.host {
            Some(h) => check_host(h, patterns),
            None => true,
        };
        let port_ok = match self.port {
            Some(p) => 1 <= p && p <= 65535,
            None => true,
        };
        let passed = vec![name_ok, host_ok, port_ok, check_schema(&self.schema)];
        let names = vec!["name", "host", "port", "schema"];
        proof {
            reveal_strlit("name");
            reveal_strlit("host");
            reveal_strlit("port");
            reveal_strlit("schema");
        }
        let r = report(names, passed, Ghost(self.checks()));
        assert(self.checks()[0].1 && self.checks()[1].1 && self.checks()[2].1 && self.checks()[3].1
            <==> self.is_valid());
        r
    }
}

/// The change a valid request makes; an invalid request is answered 422.
pub fn update_model(body: UpdateUpstreamRequest, patterns: &Patterns) -> (r: Result<
    UpdateUpstreamModel,
    Status,
>)
    ensures
        r is Err <==> !body.is_valid(),
        r matches Err(s) ==> s == Status::UnprocessableEntity,
        r matches Ok(m) ==> m.name == body.name && m.host == body.host && m.port == body.port
            && m.schema == body.schema,
{
    if body.validate(patterns).is_err() {
        return Err(Status::UnprocessableEntity);
    }
    if let Some(s) = &body.schema {
        if validate_forward_schema(s.as_str()).is_err() {
            return Err(Status::UnprocessableEntity);
        }
    }
    Ok(UpdateUpstreamModel { name: body.name, schema: body.schema, host: body.host, port: body.port })
}

/// The status of an update: the stored row on success, 409 for a duplicate,
/// 404 for an unknown upstream, 500 otherwise.
pub fn update_status(result: Result<(), RepositoryErrorKind>) -> (s: Status)
    ensures
        s == (match result {
            Ok(()) => Status::Success,
            Err(RepositoryErrorKind::UniqueViolation) => Status::Conflict,
            Err(RepositoryErrorKind::NotFound) => Status::NotFound,
            Err(_) => Status::InternalServerError,
        }),
{
    match result {
        Ok(()) => Status::Success,
        Err(RepositoryErrorKind::UniqueViolation) => Status::Conflict,
        Err(RepositoryErrorKind::NotFound) => Status::NotFound,
        Err(_) => Status::InternalServerError,
    }
}

/// The status of a delete: 204 on success, 404 for an unknown upstream, 409
/// when a proxy host still forwards to it, 500 otherwise.
pub fn delete_status(result: Result<(), RepositoryErrorKind>) -> (s: Status)
    ensures
        s == (match result {
            Ok(()) => Status::NoContent,
            Err(RepositoryErrorKind::NotFound) => Status::NotFound,
            Err(RepositoryErrorKind::ForeignKeyViolation) => Status::Conflict,
            Err(_) => Status::InternalServerError,
        }),
{
    match result {
        Ok(()) => Status::NoContent,
        Err(RepositoryErrorKind::NotFound) => Status::NotFound,
        Err(RepositoryErrorKind::ForeignKeyViolation) => Status::Conflict,
        Err(_) => Status::InternalServerError,
    }
}

} // verus!
