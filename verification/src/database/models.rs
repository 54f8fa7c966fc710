//! The rows of the database as plain values, and the partial-update rules
//! that the REST API applies to them.
use vstd::prelude::*;

verus! {

/// A point in time, as seconds and nanoseconds since the Unix epoch (UTC).
#[derive(Clone, Copy, PartialEq, Eq, Structural, Debug)]
pub struct Timestamp {
    pub secs: i64,
    pub nanos: u32,
}

/// A copy of an optional string whose contents equal the original's.
pub fn copy_opt_string(s: &Option<String>) -> (r: Option<String>)
    ensures
        r == *s,
{
    match s {
        Some(v) => Some(v.clone()),
        None => None,
    }
}

/// A copy of a list of optional strings whose contents equal the original's.
pub fn copy_opt_strings(v: &Vec<Option<String>>) -> (r: Vec<Option<String>>)
    ensures
        r@ == v@,
{
    let mut r: Vec<Option<String>> = Vec::new();
    let mut i: usize = 0;
    while i < v.len()
        invariant
            i <= v@.len(),
            r@ == v@.subrange(0, i as int),
        decreases v@.len() - i,
    {
        r.push(copy_opt_string(&v[i]));
        i = i + 1;
        assert(r@ =~= v@.subrange(0, i as int));
    }
    assert(r@ =~= v@);
    r
}

/// A stored access list.
#[derive(Debug)]
pub struct AccessListModel {
    pub id: i32,
    pub name: String,
    pub created_at: Timestamp,
}

impl AccessListModel {
    /// A copy equal to this row.
    pub fn duplicate(&self) -> (r: Self)
        ensures
            r == *self,
    {
        AccessListModel { id: self.id, name: self.name.clone(), created_at: self.created_at }
    }

    /// This row after a rename; a missing name leaves it as it is.
    pub open spec fn updated(self, update: UpdateAccessListModel) -> Self {
        AccessListModel {
            name: match update.name {
                Some(n) => n,
                None => self.name,
            },
            ..self
        }
    }
}

/// A new access list.
#[derive(Debug)]
pub struct NewAccessListModel {
    pub name: String,
}

/// A change to an access list; `None` keeps the field.
#[derive(Debug)]
pub struct UpdateAccessListModel {
    pub name: Option<String>,
}

/// A stored rule of an access list.
#[derive(Debug)]
pub struct AccessListRuleModel {
    pub id: i32,
    pub access_list_id: i32,
    pub action: String,
    pub address: String,
    pub sort_order: i32,
    pub created_at: Timestamp,
}

impl AccessListRuleModel {
    /// A copy equal to this row.
    pub fn duplicate(&self) -> (r: Self)
        ensures
            r == *self,
    {
        AccessListRuleModel {
            id: self.id,
            access_list_id: self.access_list_id,
            action: self.action.clone(),
            address: self.address.clone(),
            sort_order: self.sort_order,
            created_at: self.created_at,
        }
    }
}

/// A new rule of an access list.
#[derive(Debug)]
pub struct NewAccessListRuleModel {
    pub access_list_id: i32,
    pub action: String,
    pub address: String,
    pub sort_order: i32,
}

/// A stored certificate.
#[derive(Debug)]
pub struct CertificateModel {
    pub id: i32,
    pub name: String,
    pub type_: String,
    pub certificate: String,
    pub private_key: String,
    pub dns_provider: Option<String>,
    pub expires_at: Option<Timestamp>,
    pub created_at: Timestamp,
}

/// A new certificate.
#[derive(Debug)]
pub struct NewCertificateModel {
    pub type_: String,
    pub name: String,
    pub certificate: String,
    pub private_key: String,
    pub expires_at: Option<Timestamp>,
    pub dns_provider: Option<String>,
}

/// A stored proxy host.
#[derive(Debug)]
pub struct ProxyHostModel {
    pub id: i32,
    pub domain: String,
    pub certificate_name: Option<String>,
    pub access_list_id: Option<i32>,
    pub created_at: Timestamp,
}

impl ProxyHostModel {
    /// A copy equal to this row.
    pub fn duplicate(&self) -> (r: Self)
        ensures
            r == *self,
    {
        ProxyHostModel {
            id: self.id,
            domain: self.domain.clone(),
            certificate_name: copy_opt_string(&self.certificate_name),
            access_list_id: self.access_list_id,
            created_at: self.created_at,
        }
    }

    /// This row after `update`: each field the update holds replaces the
    /// stored one (for the certificate and the access list, `Some(None)`
    /// clears it); each field it leaves out stays.
    pub open spec fn updated(self, update: UpdateProxyHostModel) -> Self {
        ProxyHostModel {
            domain: match update.domain {
                Some(d) => d,
                None => self.domain,
            },
            certificate_name: match update.certificate_name {
                Some(c) => c,
                None => self.certificate_name,
            },
            access_list_id: match update.access_list_id {
                Some(a) => a,
                None => self.access_list_id,
            },
            ..self
        }
    }

    /// Applies `update` to this row.  When the update holds no field at all
    /// there is nothing to write: `None`, and the stored row stays as it is.
    pub fn apply_update(&self, update: &UpdateProxyHostModel) -> (r: Option<Self>)
        ensures
            r is None <==> !update.has_changes(),
            r matches Some(row) ==> row == self.updated(*update),
            r matches Some(row) ==> row.id == self.id && row.created_at == self.created_at,
            r matches Some(row) ==> (update.domain matches Some(d) ==> row.domain == d),
            r matches Some(row) ==> (update.domain is None ==> row.domain == self.domain),
            r matches Some(row) ==> (update.certificate_name matches Some(c) ==> row.certificate_name == c),
            r matches Some(row) ==> (update.certificate_name is None ==> row.certificate_name
                == self.certificate_name),
            r matches Some(row) ==> (update.access_list_id matches Some(a) ==> row.access_list_id == a),
            r matches Some(row) ==> (update.access_list_id is None ==> row.access_list_id
                == self.access_list_id),
    {
        if !update.has_changes_exec() {
            return None;
        }
        let domain = match &update.domain {
            Some(d) => d.clone(),
            None => self.domain.clone(),
        };
        let certificate_name = match &update.certificate_name {
            Some(c) => copy_opt_string(c),
            None => copy_opt_string(&self.certificate_name),
        };
        let access_list_id = match update.access_list_id {
            Some(a) => a,
            None => self.access_list_id,
        };
        Some(ProxyHostModel { id: self.id, domain, certificate_name, access_list_id, created_at: self.created_at })
    }
}

/// A new proxy host.
#[derive(Debug)]
pub struct NewProxyHostModel {
    pub domain: String,
    pub certificate_name: Option<String>,
    pub access_list_id: Option<i32>,
}

/// A change to a proxy host: `None` keeps a field; for the certificate and
/// the access list `Some(None)` clears it.
#[derive(Debug)]
pub struct UpdateProxyHostModel {
    pub domain: Option<String>,
    pub certificate_name: Option<Option<String>>,
    pub access_list_id: Option<Option<i32>>,
}

impl UpdateProxyHostModel {
    /// The update names at least one field.
    pub open spec fn has_changes(self) -> bool {
        self.domain is Some || self.certificate_name is Some || self.access_list_id is Some
    }

    /// Whether the update names at least one field.
    pub fn has_changes_exec(&self) -> (b: bool)
        ensures
            b == self.has_changes(),
    {
        self.domain.is_some() || self.certificate_name.is_some() || self.access_list_id.is_some()
    }
}

/// A change to a proxy host and, when `upstream_ids` is present, the new
/// set of upstreams it forwards to.
#[derive(Debug)]
pub struct UpdateProxyHost {
    pub model: UpdateProxyHostModel,
    pub upstream_ids: Option<Vec<i32>>,
}

/// A link between a proxy host and one of its upstreams.
#[derive(Debug, Clone, Copy, PartialEq, Eq, Structural)]
pub struct ProxyHostUpstreamModel {
    pub proxy_host_id: i32,
    pub upstream_id: i32,
}

/// A stored upstream.
#[derive(Debug)]
pub struct UpstreamModel {
    pub id: i32,
    pub name: String,
    pub schema: String,
    pub host: String,
    pub port: i32,
    pub created_at: Timestamp,
}

impl UpstreamModel {
    /// A copy equal to this row.
    pub fn duplicate(&self) -> (r: Self)
        ensures
            r == *self,
    {
        UpstreamModel {
            id: self.id,
            name: self.name.clone(),
            schema: self.schema.clone(),
            host: self.host.clone(),
            port: self.port,
            created_at: self.created_at,
        }
    }

    /// This row after `update`: each field the update holds replaces the
    /// stored one, each field it leaves out stays.
    pub open spec fn updated(self, update: UpdateUpstreamModel) -> Self {
        UpstreamModel {
            name: match update.name {
                Some(v) => v,
                None => self.name,
            },
            schema: match update.schema {
                Some(v) => v,
                None => self.schema,
            },
            host: match update.host {
                Some(v) => v,
                None => self.host,
            },
            port: match update.port {
                Some(v) => v,
                None => self.port,
            },
            ..self
        }
    }

    /// Applies `update` to this row; `None` when the update holds no field,
    /// so that nothing is written and the stored row stays as it is.
    pub fn apply_update(&self, update: &UpdateUpstreamModel) -> (r: Option<Self>)
        ensures
            r is None <==> !update.has_changes(),
            r matches Some(row) ==> row == self.updated(*update),
            r matches Some(row) ==> row.id == self.id && row.created_at == self.created_at,
            r matches Some(row) ==> (update.name matches Some(v) ==> row.name == v),
            r matches Some(row) ==> (update.name is None ==> row.name == self.name),
            r matches Some(row) ==> (update.schema matches Some(v) ==> row.schema == v),
            r matches Some(row) ==> (update.schema is None ==> row.schema == self.schema),
            r matches Some(row) ==> (update.host matches Some(v) ==> row.host == v),
            r matches Some(row) ==> (update.host is None ==> row.host == self.host),
            r matches Some(row) ==> (update.port matches Some(v) ==> row.port == v),
            r matches Some(row) ==> (update.port is None ==> row.port == self.port),
    {
        if !(update.name.is_some() || update.schema.is_some() || update.host.is_some()
            || update.port.is_some()) {
            return None;
        }
        let name = match &update.name {
            Some(v) => v.clone(),
            None => self.name.clone(),
        };
        let schema = match &update.schema {
            Some(v) => v.clone(),
            None => self.schema.clone(),
        };
        let host = match &update.host {
            Some(v) => v.clone(),
            None => self.host.clone(),
        };
        let port = match update.port {
            Some(v) => v,
            None => self.port,
        };
        Some(UpstreamModel { id: self.id, name, schema, host, port, created_at: self.created_at })
    }
}

/// A new upstream.
#[derive(Debug)]
pub struct NewUpstreamModel {
    pub name: String,
    pub schema: String,
    pub host: String,
    pub port: i32,
}

/// A change to an upstream; `None` keeps the field.
#[derive(Debug)]
pub struct UpdateUpstreamModel {
    pub name: Option<String>,
    pub schema: Option<String>,
    pub host: Option<String>,
    pub port: Option<i32>,
}

impl UpdateUpstreamModel {
    /// The update names at least one field.
    pub open spec fn has_changes(self) -> bool {
        self.name is Some || self.schema is Some || self.host is Some || self.port is Some
    }
}

/// A stored user.
#[derive(Debug)]
pub struct UserModel {
    pub id: i32,
    pub username: String,
    pub password: String,
    pub role: String,
    pub scopes: Vec<Option<String>>,
    pub created_at: Timestamp,
}

impl UserModel {
    /// This row after `update`: each field the update holds replaces the
    /// stored one, each field it leaves out stays.
    pub open spec fn updated_fields(
        self,
        update: UpdateUserModel,
    ) -> (Seq<char>, Seq<char>, Seq<Option<String>>) {
        (
            match update.password {
                Some(v) => v@,
                None => self.password@,
            },
            match update.role {
                Some(v) => v@,
                None => self.role@,
            },
            match update.scopes {
                Some(v) => v@,
                None => self.scopes@,
            },
        )
    }

    /// Applies `update` to this row; `None` when the update holds no field,
    /// so that nothing is written and the stored row stays as it is.
    pub fn apply_update(&self, update: &UpdateUserModel) -> (r: Option<Self>)
        ensures
            r is None <==> !update.has_changes(),
            r matches Some(row) ==> (row.password@, row.role@, row.scopes@) == self.updated_fields(
                *update,
            ) && row.id == self.id && row.username == self.username && row.created_at
                == self.created_at,
            r matches Some(row) ==> (update.password matches Some(h) ==> row.password == h),
            r matches Some(row) ==> (update.password is None ==> row.password == self.password),
            r matches Some(row) ==> (update.role matches Some(v) ==> row.role == v),
            r matches Some(row) ==> (update.role is None ==> row.role == self.role),
            r matches Some(row) ==> (update.scopes matches Some(v) ==> row.scopes@ == v@),
            r matches Some(row) ==> (update.scopes is None ==> row.scopes@ == self.scopes@),
    {
        if !(update.password.is_some() || update.role.is_some() || update.scopes.is_some()) {
            return None;
        }
        let password = match &update.password {
            Some(v) => v.clone(),
            None => self.password.clone(),
        };
        let role = match &update.role {
            Some(v) => v.clone(),
            None => self.role.clone(),
        };
        let scopes = match &update.scopes {
            Some(v) => copy_opt_strings(v),
            None => copy_opt_strings(&self.scopes),
        };
        Some(
            UserModel {
                id: self.id,
                username: self.username.clone(),
                password,
                role,
                scopes,
                created_at: self.created_at,
            },
        )
    }
}

/// A new user.
#[derive(Debug)]
pub struct NewUserModel {
    pub username: String,
    pub password: String,
    pub role: String,
    pub scopes: Vec<Option<String>>,
}

/// A change to a user; `None` keeps the field.
#[derive(Debug)]
pub struct UpdateUserModel {
    pub password: Option<String>,
    pub role: Option<String>,
    pub scopes: Option<Vec<Option<String>>>,
}

impl UpdateUserModel {
    /// The update names at least one field.
    pub open spec fn has_changes(self) -> bool {
        self.password is Some || self.role is Some || self.scopes is Some
    }
}

// ---------------------------------------------------------------------------
// Laws of partial updates
// ---------------------------------------------------------------------------

/// Applying the same change to a proxy host twice gives the row that one
/// application gives.
pub proof fn lemma_proxy_host_update_idempotent(row: ProxyHostModel, update: UpdateProxyHostModel)
    ensures
        row.updated(update).updated(update) == row.updated(update),
{
}

/// A change to a proxy host leaves the fields it does not name as they were,
/// and never touches the id or the creation time.
pub proof fn lemma_proxy_host_update_keeps_absent(row: ProxyHostModel, update: UpdateProxyHostModel)
    ensures
        row.updated(update).id == row.id,
        row.updated(update).created_at == row.created_at,
        update.domain is None ==> row.updated(update).domain == row.domain,
        update.certificate_name is None ==> row.updated(update).certificate_name
            == row.certificate_name,
        update.access_list_id is None ==> row.updated(update).access_list_id == row.access_list_id,
{
}

/// A change to a proxy host takes effect: every field it names replaces the
/// stored one (`Some(None)` clears the certificate or the access list).
pub proof fn lemma_proxy_host_update_applies_named(row: ProxyHostModel, update: UpdateProxyHostModel)
    ensures
        update.domain matches Some(d) ==> row.updated(update).domain == d,
        update.certificate_name matches Some(c) ==> row.updated(update).certificate_name == c,
        update.access_list_id matches Some(a) ==> row.updated(update).access_list_id == a,
{
}

/// A change to an upstream takes effect: every field it names replaces the
/// stored one.
pub proof fn lemma_upstream_update_applies_named(row: UpstreamModel, update: UpdateUpstreamModel)
    ensures
        update.name matches Some(v) ==> row.updated(update).name == v,
        update.schema matches Some(v) ==> row.updated(update).schema == v,
        update.host matches Some(v) ==> row.updated(update).host == v,
        update.port matches Some(v) ==> row.updated(update).port == v,
{
}

/// A change to a user takes effect: the password hash, the role and the
/// scopes it names replace the stored ones; the others stay.
pub proof fn lemma_user_update_applies_named(row: UserModel, update: UpdateUserModel)
    ensures
        update.password matches Some(h) ==> row.updated_fields(update).0 == h@,
        update.role matches Some(v) ==> row.updated_fields(update).1 == v@,
        update.scopes matches Some(v) ==> row.updated_fields(update).2 == v@,
        update.password is None ==> row.updated_fields(update).0 == row.password@,
        update.role is None ==> row.updated_fields(update).1 == row.role@,
        update.scopes is None ==> row.updated_fields(update).2 == row.scopes@,
{
}

/// Applying the same change to an upstream twice gives the row that one
/// application gives, and the fields the change leaves out stay.
pub proof fn lemma_upstream_update_idempotent(row: UpstreamModel, update: UpdateUpstreamModel)
    ensures
        row.updated(update).updated(update) == row.updated(update),
        row.updated(update).id == row.id,
        update.name is None ==> row.updated(update).name == row.name,
        update.schema is None ==> row.updated(update).schema == row.schema,
        update.host is None ==> row.updated(update).host == row.host,
        update.port is None ==> row.updated(update).port == row.port,
{
}

} // verus!
