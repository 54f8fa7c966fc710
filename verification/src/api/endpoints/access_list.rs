//! The access-list endpoints: lists of allow/deny rules on addresses.
use vstd::prelude::*;
use vstd::string::*;

use crate::api::endpoints::utils::{
    failures, is_access_list_action, is_rule_address, length_within, report, validate_access_list_action,
    validate_address, ValidationErrors,
};
use crate::api::status::{RepositoryErrorKind, Status};
use crate::database::models::{
    AccessListModel, AccessListRuleModel, NewAccessListModel, NewAccessListRuleModel,
    UpdateAccessListModel,
};

verus! {

/// Whether the address of rule `i` parses as a plain IP address, as the
/// caller found out: a missing entry counts as not.
pub open spec fn address_is_ip(ips: Seq<bool>, i: int) -> bool {
    0 <= i < ips.len() && ips[i]
}

fn address_is_ip_exec(ips: &Vec<bool>, i: usize) -> (b: bool)
    ensures
        b == address_is_ip(ips@, i as int),
{
    i < ips.len() && ips[i]
}

/// A name of 1 to 100 characters.
pub open spec fn valid_list_name(name: Seq<char>) -> bool {
    length_within(name, 1, 100)
}

fn check_list_name(name: &String) -> (b: bool)
    ensures
        b == valid_list_name(name@),
{
    let n = name.as_str().unicode_len();
    1 <= n && n <= 100
}

/// One rule of a new access list.
pub struct CreateAccessListRuleRequest {
    pub action: String,
    pub address: String,
}

impl CreateAccessListRuleRequest {
    /// The checks of the rule; `is_ip` says whether the address parses as a
    /// plain IP address.
    pub open spec fn checks(self, is_ip: bool) -> Seq<(Seq<char>, bool)> {
        seq![
            ("action"@, is_access_list_action(self.action@)),
            ("address"@, is_rule_address(self.address@, is_ip)),
        ]
    }

    /// A rule the API accepts.
    pub open spec fn is_valid(self, is_ip: bool) -> bool {
        is_access_list_action(self.action@) && is_rule_address(self.address@, is_ip)
    }

    /// Validates the rule; the error lists the fields that fail.
    pub fn validate(&self, is_ip: bool) -> (r: Result<(), ValidationErrors>)
        ensures
            r is Ok <==> self.is_valid(is_ip),
            r matches Err(e) ==> e.names() == failures(self.checks(is_ip)),
    {
        let passed = vec![
            validate_access_list_action(self.action.as_str()).is_ok(),
            validate_address(self.address.as_str(), is_ip).is_ok(),
        ];
        let names = vec!["action", "address"];
        proof {
            reveal_strlit("action");
            reveal_strlit("address");
        }
        let r = report(names, passed, Ghost(self.checks(is_ip)));
        assert(self.checks(is_ip)[0].1 && self.checks(is_ip)[1].1 <==> self.is_valid(is_ip));
        r
    }
}

/// The rules of a request: at least one, each valid.
pub open spec fn valid_rules(rules: Seq<CreateAccessListRuleRequest>, ips: Seq<bool>) -> bool {
    rules.len() >= 1 && forall|i: int|
        0 <= i < rules.len() ==> #[trigger] rules[i].is_valid(address_is_ip(ips, i))
}

fn check_rules(rules: &Vec<CreateAccessListRuleRequest>, ips: &Vec<bool>) -> (b: bool)
    ensures
        b == valid_rules(rules@, ips@),
{
    if rules.len() < 1 {
        return false;
    }
    let mut i: usize = 0;
    while i < rules.len()
        invariant
            i <= rules@.len(),
            forall|k: int| 0 <= k < i ==> #[trigger] rules@[k].is_valid(address_is_ip(ips@, k)),
        decreases rules@.len() - i,
    {
        if rules[i].validate(address_is_ip_exec(ips, i)).is_err() {
            assert(!rules@[i as int].is_valid(address_is_ip(ips@, i as int)));
            return false;
        }
        i = i + 1;
    }
    true
}

/// The body of a request that creates an access list.
pub struct CreateAccessListRequest {
    pub name: String,
    pub rules: Vec<CreateAccessListRuleRequest>,
}

/// The row a rule of a new list becomes: attached to no list yet (the
/// repository attaches it), ordered by its position.
pub open spec fn new_rule_row(rule: CreateAccessListRuleRequest, i: int) -> NewAccessListRuleModel {
    NewAccessListRuleModel {
        access_list_id: 0,
        action: rule.action,
        address: rule.address,
        sort_order: i as i32,
    }
}

impl CreateAccessListRequest {
    /// The checks of the request, field by field; `ips` says, rule by rule,
    /// whether the address parses as a plain IP address.
    pub open spec fn checks(self, ips: Seq<bool>) -> Seq<(Seq<char>, bool)> {
        seq![("name"@, valid_list_name(self.name@)), ("rules"@, valid_rules(self.rules@, ips))]
    }

    /// A request the API accepts.
    pub open spec fn is_valid(self, ips: Seq<bool>) -> bool {
        valid_list_name(self.name@) && valid_rules(self.rules@, ips)
    }

    /// Validates the request; the error lists the fields that fail.
    pub fn validate(&self, ips: &Vec<bool>) -> (r: Result<(), ValidationErrors>)
        ensures
            r is Ok <==> self.is_valid(ips@),
            r matches Err(e) ==> e.names() == failures(self.checks(ips@)),
    {
        let passed = vec![check_list_name(&self.name), check_rules(&self.rules, ips)];
        let names = vec!["name", "rules"];
        proof {
            reveal_strlit("name");
            reveal_strlit("rules");
        }
        let r = report(names, passed, Ghost(self.checks(ips@)));
        assert(self.checks(ips@)[0].1 && self.checks(ips@)[1].1 <==> self.is_valid(ips@));
        r
    }
}

/// The rows of rules, ordered by their position in the request.
fn rule_rows(rules: &Vec<CreateAccessListRuleRequest>) -> (r: Vec<NewAccessListRuleModel>)
    ensures
        r@.len() == rules@.len(),
        forall|i: int| 0 <= i < rules@.len() ==> #[trigger] r@[i] == new_rule_row(rules@[i], i),
{
    let mut r: Vec<NewAccessListRuleModel> = Vec::new();
    let mut i: usize = 0;
    while i < rules.len()
        invariant
            i <= rules@.len(),
            r@.len() == i,
            forall|k: int| 0 <= k < i ==> #[trigger] r@[k] == new_rule_row(rules@[k], k),
        decreases rules@.len() - i,
    {
        r.push(
            NewAccessListRuleModel {
                access_list_id: 0,
                action: rules[i].action.clone(),
                address: rules[i].address.clone(),
                sort_order: i as i32,
            },
        );
        i = i + 1;
    }
    r
}

/// The rows a valid request creates; an invalid request is answered 422.
pub fn create_models(body: &CreateAccessListRequest, ips: &Vec<bool>) -> (r: Result<
    (NewAccessListModel, Vec<NewAccessListRuleModel>),
    Status,
>)
    ensures
        r is Err <==> !body.is_valid(ips@),
        r matches Err(s) ==> s == Status::UnprocessableEntity,
        r matches Ok((list, rules)) ==> {
            &&& list.name == body.name
            &&& rules@.len() == body.rules@.len()
            &&& forall|i: int|
                0 <= i < rules@.len() ==> #[trigger] rules@[i] == new_rule_row(body.rules@[i], i)
        },
{
    if body.validate(ips).is_err() {
        return Err(Status::UnprocessableEntity);
    }
    Ok((NewAccessListModel { name: body.name.clone() }, rule_rows(&body.rules)))
}

/// The status of a create: the stored list on success, 409 for a duplicate
/// name, 500 otherwise.
pub fn create_status(result: Result<(), RepositoryErrorKind>) -> (s: Status)
    ensures
        s == (match result {
            Ok(()) => Status::Success,
            Err(RepositoryErrorKind::UniqueViolation) => Status::Conflict,
            Err(_) => Status::InternalServerError,
        }),
{
    match result {
        Ok(()) => Status::Success,
        Err(RepositoryErrorKind::UniqueViolation) => Status::Conflict,
        Err(_) => Status::InternalServerError,
    }
}

/// The status of a delete: 204 on success, 404 for an unknown list, 500
/// otherwise.
pub fn delete_status(result: Result<(), RepositoryErrorKind>) -> (s: Status)
    ensures
        s == (match result {
            Ok(()) => Status::NoContent,
            Err(RepositoryErrorKind::NotFound) => Status::NotFound,
            Err(_) => Status::InternalServerError,
        }),
{
    match result {
        Ok(()) => Status::NoContent,
        Err(RepositoryErrorKind::NotFound) => Status::NotFound,
        Err(_) => Status::InternalServerError,
    }
}

/// One rule of a changed access list.
pub struct UpdateAccessListRuleRequest {
    pub action: String,
    pub address: String,
}

impl UpdateAccessListRuleRequest {
    /// The checks of the rule; `is_ip` says whether the address parses as a
    /// plain IP address.
    pub open spec fn checks(self, is_ip: bool) -> Seq<(Seq<char>, bool)> {
        seq![
            ("action"@, is_access_list_action(self.action@)),
            ("address"@, is_rule_address(self.address@, is_ip)),
        ]
    }

    /// A rule the API accepts.
    pub open spec fn is_valid(self, is_ip: bool) -> bool {
        is_access_list_action(self.action@) && is_rule_address(self.address@, is_ip)
    }

    /// Validates the rule; the error lists the fields that fail.
    pub fn validate(&self, is_ip: bool) -> (r: Result<(), ValidationErrors>)
        ensures
            r is Ok <==> self.is_valid(is_ip),
            r matches Err(e) ==> e.names() == failures(self.checks(is_ip)),
    {
        let passed = vec![
            validate_access_list_action(self.action.as_str()).is_ok(),
            validate_address(self.address.as_str(), is_ip).is_ok(),
        ];
        let names = vec!["action", "address"];
        proof {
            reveal_strlit("action");
            reveal_strlit("address");
        }
        let r = report(names, passed, Ghost(self.checks(is_ip)));
        assert(self.checks(is_ip)[0].1 && self.checks(is_ip)[1].1 <==> self.is_valid(is_ip));
        r
    }
}

/// The new rules of a changed list: at least one, each valid.
pub open spec fn valid_new_rules(rules: Seq<UpdateAccessListRuleRequest>, ips: Seq<bool>) -> bool {
    rules.len() >= 1 && forall|i: int|
        0 <= i < rules.len() ==> #[trigger] rules[i].is_valid(address_is_ip(ips, i))
}

fn check_new_rules(rules: &Vec<UpdateAccessListRuleRequest>, ips: &Vec<bool>) -> (b: bool)
    ensures
        b == valid_new_rules(rules@, ips@),
{
    if rules.len() < 1 {
        return false;
    }
    let mut i: usize = 0;
    while i < rules.len()
        invariant
            i <= rules@.len(),
            forall|k: int| 0 <= k < i ==> #[trigger] rules@[k].is_valid(address_is_ip(ips@, k)),
        decreases rules@.len() - i,
    {
        if rules[i].validate(address_is_ip_exec(ips, i)).is_err() {
            assert(!rules@[i as int].is_valid(address_is_ip(ips@, i as int)));
            return false;
        }
        i = i + 1;
    }
    true
}

/// The body of a request that changes an access list: a new name, a new set
/// of rules, or both.
pub struct UpdateAccessListRequest {
    pub name: Option<String>,
    pub rules: Option<Vec<UpdateAccessListRuleRequest>>,
}

/// The row a rule of list `list_id` becomes, ordered by its position.
pub open spec fn replaced_rule_row(rule: UpdateAccessListRuleRequest, list_id: i32, i: int) -> NewAccessListRuleModel {
    NewAccessListRuleModel {
        access_list_id: list_id,
        action: rule.action,
        address: rule.address,
        sort_order: i as i32,
    }
}

impl UpdateAccessListRequest {
    /// The checks of the request, field by field; an absent field passes.
    pub open spec fn checks(self, ips: Seq<bool>) -> Seq<(Seq<char>, bool)> {
        seq![
            ("name"@, match self.name { Some(n) => valid_list_name(n@), None => true }),
            ("rules"@, match self.rules { Some(r) => valid_new_rules(r@, ips), None => true }),
        ]
    }

    /// A request the API accepts.
    pub open spec fn is_valid(self, ips: Seq<bool>) -> bool {
        &&& (match self.name {
            Some(n) => valid_list_name(n@),
            None => true,
        })
        &&& (match self.rules {
            Some(r) => valid_new_rules(r@, ips),
            None => true,
        })
    }

    /// Validates the request; the error lists the fields that fail.
    pub fn validate(&self, ips: &Vec<bool>) -> (r: Result<(), ValidationErrors>)
        ensures
            r is Ok <==> self.is_valid(ips@),
            r matches Err(e) ==> e.names() == failures(self.checks(ips@)),
    {
        let name_ok = match &self.name {
            Some(n) => check_list_name(n),
            None => true,
        };
        let rules_ok = match &self.rules {
            Some(r) => check_new_rules(r, ips),
            None => true,
        };
        let passed = vec![name_ok, rules_ok];
        let names = vec!["name", "rules"];
        proof {
            reveal_strlit("name");
            reveal_strlit("rules");
        }
        let r = report(names, passed, Ghost(self.checks(ips@)));
        assert(self.checks(ips@)[0].1 && self.checks(ips@)[1].1 <==> self.is_valid(ips@));
        r
    }
}

/// A rule list longer than the sort order can count: a position past
/// `i32::MAX` has no sort order.
pub open spec fn too_many_rules(rules: Option<Vec<UpdateAccessListRuleRequest>>) -> bool {
    match rules {
        Some(r) => r@.len() > i32::MAX + 1,
        None => false,
    }
}

/// The change a valid request makes to list `list_id`: the new name, if
/// any, and the rows that replace its rules, if any.  An invalid request,
/// or one with more rules than the sort order can number, is answered 422.
pub fn update_models(list_id: i32, body: &UpdateAccessListRequest, ips: &Vec<bool>) -> (r: Result<
    (Option<UpdateAccessListModel>, Option<Vec<NewAccessListRuleModel>>),
    Status,
>)
    ensures
        r is Err <==> !body.is_valid(ips@) || too_many_rules(body.rules),
        r matches Err(s) ==> s == Status::UnprocessableEntity,
        r matches Ok((model, rows)) ==> {
            &&& (match body.name {
                Some(n) => model == Some(UpdateAccessListModel { name: Some(n) }),
                None => model is None,
            })
            &&& (match body.rules {
                Some(rules) => rows matches Some(v) && v@.len() == rules@.len() && forall|i: int|
                    0 <= i < rules@.len() ==> #[trigger] v@[i] == replaced_rule_row(rules@[i], list_id, i),
                None => rows is None,
            })
        },
{
    if body.validate(ips).is_err() {
        return Err(Status::UnprocessableEntity);
    }
    let model = match &body.name {
        Some(n) => Some(UpdateAccessListModel { name: Some(n.clone()) }),
        None => None,
    };
    let rows = match &body.rules {
        None => None,
        Some(rules) => {
            let mut v: Vec<NewAccessListRuleModel> = Vec::new();
            let mut i: usize = 0;
            while i < rules.len()
                invariant
                    body.rules == Some(*rules),
                    i <= rules@.len(),
                    i <= i32::MAX + 1,
                    v@.len() == i,
                    forall|k: int|
                        0 <= k < i ==> #[trigger] v@[k] == replaced_rule_row(rules@[k], list_id, k),
                decreases rules@.len() - i,
            {
                if i > 2147483647usize {
                    assert(rules@.len() > i32::MAX + 1);
                    assert(too_many_rules(body.rules));
                    return Err(Status::UnprocessableEntity);
                }
                v.push(
                    NewAccessListRuleModel {
                        access_list_id: list_id,
                        action: rules[i].action.clone(),
                        address: rules[i].address.clone(),
                        sort_order: i as i32,
                    },
                );
                i = i + 1;
            }
            Some(v)
        },
    };
    Ok((model, rows))
}

/// The status of an update: 200 on success, 404 for an unknown list, 409 for
/// a duplicate name, 500 otherwise.
pub fn update_status(result: Result<(), RepositoryErrorKind>) -> (s: Status)
    ensures
        s == (match result {
            Ok(()) => Status::Success,
            Err(RepositoryErrorKind::NotFound) => Status::NotFound,
            Err(RepositoryErrorKind::UniqueViolation) => Status::Conflict,
            Err(_) => Status::InternalServerError,
        }),
{
    match result {
        Ok(()) => Status::Success,
        Err(RepositoryErrorKind::NotFound) => Status::NotFound,
        Err(RepositoryErrorKind::UniqueViolation) => Status::Conflict,
        Err(_) => Status::InternalServerError,
    }
}

/// An access list as a listing shows it: the list and its rules.
pub struct AccessListResponse {
    pub access_list: AccessListModel,
    pub rules: Vec<AccessListRuleModel>,
}

/// The listing entries of a page of lists grouped with their rules, in
/// order.
pub fn responses(groups: Vec<(AccessListModel, Vec<AccessListRuleModel>)>) -> (r: Vec<AccessListResponse>)
    ensures
        r@.len() == groups@.len(),
        forall|i: int|
            0 <= i < groups@.len() ==> (#[trigger] r@[i]).access_list == groups@[i].0 && r@[i].rules@
                == groups@[i].1@,
{
    let mut groups = groups;
    let ghost original = groups@;
    let mut r: Vec<AccessListResponse> = Vec::new();
    while groups.len() > 0
        invariant
            groups@.len() + r@.len() == original.len(),
            groups@ == original.subrange(0, groups@.len() as int),
            forall|i: int|
                0 <= i < r@.len() ==> (#[trigger] r@[i]).access_list == original[original.len() - 1 - i].0
                    && r@[i].rules@ == original[original.len() - 1 - i].1@,
        decreases groups@.len(),
    {
        let (access_list, rules) = groups.pop().unwrap();
        r.push(AccessListResponse { access_list, rules });
        assert(groups@ =~= original.subrange(0, groups@.len() as int));
    }
    let mut out: Vec<AccessListResponse> = Vec::new();
    let ghost reversed = r@;
    while r.len() > 0
        invariant
            r@.len() + out@.len() == original.len(),
            reversed.len() == original.len(),
            r@ == reversed.subrange(0, r@.len() as int),
            forall|i: int|
                0 <= i < reversed.len() ==> (#[trigger] reversed[i]).access_list == original[original.len() - 1
                    - i].0 && reversed[i].rules@ == original[original.len() - 1 - i].1@,
            forall|i: int|
                0 <= i < out@.len() ==> (#[trigger] out@[i]).access_list == original[i].0 && out@[i].rules@
                    == original[i].1@,
        decreases r@.len(),
    {
        let item = r.pop().unwrap();
        assert(item == reversed[r@.len() as int]);
        out.push(item);
        assert(r@ =~= reversed.subrange(0, r@.len() as int));
    }
    out
}

} // verus!
