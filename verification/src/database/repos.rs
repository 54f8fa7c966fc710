//! What the repositories compute around their queries: the rows they insert
//! and how they put the rows they read together.  The queries themselves run
//! in the application; these functions receive and return plain rows.
use vstd::prelude::*;

use crate::database::models::{
    AccessListModel, AccessListRuleModel, NewAccessListRuleModel, ProxyHostModel,
    ProxyHostUpstreamModel, UpstreamModel,
};

verus! {

/// The elements of `s` that satisfy `p`, in order.
pub open spec fn keep_where<A>(s: Seq<A>, p: spec_fn(A) -> bool) -> Seq<A>
    decreases s.len(),
{
    if s.len() == 0 {
        Seq::empty()
    } else {
        let rest = keep_where(s.drop_last(), p);
        if p(s.last()) {
            rest.push(s.last())
        } else {
            rest
        }
    }
}

/// Unfolding `keep_where` one element further.
pub proof fn lemma_keep_where_step<A>(s: Seq<A>, p: spec_fn(A) -> bool, i: int)
    requires
        0 <= i < s.len(),
    ensures
        keep_where(s.subrange(0, i + 1), p) == (if p(s[i]) {
            keep_where(s.subrange(0, i), p).push(s[i])
        } else {
            keep_where(s.subrange(0, i), p)
        }),
{
    let t = s.subrange(0, i + 1);
    assert(t.drop_last() =~= s.subrange(0, i));
    assert(t.last() == s[i]);
}

/// An element is kept exactly when it occurs in `s` and satisfies `p`.
pub proof fn lemma_keep_where_contains<A>(s: Seq<A>, p: spec_fn(A) -> bool, x: A)
    ensures
        keep_where(s, p).contains(x) <==> (s.contains(x) && p(x)),
    decreases s.len(),
{
    if s.len() > 0 {
        let rest = s.drop_last();
        lemma_keep_where_contains(rest, p, x);
        if s.contains(x) && p(x) {
            let k = choose|k: int| 0 <= k < s.len() && s[k] == x;
            if k < s.len() - 1 {
                assert(rest[k] == x);
                assert(rest.contains(x));
                let kr = keep_where(rest, p);
                let j = choose|j: int| 0 <= j < kr.len() && kr[j] == x;
                if p(s.last()) {
                    assert(kr.push(s.last())[j] == x);
                }
            } else {
                assert(s.last() == x);
                let kr = keep_where(rest, p);
                assert(kr.push(s.last())[kr.len() as int] == x);
            }
        }
        if keep_where(s, p).contains(x) {
            let kr = keep_where(rest, p);
            let j = choose|j: int| 0 <= j < keep_where(s, p).len() && keep_where(s, p)[j] == x;
            if p(s.last()) && j == kr.len() {
                assert(s[s.len() - 1] == x);
            } else {
                assert(kr[j] == x);
                assert(kr.contains(x));
                let k = choose|k: int| 0 <= k < rest.len() && rest[k] == x;
                assert(s[k] == x);
            }
        }
    }
}

// ---------------------------------------------------------------------------
// Access lists
// ---------------------------------------------------------------------------

/// The access lists repository: the rule rows it inserts and the grouping of
/// the rules it reads.
pub struct AccessListsRepository;

/// `rule` attached to the access list `list_id`, all else kept.
pub open spec fn stamped(rule: NewAccessListRuleModel, list_id: i32) -> NewAccessListRuleModel {
    NewAccessListRuleModel { access_list_id: list_id, ..rule }
}

/// No later list in `lists` has the id of list `i`: a rule of that id is
/// grouped under list `i`.
pub open spec fn is_last_with_its_id(lists: Seq<AccessListModel>, i: int) -> bool {
    forall|j: int| i < j < lists.len() ==> #[trigger] lists[j].id != lists[i].id
}

/// The rules that go to list `i` when `rules` are grouped by `lists`: the
/// rules that name its id, in order, provided no later list has the same id.
pub open spec fn group_of(
    lists: Seq<AccessListModel>,
    rules: Seq<AccessListRuleModel>,
    i: int,
) -> Seq<AccessListRuleModel> {
    if is_last_with_its_id(lists, i) {
        keep_where(rules, |r: AccessListRuleModel| r.access_list_id == lists[i].id)
    } else {
        Seq::empty()
    }
}

impl AccessListsRepository {
    /// The rules of a new access list, each attached to the list's id.
    pub fn stamp_rules(rules: &Vec<NewAccessListRuleModel>, list_id: i32) -> (r: Vec<
        NewAccessListRuleModel,
    >)
        ensures
            r@.len() == rules@.len(),
            forall|i: int| 0 <= i < rules@.len() ==> #[trigger] r@[i] == stamped(rules@[i], list_id),
    {
        let mut r: Vec<NewAccessListRuleModel> = Vec::new();
        let mut i: usize = 0;
        while i < rules.len()
            invariant
                i <= rules@.len(),
                r@.len() == i,
                forall|k: int| 0 <= k < i ==> #[trigger] r@[k] == stamped(rules@[k], list_id),
            decreases rules@.len() - i,
        {
            let rule = &rules[i];
            r.push(
                NewAccessListRuleModel {
                    access_list_id: list_id,
                    action: rule.action.clone(),
                    address: rule.address.clone(),
                    sort_order: rule.sort_order,
                },
            );
            i = i + 1;
        }
        r
    }

    /// Whether no list after position `i` has the id of list `i`.
    fn last_with_its_id(lists: &Vec<AccessListModel>, i: usize) -> (b: bool)
        requires
            i < lists@.len(),
        ensures
            b == is_last_with_its_id(lists@, i as int),
    {
        let id = lists[i].id;
        let n = lists.len();
        let mut j: usize = i + 1;
        while j < n
            invariant
                n == lists@.len(),
                i < j <= lists@.len(),
                id == lists@[i as int].id,
                forall|k: int| i < k < j ==> #[trigger] lists@[k].id != id,
            decreases lists@.len() - j,
        {
            if lists[j].id == id {
                return false;
            }
            j = j + 1;
        }
        true
    }

    /// The rules that name access list `list_id`, in order.
    pub fn rules_of(rules: &Vec<AccessListRuleModel>, list_id: i32) -> (r: Vec<AccessListRuleModel>)
        ensures
            r@ == keep_where(rules@, |x: AccessListRuleModel| x.access_list_id == list_id),
    {
        let ghost p = |x: AccessListRuleModel| x.access_list_id == list_id;
        let mut r: Vec<AccessListRuleModel> = Vec::new();
        let mut i: usize = 0;
        while i < rules.len()
            invariant
                i <= rules@.len(),
                p == (|x: AccessListRuleModel| x.access_list_id == list_id),
                r@ == keep_where(rules@.subrange(0, i as int), p),
            decreases rules@.len() - i,
        {
            proof {
                lemma_keep_where_step(rules@, p, i as int);
            }
            if rules[i].access_list_id == list_id {
                r.push(rules[i].duplicate());
            }
            i = i + 1;
        }
        assert(rules@.subrange(0, rules@.len() as int) =~= rules@);
        r
    }

    /// Puts a page of access lists together with their rules: each list,
    /// in order, with the rules that name it, in the order they were read.
    /// A rule that names no list of the page is left out; where two lists
    /// share an id, the later one receives the rules.
    pub fn group_rules(lists: &Vec<AccessListModel>, rules: &Vec<AccessListRuleModel>) -> (r: Vec<
        (AccessListModel, Vec<AccessListRuleModel>),
    >)
        ensures
            r@.len() == lists@.len(),
            forall|i: int|
                0 <= i < lists@.len() ==> (#[trigger] r@[i]).0 == lists@[i] && r@[i].1@ == group_of(
                    lists@,
                    rules@,
                    i,
                ),
    {
        let mut r: Vec<(AccessListModel, Vec<AccessListRuleModel>)> = Vec::new();
        let mut i: usize = 0;
        while i < lists.len()
            invariant
                i <= lists@.len(),
                r@.len() == i,
                forall|k: int|
                    0 <= k < i ==> (#[trigger] r@[k]).0 == lists@[k] && r@[k].1@ == group_of(
                        lists@,
                        rules@,
                        k,
                    ),
            decreases lists@.len() - i,
        {
            let group = if Self::last_with_its_id(lists, i) {
                Self::rules_of(rules, lists[i].id)
            } else {
                Vec::new()
            };
            r.push((lists[i].duplicate(), group));
            i = i + 1;
        }
        r
    }
}

/// Grouping gives every rule to one list at most: with distinct list ids, a
/// rule that names list `i` is in the group of list `i` and in no other
/// group, and a rule that names no list is in no group.
pub proof fn lemma_rules_grouped_once(
    lists: Seq<AccessListModel>,
    rules: Seq<AccessListRuleModel>,
    rule: AccessListRuleModel,
    i: int,
)
    requires
        forall|a: int, b: int| 0 <= a < b < lists.len() ==> lists[a].id != lists[b].id,
        rules.contains(rule),
        0 <= i < lists.len(),
    ensures
        group_of(lists, rules, i).contains(rule) <==> rule.access_list_id == lists[i].id,
{
    assert(is_last_with_its_id(lists, i));
    lemma_keep_where_contains(rules, |r: AccessListRuleModel| r.access_list_id == lists[i].id, rule);
}

// ---------------------------------------------------------------------------
// Proxy hosts
// ---------------------------------------------------------------------------

/// The proxy hosts repository: the link rows it writes.
pub struct ProxyHostsRepository;

/// The link rows that attach host `host_id` to each upstream of `ids`.
pub open spec fn links_for(host_id: i32, ids: Seq<i32>) -> Seq<ProxyHostUpstreamModel> {
    ids.map_values(|u: i32| ProxyHostUpstreamModel { proxy_host_id: host_id, upstream_id: u })
}

impl ProxyHostsRepository {
    /// The link rows that attach host `host_id` to the upstreams `ids`, one
    /// per id, in order.
    pub fn upstream_links(host_id: i32, ids: &Vec<i32>) -> (r: Vec<ProxyHostUpstreamModel>)
        ensures
            r@ == links_for(host_id, ids@),
    {
        let mut r: Vec<ProxyHostUpstreamModel> = Vec::new();
        let mut i: usize = 0;
        while i < ids.len()
            invariant
                i <= ids@.len(),
                r@ == links_for(host_id, ids@.subrange(0, i as int)),
            decreases ids@.len() - i,
        {
            r.push(ProxyHostUpstreamModel { proxy_host_id: host_id, upstream_id: ids[i] });
            i = i + 1;
            assert(r@ =~= links_for(host_id, ids@.subrange(0, i as int)));
        }
        assert(ids@.subrange(0, ids@.len() as int) =~= ids@);
        r
    }
}

/// The proxy host / upstream repository: how a page of hosts is put together
/// with their upstreams and access lists.
pub struct ProxyHostUpstreamsRepository;

/// The ids of `hosts`, in order.
pub open spec fn ids_of(hosts: Seq<ProxyHostModel>) -> Seq<i32> {
    hosts.map_values(|h: ProxyHostModel| h.id)
}

/// The access lists `hosts` name, in order, skipping hosts without one.
pub open spec fn access_list_ids_of(hosts: Seq<ProxyHostModel>) -> Seq<i32>
    decreases hosts.len(),
{
    if hosts.len() == 0 {
        Seq::empty()
    } else {
        let rest = access_list_ids_of(hosts.drop_last());
        match hosts.last().access_list_id {
            Some(a) => rest.push(a),
            None => rest,
        }
    }
}

/// A link row of host `host_id`.
pub open spec fn links_host(host_id: i32) -> spec_fn((i32, UpstreamModel)) -> bool {
    |q: (i32, UpstreamModel)| q.0 == host_id
}

/// The upstream of a link row.
pub open spec fn linked_upstream() -> spec_fn((i32, UpstreamModel)) -> UpstreamModel {
    |q: (i32, UpstreamModel)| q.1
}

/// The upstreams linked to host `host_id`, in the order of the link rows.
pub open spec fn upstreams_for(pairs: Seq<(i32, UpstreamModel)>, host_id: i32) -> Seq<UpstreamModel> {
    keep_where(pairs, links_host(host_id)).map_values(linked_upstream())
}

/// The first list of `lists` with id `id`.
pub open spec fn first_list_with_id(lists: Seq<AccessListModel>, id: i32) -> Option<AccessListModel>
    decreases lists.len(),
{
    if lists.len() == 0 {
        None
    } else if lists[0].id == id {
        Some(lists[0])
    } else {
        first_list_with_id(lists.drop_first(), id)
    }
}

/// The access list of `host` with its rules: none when the host names none
/// or the list it names was not read.
pub open spec fn access_list_for(
    host: ProxyHostModel,
    lists: Seq<AccessListModel>,
    rules: Seq<AccessListRuleModel>,
) -> Option<(AccessListModel, Seq<AccessListRuleModel>)> {
    match host.access_list_id {
        None => None,
        Some(a) => match first_list_with_id(lists, a) {
            None => None,
            Some(l) => Some((l, keep_where(rules, |r: AccessListRuleModel| r.access_list_id == a))),
        },
    }
}

/// An access list with its rules, rules seen as a sequence.
pub open spec fn list_view(o: Option<(AccessListModel, Vec<AccessListRuleModel>)>) -> Option<
    (AccessListModel, Seq<AccessListRuleModel>),
> {
    match o {
        Some((l, r)) => Some((l, r@)),
        None => None,
    }
}

/// A proxy host with its upstreams and its access list.
pub type HostRecord = (ProxyHostModel, Vec<UpstreamModel>, Option<(AccessListModel, Vec<AccessListRuleModel>)>);

impl ProxyHostUpstreamsRepository {
    /// The ids of a page of hosts, to read their links with.
    pub fn host_ids(hosts: &Vec<ProxyHostModel>) -> (r: Vec<i32>)
        ensures
            r@ == ids_of(hosts@),
    {
        let mut r: Vec<i32> = Vec::new();
        let mut i: usize = 0;
        while i < hosts.len()
            invariant
                i <= hosts@.len(),
                r@ == ids_of(hosts@.subrange(0, i as int)),
            decreases hosts@.len() - i,
        {
            r.push(hosts[i].id);
            i = i + 1;
            assert(r@ =~= ids_of(hosts@.subrange(0, i as int)));
        }
        assert(hosts@.subrange(0, hosts@.len() as int) =~= hosts@);
        r
    }

    /// The access lists a page of hosts names, to read them with.
    pub fn access_list_ids(hosts: &Vec<ProxyHostModel>) -> (r: Vec<i32>)
        ensures
            r@ == access_list_ids_of(hosts@),
    {
        let mut r: Vec<i32> = Vec::new();
        let mut i: usize = 0;
        while i < hosts.len()
            invariant
                i <= hosts@.len(),
                r@ == access_list_ids_of(hosts@.subrange(0, i as int)),
            decreases hosts@.len() - i,
        {
            proof {
                let t = hosts@.subrange(0, i + 1);
                assert(t.drop_last() =~= hosts@.subrange(0, i as int));
                assert(t.last() == hosts@[i as int]);
            }
            match hosts[i].access_list_id {
                Some(a) => r.push(a),
                None => {},
            }
            i = i + 1;
        }
        assert(hosts@.subrange(0, hosts@.len() as int) =~= hosts@);
        r
    }

    /// The upstreams linked to host `host_id`, in the order of `pairs`.
    pub fn upstreams_of(pairs: &Vec<(i32, UpstreamModel)>, host_id: i32) -> (r: Vec<UpstreamModel>)
        ensures
            r@ == upstreams_for(pairs@, host_id),
    {
        let ghost p = links_host(host_id);
        let mut r: Vec<UpstreamModel> = Vec::new();
        let mut i: usize = 0;
        while i < pairs.len()
            invariant
                i <= pairs@.len(),
                p == links_host(host_id),
                r@ == keep_where(pairs@.subrange(0, i as int), p).map_values(linked_upstream()),
            decreases pairs@.len() - i,
        {
            proof {
                lemma_keep_where_step(pairs@, p, i as int);
            }
            if pairs[i].0 == host_id {
                r.push(pairs[i].1.duplicate());
                assert(r@ =~= keep_where(pairs@.subrange(0, i + 1), p).map_values(linked_upstream()));
            }
            i = i + 1;
        }
        assert(pairs@.subrange(0, pairs@.len() as int) =~= pairs@);
        r
    }

    /// The first list with id `id`, if one was read.
    pub fn find_list(lists: &Vec<AccessListModel>, id: i32) -> (r: Option<AccessListModel>)
        ensures
            r == first_list_with_id(lists@, id),
    {
        let mut i: usize = 0;
        assert(lists@.subrange(0, lists@.len() as int) =~= lists@);
        while i < lists.len()
            invariant
                i <= lists@.len(),
                first_list_with_id(lists@, id) == first_list_with_id(lists@.subrange(i as int, lists@.len() as int), id),
            decreases lists@.len() - i,
        {
            let ghost rest = lists@.subrange(i as int, lists@.len() as int);
            assert(rest[0] == lists@[i as int]);
            if lists[i].id == id {
                return Some(lists[i].duplicate());
            }
            assert(rest.drop_first() =~= lists@.subrange(i + 1, lists@.len() as int));
            i = i + 1;
        }
        None
    }

    /// Puts a page of hosts together: each host, in order, with the upstreams
    /// its link rows name, in the order of `pairs`, and with its access list
    /// and that list's rules, when it names a list that was read.
    pub fn assemble(
        hosts: &Vec<ProxyHostModel>,
        pairs: &Vec<(i32, UpstreamModel)>,
        lists: &Vec<AccessListModel>,
        rules: &Vec<AccessListRuleModel>,
    ) -> (r: Vec<HostRecord>)
        ensures
            r@.len() == hosts@.len(),
            forall|i: int|
                0 <= i < hosts@.len() ==> {
                    &&& (#[trigger] r@[i]).0 == hosts@[i]
                    &&& r@[i].1@ == upstreams_for(pairs@, hosts@[i].id)
                    &&& list_view(r@[i].2) == access_list_for(hosts@[i], lists@, rules@)
                },
    {
        let mut r: Vec<HostRecord> = Vec::new();
        let mut i: usize = 0;
        while i < hosts.len()
            invariant
                i <= hosts@.len(),
                r@.len() == i,
                forall|k: int|
                    0 <= k < i ==> {
                        &&& (#[trigger] r@[k]).0 == hosts@[k]
                        &&& r@[k].1@ == upstreams_for(pairs@, hosts@[k].id)
                        &&& list_view(r@[k].2) == access_list_for(hosts@[k], lists@, rules@)
                    },
            decreases hosts@.len() - i,
        {
            let host = &hosts[i];
            let upstreams = Self::upstreams_of(pairs, host.id);
            let access_list = match host.access_list_id {
                None => None,
                Some(a) => match Self::find_list(lists, a) {
                    None => None,
                    Some(l) => Some((l, AccessListsRepository::rules_of(rules, a))),
                },
            };
            r.push((host.duplicate(), upstreams, access_list));
            i = i + 1;
        }
        r
    }
}

/// A host keeps exactly its own links: an upstream is listed for a host
/// precisely when a link row pairs it with that host.
pub proof fn lemma_host_upstreams_are_its_links(
    pairs: Seq<(i32, UpstreamModel)>,
    host_id: i32,
    upstream: UpstreamModel,
)
    ensures
        upstreams_for(pairs, host_id).contains(upstream) <==> pairs.contains((host_id, upstream)),
{
    let p = links_host(host_id);
    let kept = keep_where(pairs, p);
    let ups = kept.map_values(linked_upstream());
    assert(ups == upstreams_for(pairs, host_id));
    lemma_keep_where_contains(pairs, p, (host_id, upstream));
    if ups.contains(upstream) {
        let j = choose|j: int| 0 <= j < ups.len() && ups[j] == upstream;
        assert(ups[j] == kept[j].1);
        lemma_keep_where_contains(pairs, p, kept[j]);
        assert(kept.contains(kept[j]));
        assert(kept[j] == (host_id, upstream));
    }
    if pairs.contains((host_id, upstream)) {
        assert(kept.contains((host_id, upstream)));
        let j = choose|j: int| 0 <= j < kept.len() && kept[j] == (host_id, upstream);
        assert(ups[j] == kept[j].1);
        assert(ups.contains(upstream));
    }
}

/// Keeping the elements that satisfy `p` is vstd's `filter`.
pub proof fn lemma_keep_where_is_filter<A>(s: Seq<A>, p: spec_fn(A) -> bool)
    ensures
        keep_where(s, p) == s.filter(p),
    decreases s.len(),
{
    reveal(Seq::filter);
    if s.len() > 0 {
        lemma_keep_where_is_filter(s.drop_last(), p);
    }
}

/// The first list with an id is a read list of that id, and there is one
/// exactly when some read list has that id.
proof fn lemma_first_list_with_id(lists: Seq<AccessListModel>, id: i32)
    ensures
        first_list_with_id(lists, id) is Some <==> exists|k: int|
            0 <= k < lists.len() && (#[trigger] lists[k]).id == id,
        first_list_with_id(lists, id) matches Some(l) ==> l.id == id && lists.contains(l),
    decreases lists.len(),
{
    if lists.len() > 0 {
        let rest = lists.drop_first();
        lemma_first_list_with_id(rest, id);
        if lists[0].id != id {
            if exists|k: int| 0 <= k < lists.len() && (#[trigger] lists[k]).id == id {
                let k = choose|k: int| 0 <= k < lists.len() && (#[trigger] lists[k]).id == id;
                assert(rest[k - 1] == lists[k]);
            }
            if exists|k: int| 0 <= k < rest.len() && (#[trigger] rest[k]).id == id {
                let k = choose|k: int| 0 <= k < rest.len() && (#[trigger] rest[k]).id == id;
                assert(lists[k + 1] == rest[k]);
            }
            if let Some(l) = first_list_with_id(rest, id) {
                let k = choose|k: int| 0 <= k < rest.len() && rest[k] == l;
                assert(lists[k + 1] == l);
            }
        } else {
            assert(lists[0] == lists[0]);
            assert(lists.contains(lists[0]));
        }
    }
}

/// A host carries an access list exactly when it names one and a read list
/// has that id; the list then is such a read list, and its rules are all
/// the read rules of that list, whatever their action, in the order they
/// were read, and no other rule.
pub proof fn lemma_assembled_access_list(
    host: ProxyHostModel,
    lists: Seq<AccessListModel>,
    rules: Seq<AccessListRuleModel>,
    rule: AccessListRuleModel,
)
    ensures
        access_list_for(host, lists, rules) is Some <==> (host.access_list_id matches Some(a) && exists|k: int|
            0 <= k < lists.len() && (#[trigger] lists[k]).id == a),
        access_list_for(host, lists, rules) matches Some((l, group)) ==> {
            &&& host.access_list_id == Some(l.id)
            &&& lists.contains(l)
            &&& group == rules.filter(|x: AccessListRuleModel| host.access_list_id == Some(x.access_list_id))
            &&& (group.contains(rule) <==> rules.contains(rule) && host.access_list_id == Some(
                rule.access_list_id,
            ))
        },
{
    if let Some(a) = host.access_list_id {
        lemma_first_list_with_id(lists, a);
        let p = |x: AccessListRuleModel| x.access_list_id == a;
        let q = |x: AccessListRuleModel| host.access_list_id == Some(x.access_list_id);
        assert(p =~= q);
        lemma_keep_where_is_filter(rules, p);
        lemma_keep_where_contains(rules, p, rule);
    }
}

/// A host's upstreams are the upstreams of its link rows, each row counted
/// once, in the order the rows were read.
pub proof fn lemma_host_upstreams_follow_its_links(pairs: Seq<(i32, UpstreamModel)>, host_id: i32)
    ensures
        upstreams_for(pairs, host_id) == pairs.filter(|q: (i32, UpstreamModel)| q.0 == host_id).map_values(
            |q: (i32, UpstreamModel)| q.1,
        ),
{
    let p = links_host(host_id);
    assert(p =~= |q: (i32, UpstreamModel)| q.0 == host_id);
    lemma_keep_where_is_filter(pairs, p);
    assert(linked_upstream() =~= |q: (i32, UpstreamModel)| q.1);
}

/// A list of a page, unless a later list shares its id, receives every read
/// rule that names it, whatever its action, in the order they were read,
/// and no other rule.
pub proof fn lemma_group_is_the_rules_of_its_list(
    lists: Seq<AccessListModel>,
    rules: Seq<AccessListRuleModel>,
    i: int,
)
    requires
        0 <= i < lists.len(),
        forall|j: int| i < j < lists.len() ==> #[trigger] lists[j].id != lists[i].id,
    ensures
        group_of(lists, rules, i) == rules.filter(|r: AccessListRuleModel| r.access_list_id == lists[i].id),
{
    let p = |r: AccessListRuleModel| r.access_list_id == lists[i].id;
    lemma_keep_where_is_filter(rules, p);
}

/// The certificates repository.
pub struct CertificatesRepository;

/// The upstreams repository.
pub struct UpstreamsRepository;

} // verus!
