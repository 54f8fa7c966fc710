//! What every endpoint shares: the list of fields that failed validation,
//! the field validators, the regular expressions of the API, and pagination.
use vstd::prelude::*;
use vstd::string::*;

use crate::outside::{compile_pattern, ip_net_parses, parses_as_ip_net, pattern_is_match, regex_compiles, regex_is_match, Pattern};
use crate::text::str_eq;

verus! {

// ---------------------------------------------------------------------------
// Validation results
// ---------------------------------------------------------------------------

/// The names of the fields that failed, in the order their checks are listed,
/// for a list of `(field, passed)` checks.
pub open spec fn failures(checks: Seq<(Seq<char>, bool)>) -> Seq<Seq<char>>
    decreases checks.len(),
{
    if checks.len() == 0 {
        Seq::empty()
    } else {
        let rest = failures(checks.drop_last());
        if checks.last().1 {
            rest
        } else {
            rest.push(checks.last().0)
        }
    }
}

/// No field fails exactly when every check passed.
pub proof fn lemma_failures_empty(checks: Seq<(Seq<char>, bool)>)
    ensures
        failures(checks).len() == 0 <==> forall|i: int| 0 <= i < checks.len() ==> #[trigger] checks[i].1,
    decreases checks.len(),
{
    if checks.len() > 0 {
        let rest = checks.drop_last();
        lemma_failures_empty(rest);
        assert forall|i: int| 0 <= i < rest.len() implies #[trigger] rest[i] == checks[i] by {}
        if failures(checks).len() == 0 {
            assert forall|i: int| 0 <= i < checks.len() implies #[trigger] checks[i].1 by {
                if i < rest.len() {
                    assert(rest[i] == checks[i]);
                }
            }
        }
        if forall|i: int| 0 <= i < checks.len() ==> #[trigger] checks[i].1 {
            assert(checks[checks.len() - 1].1);
            assert forall|i: int| 0 <= i < rest.len() implies #[trigger] rest[i].1 by {
                assert(rest[i] == checks[i]);
            }
        }
    }
}

/// The fields of a request that failed validation, in declaration order.
pub struct ValidationErrors {
    pub fields: Vec<String>,
}

impl ValidationErrors {
    /// The failed fields as character sequences.
    pub open spec fn names(&self) -> Seq<Seq<char>> {
        self.fields@.map_values(|f: String| f@)
    }

    /// No failures yet.
    pub fn new() -> (e: Self)
        ensures
            e.names() == Seq::<Seq<char>>::empty(),
    {
        let e = ValidationErrors { fields: Vec::new() };
        assert(e.names() =~= Seq::<Seq<char>>::empty());
        e
    }

    /// Records the outcome of the check of one field.
    pub fn record(&mut self, field: &str, passed: bool)
        ensures
            final(self).names() == (if passed {
                old(self).names()
            } else {
                old(self).names().push(field@)
            }),
    {
        if !passed {
            self.fields.push(String::from_str(field));
            assert(self.names() =~= old(self).names().push(field@));
        }
    }

    /// `Ok` when nothing failed, else these failures.
    pub fn into_result(self) -> (r: Result<(), ValidationErrors>)
        ensures
            r is Ok <==> self.names().len() == 0,
            r matches Err(e) ==> e.names() == self.names(),
    {
        if self.fields.len() == 0 {
            Ok(())
        } else {
            Err(self)
        }
    }
}

/// Runs the checks of a request in order and reports the failed fields.
pub(crate) fn report(names: Vec<&str>, passed: Vec<bool>, checks: Ghost<Seq<(Seq<char>, bool)>>) -> (r: Result<(), ValidationErrors>)
    requires
        names@.len() == passed@.len(),
        checks@.len() == names@.len(),
        forall|i: int| 0 <= i < names@.len() ==> #[trigger] checks@[i] == (names@[i]@, passed@[i]),
    ensures
        r is Ok <==> forall|i: int| 0 <= i < checks@.len() ==> #[trigger] checks@[i].1,
        r matches Err(e) ==> e.names() == failures(checks@),
{
    let mut errors = ValidationErrors::new();
    let mut i: usize = 0;
    while i < names.len()
        invariant
            names@.len() == passed@.len(),
            checks@.len() == names@.len(),
            forall|k: int| 0 <= k < names@.len() ==> #[trigger] checks@[k] == (names@[k]@, passed@[k]),
            i <= names@.len(),
            errors.names() == failures(checks@.subrange(0, i as int)),
        decreases names@.len() - i,
    {
        errors.record(names[i], passed[i]);
        proof {
            let s = checks@.subrange(0, i + 1);
            assert(s.drop_last() =~= checks@.subrange(0, i as int));
            assert(s.last() == checks@[i as int]);
        }
        i = i + 1;
    }
    assert(checks@.subrange(0, names@.len() as int) =~= checks@);
    proof {
        lemma_failures_empty(checks@);
    }
    errors.into_result()
}

/// A custom validator's complaint, with the code the API reports.
pub struct ValidationError {
    pub code: String,
}

// ---------------------------------------------------------------------------
// Field validators
// ---------------------------------------------------------------------------

/// A forward schema the proxy supports.
pub open spec fn is_forward_schema(schema: Seq<char>) -> bool {
    schema == "http"@ || schema == "https"@
}

/// An access-list rule action.
pub open spec fn is_access_list_action(action: Seq<char>) -> bool {
    action == "allow"@ || action == "deny"@
}

/// Accepts `http` and `https` only.
pub fn validate_forward_schema(schema: &str) -> (r: Result<(), ValidationError>)
    ensures
        r is Ok <==> is_forward_schema(schema@),
        r matches Err(e) ==> e.code@ == "forward_schema must be 'http' or 'https'"@,
{
    if str_eq(schema, "http") || str_eq(schema, "https") {
        Ok(())
    } else {
        Err(ValidationError { code: String::from_str("forward_schema must be 'http' or 'https'") })
    }
}

/// Accepts `allow` and `deny` only.
pub fn validate_access_list_action(action: &str) -> (r: Result<(), ValidationError>)
    ensures
        r is Ok <==> is_access_list_action(action@),
        r matches Err(e) ==> e.code@ == "invalid_action"@,
{
    if str_eq(action, "allow") || str_eq(action, "deny") {
        Ok(())
    } else {
        Err(ValidationError { code: String::from_str("invalid_action") })
    }
}

/// An address of an access-list rule: a single IP address or a network in
/// CIDR notation.  `is_ip_addr` says whether the text parses as an IP address.
pub open spec fn is_rule_address(address: Seq<char>, is_ip_addr: bool) -> bool {
    is_ip_addr || parses_as_ip_net(address)
}

/// Accepts an IP address or an IP network.  Whether `address` parses as a
/// plain IP address is decided by the caller's standard library and handed in
/// as `is_ip_addr`; the network form is parsed here with `ipnet`.
pub fn validate_address(address: &str, is_ip_addr: bool) -> (r: Result<(), ValidationError>)
    ensures
        r is Ok <==> is_rule_address(address@, is_ip_addr),
        r matches Err(e) ==> e.code@ == "invalid_address"@,
{
    if is_ip_addr || ip_net_parses(address) {
        Ok(())
    } else {
        Err(ValidationError { code: String::from_str("invalid_address") })
    }
}

/// A character count within `min..=max`, as the API's length rules count.
pub open spec fn length_within(s: Seq<char>, min: int, max: int) -> bool {
    min <= s.len() <= max
}

// ---------------------------------------------------------------------------
// The regular expressions of the API
// ---------------------------------------------------------------------------

/// A domain name: dot-separated labels of letters, digits and inner hyphens,
/// ending in an alphabetic top-level label of two or more letters.
pub open spec fn domain_pattern() -> Seq<char> {
    r"^(?:[a-zA-Z0-9](?:[a-zA-Z0-9-]{0,61}[a-zA-Z0-9])?\.)+[a-zA-Z]{2,}$"@
}

/// An upstream host: optional dot-terminated labels, then one last label.
pub open spec fn host_pattern() -> Seq<char> {
    r"^(?:[a-zA-Z0-9](?:[a-zA-Z0-9-]{0,61}[a-zA-Z0-9])?\.)*[a-zA-Z0-9-]+$"@
}

/// A user name: letters, digits, `_` and `-`.
pub open spec fn username_pattern() -> Seq<char> {
    r"^[a-zA-Z0-9_-]+$"@
}

/// A certificate name: letters, digits, `_`, `.` and `-`.
pub open spec fn cert_name_pattern() -> Seq<char> {
    r"^[a-zA-Z0-9_.-]+$"@
}

/// The four regular expressions of the API, compiled once.
pub struct Patterns {
    domain: Pattern,
    host: Pattern,
    username: Pattern,
    cert_name: Pattern,
}

/// Whether `text` matches `pattern` as the API's regex engine decides.
pub open spec fn pattern_matches(pattern: Seq<char>, text: Seq<char>) -> bool {
    regex_is_match(pattern, text)
}

impl Patterns {
    #[verifier::type_invariant]
    spec fn compiled_from_api_patterns(self) -> bool {
        &&& self.domain.source() == domain_pattern()
        &&& self.host.source() == host_pattern()
        &&& self.username.source() == username_pattern()
        &&& self.cert_name.source() == cert_name_pattern()
    }

    /// Compiles the four patterns; `None` when the regex engine refuses one.
    pub fn compile() -> (res: Option<Patterns>)
        ensures
            res is Some <==> (regex_compiles(domain_pattern()) && regex_compiles(host_pattern())
                && regex_compiles(username_pattern()) && regex_compiles(cert_name_pattern())),
    {
        let domain = compile_pattern(
            r"^(?:[a-zA-Z0-9](?:[a-zA-Z0-9-]{0,61}[a-zA-Z0-9])?\.)+[a-zA-Z]{2,}$",
        );
        let host = compile_pattern(
            r"^(?:[a-zA-Z0-9](?:[a-zA-Z0-9-]{0,61}[a-zA-Z0-9])?\.)*[a-zA-Z0-9-]+$",
        );
        let username = compile_pattern(r"^[a-zA-Z0-9_-]+$");
        let cert_name = compile_pattern(r"^[a-zA-Z0-9_.-]+$");
        match (domain, host, username, cert_name) {
            (Some(domain), Some(host), Some(username), Some(cert_name)) => Some(
                Patterns { domain, host, username, cert_name },
            ),
            _ => None,
        }
    }

    /// Whether `text` matches the domain pattern.
    pub fn is_domain(&self, text: &str) -> (b: bool)
        ensures
            b == pattern_matches(domain_pattern(), text@),
    {
        proof {
            use_type_invariant(self);
        }
        pattern_is_match(&self.domain, text)
    }

    /// Whether `text` matches the upstream host pattern.
    pub fn is_host(&self, text: &str) -> (b: bool)
        ensures
            b == pattern_matches(host_pattern(), text@),
    {
        proof {
            use_type_invariant(self);
        }
        pattern_is_match(&self.host, text)
    }

    /// Whether `text` matches the user name pattern.
    pub fn is_username(&self, text: &str) -> (b: bool)
        ensures
            b == pattern_matches(username_pattern(), text@),
    {
        proof {
            use_type_invariant(self);
        }
        pattern_is_match(&self.username, text)
    }

    /// Whether `text` matches the certificate name pattern.
    pub fn is_cert_name(&self, text: &str) -> (b: bool)
        ensures
            b == pattern_matches(cert_name_pattern(), text@),
    {
        proof {
            use_type_invariant(self);
        }
        pattern_is_match(&self.cert_name, text)
    }
}

// ---------------------------------------------------------------------------
// Pagination
// ---------------------------------------------------------------------------

/// The page a listing shows when the query names none.
pub fn default_page() -> (page: i64)
    ensures
        page == 1,
{
    1
}

/// The page size a listing uses when the query names none.
pub fn default_per_page() -> (per_page: i64)
    ensures
        per_page == 20,
{
    20
}

/// Which page of a listing to show, and how many items a page holds.
pub struct PaginationQuery {
    pub page: i64,
    pub per_page: i64,
}

/// Division that rounds toward zero, as Rust's `/` on signed integers.
pub open spec fn trunc_div(a: int, b: int) -> int
    recommends
        b > 0,
{
    if a >= 0 {
        a / b
    } else {
        -((-a) / b)
    }
}

/// The number of pages of `per_page` items that `total` items fill.
pub open spec fn total_pages_of(total: int, per_page: int) -> int {
    trunc_div(total + per_page - 1, per_page)
}

/// The number of items before page `page`.
pub open spec fn offset_of(page: int, per_page: int) -> int {
    (page - 1) * per_page
}

/// The page that shows the item at `index` (counted from 0).
pub open spec fn page_of(index: int, per_page: int) -> int {
    index / per_page + 1
}

impl PaginationQuery {
    /// A query with the default page and page size.
    pub fn new() -> (q: Self)
        ensures
            q.page == 1,
            q.per_page == 20,
    {
        PaginationQuery { page: default_page(), per_page: default_per_page() }
    }

    /// The checks of the query: the page is at least 1, a page holds 1 to
    /// 100 items.
    pub open spec fn checks(self) -> Seq<(Seq<char>, bool)> {
        seq![("page"@, self.page >= 1), ("per_page"@, 1 <= self.per_page <= 100)]
    }

    /// A query the API accepts.
    pub open spec fn is_valid(self) -> bool {
        self.page >= 1 && 1 <= self.per_page <= 100
    }

    /// Validates the query; the error lists the fields out of range.
    pub fn validate(&self) -> (r: Result<(), ValidationErrors>)
        ensures
            r is Ok <==> self.is_valid(),
            r matches Err(e) ==> e.names() == failures(self.checks()),
    {
        let names = vec!["page", "per_page"];
        let passed = vec![self.page >= 1, 1 <= self.per_page && self.per_page <= 100];
        proof {
            reveal_strlit("page");
            reveal_strlit("per_page");
        }
        let r = report(names, passed, Ghost(self.checks()));
        assert(self.checks()[0].1 == (self.page >= 1));
        assert(self.checks()[1].1 == (1 <= self.per_page <= 100));
        r
    }
}

/// The number of items before page `page`: `(page - 1) * per_page`.
pub fn page_offset(page: i64, per_page: i64) -> (offset: i64)
    requires
        page > i64::MIN,
        i64::MIN <= (page - 1) * per_page <= i64::MAX,
    ensures
        offset == offset_of(page as int, per_page as int),
{
    (page - 1) * per_page
}

/// The number of pages of `per_page` items that `total` items fill:
/// `(total + per_page - 1) / per_page`, rounded toward zero.
pub fn total_pages(total: i64, per_page: i64) -> (n: i64)
    requires
        per_page >= 1,
        total + per_page - 1 <= i64::MAX,
    ensures
        n == total_pages_of(total as int, per_page as int),
{
    let num = total + (per_page - 1);
    if num >= 0 {
        let q = (num as u64) / (per_page as u64);
        assert(q <= num) by (nonlinear_arith)
            requires
                q == (num as u64) / (per_page as u64),
                per_page >= 1,
                num >= 0,
        ;
        q as i64
    } else {
        let mag: u64 = ((-(num + 1)) as u64) + 1;
        assert(mag == -num);
        let q = mag / (per_page as u64);
        assert(q <= mag) by (nonlinear_arith)
            requires
                q == mag / (per_page as u64),
                per_page >= 1,
        ;
        assert(q <= i64::MAX + 1);
        if q == 0 {
            0
        } else {
            -(((q - 1) as i64)) - 1
        }
    }
}

/// The step of a loader that walks a listing page by page: after page `page`
/// it either stops or goes on with the next page.
pub open spec fn next_page_of(page: int, total: int, per_page: int) -> Option<int> {
    if page >= total_pages_of(total, per_page) {
        None
    } else {
        Some(page + 1)
    }
}

/// After loading page `page` of `total` items, the page to load next, or
/// `None` when the listing is done.
pub fn next_page(page: i64, total: i64, per_page: i64) -> (next: Option<i64>)
    requires
        per_page >= 1,
        total + per_page - 1 <= i64::MAX,
    ensures
        next == (match next_page_of(page as int, total as int, per_page as int) {
            Some(p) => Some(p as i64),
            None => None::<i64>,
        }),
{
    let n = total_pages(total, per_page);
    if page >= n {
        None
    } else {
        Some(page + 1)
    }
}

/// The pages a loader fetches when it starts at `page`: that page, then
/// whatever `next_page_of` leads to.
pub open spec fn pages_fetched(page: int, total: int, per_page: int) -> Seq<int>
    decreases total_pages_of(total, per_page) - page,
{
    match next_page_of(page, total, per_page) {
        Some(next) => seq![page].add(pages_fetched(next, total, per_page)),
        None => seq![page],
    }
}

/// A listing page: the items it holds and the counts that frame it.
pub struct PaginatedResponse<T> {
    pub data: Vec<T>,
    pub total: i64,
    pub page: i64,
    pub per_page: i64,
    pub total_pages: i64,
}

/// Frames one page of a listing.
pub fn paginated_response<T>(data: Vec<T>, total: i64, query: &PaginationQuery) -> (r: PaginatedResponse<T>)
    requires
        query.is_valid(),
        total + query.per_page - 1 <= i64::MAX,
    ensures
        r.data@ == data@,
        r.total == total,
        r.page == query.page,
        r.per_page == query.per_page,
        r.total_pages == total_pages_of(total as int, query.per_page as int),
{
    let total_pages = total_pages(total, query.per_page);
    PaginatedResponse { data, total, page: query.page, per_page: query.per_page, total_pages }
}

// ---------------------------------------------------------------------------
// Laws of pagination
// ---------------------------------------------------------------------------

/// For a non-negative number of items, the pages just suffice: `total` items
/// fit in `total_pages` pages, and one page fewer would not hold them.
pub proof fn lemma_total_pages_fit(total: int, per_page: int)
    requires
        total >= 0,
        per_page >= 1,
    ensures
        total_pages_of(total, per_page) >= 0,
        total_pages_of(total, per_page) == 0 <==> total == 0,
        total <= total_pages_of(total, per_page) * per_page,
        total > 0 ==> (total_pages_of(total, per_page) - 1) * per_page < total,
{
    let a = total + per_page - 1;
    let n = a / per_page;
    assert(total_pages_of(total, per_page) == n);
    vstd::arithmetic::div_mod::lemma_fundamental_div_mod(a, per_page);
    let r = a % per_page;
    assert(0 <= r < per_page);
    assert(a == per_page * n + r);
    assert(n >= 0) by (nonlinear_arith)
        requires
            a >= 0,
            per_page >= 1,
            a == per_page * n + r,
            0 <= r < per_page,
    ;
    assert(total <= n * per_page) by (nonlinear_arith)
        requires
            a == total + per_page - 1,
            a == per_page * n + r,
            0 <= r < per_page,
    ;
    assert(total > 0 ==> (n - 1) * per_page < total) by (nonlinear_arith)
        requires
            a == total + per_page - 1,
            a == per_page * n + r,
            0 <= r,
    ;
    assert(n == 0 <==> total == 0) by (nonlinear_arith)
        requires
            a == total + per_page - 1,
            a == per_page * n + r,
            0 <= r < per_page,
            total >= 0,
            n >= 0,
    ;
}

/// Pages 1 to `total_pages` show every item exactly once: the item at
/// `index` lies on page `page_of(index)`, which is one of those pages, and on
/// no other page.
pub proof fn lemma_pages_partition(total: int, per_page: int, index: int, page: int)
    requires
        total >= 0,
        per_page >= 1,
        0 <= index < total,
    ensures
        1 <= page_of(index, per_page) <= total_pages_of(total, per_page),
        offset_of(page_of(index, per_page), per_page) <= index < offset_of(
            page_of(index, per_page),
            per_page,
        ) + per_page,
        offset_of(page, per_page) <= index < offset_of(page, per_page) + per_page ==> page
            == page_of(index, per_page),
{
    lemma_total_pages_fit(total, per_page);
    let q = index / per_page;
    let n = total_pages_of(total, per_page);
    vstd::arithmetic::div_mod::lemma_fundamental_div_mod(index, per_page);
    let r = index % per_page;
    assert(0 <= r < per_page);
    assert(index == per_page * q + r);
    assert(q >= 0) by (nonlinear_arith)
        requires
            index >= 0,
            per_page >= 1,
            index == per_page * q + r,
            r < per_page,
    ;
    assert(q + 1 <= n) by (nonlinear_arith)
        requires
            index < total,
            total <= n * per_page,
            index == per_page * q + r,
            0 <= r,
            per_page >= 1,
    ;
    assert(offset_of(q + 1, per_page) == q * per_page) by (nonlinear_arith);
    assert(q * per_page <= index < q * per_page + per_page) by (nonlinear_arith)
        requires
            index == per_page * q + r,
            0 <= r < per_page,
    ;
    if offset_of(page, per_page) <= index < offset_of(page, per_page) + per_page {
        assert(offset_of(page, per_page) == (page - 1) * per_page);
        assert(page == q + 1) by (nonlinear_arith)
            requires
                (page - 1) * per_page <= index < (page - 1) * per_page + per_page,
                q * per_page <= index < q * per_page + per_page,
                per_page >= 1,
        ;
    }
}

/// A loader that starts at page 1 fetches the pages 1, 2, ..., in order,
/// each once, and stops after the last page; when there is nothing to list
/// it still fetches page 1 once.
pub proof fn lemma_loader_fetches_every_page(total: int, per_page: int)
    requires
        total >= 0,
        per_page >= 1,
    ensures
        pages_fetched(1, total, per_page) == Seq::new(
            (if total_pages_of(total, per_page) >= 1 {
                total_pages_of(total, per_page)
            } else {
                1
            }) as nat,
            |i: int| i + 1,
        ),
{
    lemma_total_pages_fit(total, per_page);
    lemma_pages_fetched_from(1, total, per_page);
}

proof fn lemma_pages_fetched_from(page: int, total: int, per_page: int)
    requires
        total >= 0,
        per_page >= 1,
        page >= 1,
    ensures
        pages_fetched(page, total, per_page) == Seq::new(
            (if total_pages_of(total, per_page) >= page {
                total_pages_of(total, per_page) - page + 1
            } else {
                1
            }) as nat,
            |i: int| i + page,
        ),
    decreases total_pages_of(total, per_page) - page,
{
    let n = total_pages_of(total, per_page);
    if page >= n {
        assert(pages_fetched(page, total, per_page) =~= seq![page]);
        assert(Seq::new(1nat, |i: int| i + page) =~= seq![page]);
    } else {
        lemma_pages_fetched_from(page + 1, total, per_page);
        let rest = pages_fetched(page + 1, total, per_page);
        assert(pages_fetched(page, total, per_page) == seq![page].add(rest));
        assert(seq![page].add(rest) =~= Seq::new((n - page + 1) as nat, |i: int| i + page));
    }
}

} // verus!
