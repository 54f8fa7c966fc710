//! Configuration values: how a setting read from the environment becomes a
//! number, and the defaults that stand in for missing or unreadable ones.
use vstd::prelude::*;
use vstd::string::*;

use crate::outside::string_push;
use crate::text::{chars_of, concat_str};

verus! {

/// A decimal digit.
pub open spec fn is_digit(c: char) -> bool {
    '0' <= c && c <= '9'
}

/// The value of a digit character.
pub open spec fn digit_value(c: char) -> int {
    (c as int) - ('0' as int)
}

/// The value of a string of decimal digits.
pub open spec fn digits_value(ds: Seq<char>) -> int
    decreases ds.len(),
{
    if ds.len() == 0 {
        0
    } else {
        digits_value(ds.drop_last()) * 10 + digit_value(ds.last())
    }
}

/// Decimal digits only.
pub open spec fn all_digits(ds: Seq<char>) -> bool {
    forall|i: int| 0 <= i < ds.len() ==> is_digit(#[trigger] ds[i])
}

/// The digits of an unsigned number: the text without one leading `+`.
pub open spec fn unsigned_digits(s: Seq<char>) -> Seq<char> {
    if s.len() > 0 && s[0] == '+' {
        s.drop_first()
    } else {
        s
    }
}

/// What `str::parse` gives for an unsigned integer type whose largest value
/// is `max`: an optional `+`, then one or more decimal digits, for a value
/// of at most `max`.
pub open spec fn parse_unsigned_of(s: Seq<char>, max: int) -> Option<int> {
    let ds = unsigned_digits(s);
    if ds.len() > 0 && all_digits(ds) && digits_value(ds) <= max {
        Some(digits_value(ds))
    } else {
        None
    }
}

/// Digits only grow a value: a string of digits is worth at least any
/// prefix of it.
pub proof fn lemma_digits_grow(ds: Seq<char>, k: int)
    requires
        all_digits(ds),
        0 <= k <= ds.len(),
    ensures
        digits_value(ds.subrange(0, k)) <= digits_value(ds),
        digits_value(ds) >= 0,
    decreases ds.len(),
{
    if ds.len() > 0 {
        let rest = ds.drop_last();
        assert(all_digits(rest)) by {
            assert forall|i: int| 0 <= i < rest.len() implies is_digit(#[trigger] rest[i]) by {
                assert(rest[i] == ds[i]);
            }
        }
        assert(is_digit(ds[ds.len() - 1]));
        if k < ds.len() {
            lemma_digits_grow(rest, k);
            assert(ds.subrange(0, k) =~= rest.subrange(0, k));
        } else {
            assert(ds.subrange(0, k) =~= ds);
            lemma_digits_grow(rest, 0);
        }
    } else {
        assert(ds.subrange(0, k) =~= ds);
    }
}

fn digit_of(c: char) -> (d: Option<u64>)
    ensures
        match d {
            Some(v) => is_digit(c) && v == digit_value(c),
            None => !is_digit(c),
        },
{
    if '0' <= c && c <= '9' {
        Some((c as u32 - '0' as u32) as u64)
    } else {
        None
    }
}

/// Parses an unsigned decimal number of at most `max`, as `str::parse` does
/// for an unsigned integer type whose largest value is `max`.
pub fn parse_unsigned(s: &str, max: u64) -> (r: Option<u64>)
    ensures
        match r {
            Some(v) => parse_unsigned_of(s@, max as int) == Some(v as int),
            None => parse_unsigned_of(s@, max as int) is None,
        },
{
    let cs = chars_of(s);
    let start: usize = if cs.len() > 0 && cs[0] == '+' {
        1
    } else {
        0
    };
    let ghost ds = unsigned_digits(s@);
    assert(ds =~= cs@.subrange(start as int, cs@.len() as int));
    if start == cs.len() {
        return None;
    }
    let mut value: u64 = 0;
    let mut i: usize = start;
    while i < cs.len()
        invariant
            cs@ == s@,
            ds == unsigned_digits(s@),
            ds == cs@.subrange(start as int, cs@.len() as int),
            start <= i <= cs@.len(),
            all_digits(cs@.subrange(start as int, i as int)),
            value == digits_value(cs@.subrange(start as int, i as int)),
            value <= max,
        decreases cs@.len() - i,
    {
        let ghost pre = cs@.subrange(start as int, i as int);
        let ghost next = cs@.subrange(start as int, i + 1);
        assert(next.drop_last() =~= pre);
        assert(next.last() == cs@[i as int]);
        let d = match digit_of(cs[i]) {
            Some(d) => d,
            None => {
                assert(ds[i - start] == cs@[i as int]);
                assert(!is_digit(ds[i - start]));
                assert(!all_digits(ds));
                return None;
            },
        };
        if d > max || value > (max - d) / 10 {
            assert(value * 10 + d > max) by (nonlinear_arith)
                requires
                    d > max || value > (max - d) / 10,
                    value >= 0,
                    d >= 0,
            ;
            assert(digits_value(next) == value * 10 + d);
            proof {
                if all_digits(ds) {
                    assert(next =~= ds.subrange(0, i + 1 - start));
                    lemma_digits_grow(ds, i + 1 - start);
                    assert(digits_value(ds) > max);
                }
            }
            return None;
        }
        assert(value * 10 + d <= max) by (nonlinear_arith)
            requires
                d <= max,
                value <= (max - d) / 10,
                value >= 0,
        ;
        value = value * 10 + d;
        assert(all_digits(next)) by {
            assert forall|j: int| 0 <= j < next.len() implies is_digit(#[trigger] next[j]) by {
                if j < pre.len() {
                    assert(next[j] == pre[j]);
                }
            }
        }
        i = i + 1;
    }
    Some(value)
}

/// The decimal text of a number.
pub open spec fn decimal_of(n: nat) -> Seq<char>
    decreases n,
{
    if n < 10 {
        seq![digit_char(n)]
    } else {
        decimal_of(n / 10).push(digit_char(n % 10))
    }
}

/// The character of a digit value.
pub open spec fn digit_char(d: nat) -> char {
    if d == 0 {
        '0'
    } else if d == 1 {
        '1'
    } else if d == 2 {
        '2'
    } else if d == 3 {
        '3'
    } else if d == 4 {
        '4'
    } else if d == 5 {
        '5'
    } else if d == 6 {
        '6'
    } else if d == 7 {
        '7'
    } else if d == 8 {
        '8'
    } else {
        '9'
    }
}

fn digit_char_exec(d: u64) -> (c: char)
    requires
        d < 10,
    ensures
        c == digit_char(d as nat),
{
    if d == 0 {
        '0'
    } else if d == 1 {
        '1'
    } else if d == 2 {
        '2'
    } else if d == 3 {
        '3'
    } else if d == 4 {
        '4'
    } else if d == 5 {
        '5'
    } else if d == 6 {
        '6'
    } else if d == 7 {
        '7'
    } else if d == 8 {
        '8'
    } else {
        '9'
    }
}

/// The decimal text of a number.
pub fn decimal_text(n: u64) -> (s: String)
    ensures
        s@ == decimal_of(n as nat),
    decreases n,
{
    if n < 10 {
        let mut s = String::new();
        string_push(&mut s, digit_char_exec(n));
        assert(s@ =~= seq![digit_char(n as nat)]);
        s
    } else {
        let mut s = decimal_text(n / 10);
        string_push(&mut s, digit_char_exec(n % 10));
        s
    }
}

/// The value of an optional setting parsed as an unsigned number of at
/// most `max`; the default where the setting is missing or does not parse.
pub open spec fn setting_or(value: Option<String>, max: int, default: int) -> int {
    match value {
        Some(v) => match parse_unsigned_of(v@, max) {
            Some(n) => n,
            None => default,
        },
        None => default,
    }
}

/// An optional setting parsed as an unsigned number of at most `max`, or
/// `default`.
pub fn unsigned_setting(value: &Option<String>, max: u64, default: u64) -> (n: u64)
    ensures
        n == setting_or(*value, max as int, default as int),
{
    match value {
        Some(v) => match parse_unsigned(v.as_str(), max) {
            Some(n) => n,
            None => default,
        },
        None => default,
    }
}

/// The address the REST API listens on, before it is read as a socket
/// address: `API_HOST` (default `0.0.0.0`) and `API_PORT` (default 8181).
pub struct ApiSettings {
    pub host: String,
    pub port: u16,
}

/// The host the API listens on when `API_HOST` is not set.
pub open spec fn default_api_host() -> Seq<char> {
    "0.0.0.0"@
}

impl ApiSettings {
    /// The settings from the values of `API_HOST` and `API_PORT`.
    pub fn from_values(host: Option<String>, port: Option<String>) -> (r: Self)
        ensures
            r.host@ == (match host {
                Some(h) => h@,
                None => default_api_host(),
            }),
            r.port == setting_or(port, 65535, 8181),
    {
        let p = unsigned_setting(&port, 65535, 8181);
        let host = match host {
            Some(h) => h,
            None => String::from_str("0.0.0.0"),
        };
        ApiSettings { host, port: p as u16 }
    }

    /// `<host>:<port>`, the text that is read as the socket address.
    pub fn address(&self) -> (a: String)
        ensures
            a@ == self.host@ + ":"@ + decimal_of(self.port as nat),
    {
        let a = concat_str(self.host.as_str(), ":");
        let d = decimal_text(self.port as u64);
        a.concat(d.as_str())
    }
}

/// The token lifetime when `JWT_EXPIRY_SECONDS` is not set or not a number.
pub const DEFAULT_EXPIRY_SECONDS: u64 = 3600;

/// The token lifetime from the value of `JWT_EXPIRY_SECONDS`.
pub fn jwt_expiry_seconds(value: &Option<String>) -> (n: u64)
    ensures
        n == setting_or(*value, u64::MAX as int, 3600),
{
    unsigned_setting(value, u64::MAX, DEFAULT_EXPIRY_SECONDS)
}

} // verus!
