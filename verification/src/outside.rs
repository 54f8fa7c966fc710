//! The calls this library makes into code it does not verify: the `regex`,
//! `ipnet`, `base64`, `bcrypt`, `jsonwebtoken` (with `serde_json`) and
//! `instant-acme` crates and
//! a few functions of std that vstd gives no specification.  Every item here
//! is trusted: its contract is believed, not proved.
use base64::Engine;
use vstd::prelude::*;

use crate::jwt::Claims;

verus! {

// ---------------------------------------------------------------------------
// Names for results that take pages to state.
// ---------------------------------------------------------------------------

/// Whether `regex::Regex::new` accepts `pattern`.
pub uninterp spec fn regex_compiles(pattern: Seq<char>) -> bool;

/// What `regex::Regex::is_match` answers for the regex compiled from `pattern`
/// on `text`.
pub uninterp spec fn regex_is_match(pattern: Seq<char>, text: Seq<char>) -> bool;

/// Whether `<ipnet::IpNet as FromStr>::from_str` accepts `text`.
pub uninterp spec fn parses_as_ip_net(text: Seq<char>) -> bool;

/// What `str::to_lowercase` returns for `text`.
pub uninterp spec fn unicode_lowercase(text: Seq<char>) -> Seq<char>;


/// The token `jsonwebtoken::encode` returns for the default header (HS256),
/// a key made from `secret`, and the claims `sub`, `iat`, `exp` and `roles`
/// as a JSON object.
pub uninterp spec fn hs256_token(
    secret: Seq<u8>,
    sub: Seq<char>,
    iat: u64,
    exp: u64,
    roles: Seq<Seq<char>>,
) -> Seq<char>;

/// What `jsonwebtoken::decode` makes of `token` with a key made from
/// `secret`, the default validation of HS256 tokens but the expiry left
/// unchecked, and the claims read as a JSON object: the fields `sub`,
/// `iat`, `exp` and `roles`, or `None` where the signature, the header, a
/// validation or a field fails.
pub uninterp spec fn hs256_claims(secret: Seq<u8>, token: Seq<char>) -> Option<
    (Seq<char>, u64, u64, Seq<Seq<char>>),
>;

/// What `bcrypt::verify` returns for `password` against `hash`: `None` where
/// it reports an error.
pub uninterp spec fn bcrypt_verify_result(password: Seq<char>, hash: Seq<char>) -> Option<bool>;

// ---------------------------------------------------------------------------
// Spec helpers used by the contracts below.
// ---------------------------------------------------------------------------

/// An ASCII character.
pub open spec fn is_ascii_char(c: char) -> bool {
    (c as u32) < 128
}

/// The ASCII lower-case of one character: `A`..`Z` map to `a`..`z`,
/// everything else is kept.
pub open spec fn ascii_lower_char(c: char) -> char {
    if 'A' <= c && c <= 'Z' {
        ((c as u32) + 32) as char
    } else {
        c
    }
}

/// The ASCII lower-case of a string.
pub open spec fn ascii_lowercase(s: Seq<char>) -> Seq<char> {
    s.map_values(|c: char| ascii_lower_char(c))
}

/// The character of the standard base64 alphabet (`A`-`Z`, `a`-`z`,
/// `0`-`9`, `+`, `/`) for a 6-bit value.
pub open spec fn base64_char(v: int) -> char {
    if v < 26 {
        (65 + v) as char
    } else if v < 52 {
        (97 + (v - 26)) as char
    } else if v < 62 {
        (48 + (v - 52)) as char
    } else if v == 62 {
        '+'
    } else {
        '/'
    }
}

/// The standard base64 encoding of `b` (RFC 4648, padded with `=`): each
/// group of three bytes becomes four characters of six bits each; a last
/// group of one or two bytes is filled with zero bits and padded.
pub open spec fn base64_of_bytes(b: Seq<u8>) -> Seq<char>
    decreases b.len(),
{
    if b.len() == 0 {
        Seq::empty()
    } else if b.len() == 1 {
        let n = b[0] as int;
        seq![base64_char(n / 4), base64_char((n % 4) * 16), '=', '=']
    } else if b.len() == 2 {
        let n = b[0] * 256 + b[1];
        seq![base64_char(n / 1024), base64_char((n / 16) % 64), base64_char((n % 16) * 4), '=']
    } else {
        let n = b[0] * 65536 + b[1] * 256 + b[2];
        seq![
            base64_char(n / 262144),
            base64_char((n / 4096) % 64),
            base64_char((n / 64) % 64),
            base64_char(n % 64),
        ] + base64_of_bytes(b.subrange(3, b.len() as int))
    }
}

/// What the standard base64 engine's `encode` returns for `text`: the
/// encoding of its UTF-8 bytes.
pub open spec fn base64_standard_encode(text: Seq<char>) -> Seq<char> {
    base64_of_bytes(vstd::utf8::encode_utf8(text))
}

/// What the standard base64 engine's `decode` returns for `text`.  The
/// engine demands the padding and zero trailing bits, so it accepts exactly
/// the texts that encode some bytes, and gives those bytes back; anything
/// else is an error, `None`.
pub open spec fn base64_standard_decode(text: Seq<char>) -> Option<Seq<u8>> {
    if exists|b: Seq<u8>| #[trigger] base64_of_bytes(b) == text {
        Some(choose|b: Seq<u8>| #[trigger] base64_of_bytes(b) == text)
    } else {
        None
    }
}

// ---------------------------------------------------------------------------
// regex
// ---------------------------------------------------------------------------

#[verifier::external_type_specification]
#[verifier::external_body]
pub struct ExRegex(regex::Regex);

/// A regular expression together with the pattern it was compiled from.
/// Only `compile_pattern` builds one, so `regex` always is the compilation
/// of `source`.
pub struct Pattern {
    regex: regex::Regex,
    source: String,
}

impl Pattern {
    /// The pattern this regular expression was compiled from.
    pub closed spec fn source(&self) -> Seq<char> {
        self.source@
    }
}

/// Compiles `pattern` with `regex::Regex::new`.  The contract claims that the
/// compilation succeeds exactly when the pattern is one the crate accepts,
/// and that the result remembers the pattern.
#[verifier::external_body]
pub(crate) fn compile_pattern(pattern: &str) -> (res: Option<Pattern>)
    ensures
        res is Some <==> regex_compiles(pattern@),
        res matches Some(p) ==> p.source() == pattern@,
{
    match regex::Regex::new(pattern) {
        Ok(regex) => Some(Pattern { regex, source: pattern.to_string() }),
        Err(_) => None,
    }
}

/// `regex::Regex::is_match` on `text`.  The contract claims that the answer
/// is the named result for the pattern the regex was compiled from.
#[verifier::external_body]
pub(crate) fn pattern_is_match(p: &Pattern, text: &str) -> (res: bool)
    ensures
        res == regex_is_match(p.source(), text@),
{
    p.regex.is_match(text)
}

// ---------------------------------------------------------------------------
// ipnet
// ---------------------------------------------------------------------------

/// Whether `text.parse::<ipnet::IpNet>()` succeeds; the contract names the
/// answer and claims nothing more.
#[verifier::external_body]
pub(crate) fn ip_net_parses(text: &str) -> (res: bool)
    ensures
        res == parses_as_ip_net(text@),
{
    text.parse::<ipnet::IpNet>().is_ok()
}

// ---------------------------------------------------------------------------
// std functions without a vstd specification
// ---------------------------------------------------------------------------

/// `String::push`: appends one character.
#[verifier::external_body]
pub(crate) fn string_push(s: &mut String, c: char)
    ensures
        final(s)@ == old(s)@.push(c),
{
    s.push(c)
}

/// `str::to_lowercase`.  The contract names the result and claims one fact
/// that the Unicode case mapping fixes: on an ASCII string it is the ASCII
/// lower-case.
#[verifier::external_body]
pub(crate) fn to_lowercase(s: &str) -> (res: String)
    ensures
        res@ == unicode_lowercase(s@),
        (forall|i: int| 0 <= i < s@.len() ==> is_ascii_char(#[trigger] s@[i])) ==> res@
            == ascii_lowercase(s@),
{
    s.to_lowercase()
}

// ---------------------------------------------------------------------------
// base64 and UTF-8
// ---------------------------------------------------------------------------

/// The decoded bytes, or `None`.
pub open spec fn opt_bytes(v: Option<Vec<u8>>) -> Option<Seq<u8>> {
    match v {
        Some(b) => Some(b@),
        None => None,
    }
}

/// `base64::engine::general_purpose::STANDARD.decode(text)`.  The contract
/// names the result; an error of the crate becomes `None`.
#[verifier::external_body]
pub(crate) fn base64_decode(text: &str) -> (res: Option<Vec<u8>>)
    ensures
        opt_bytes(res) == base64_standard_decode(text@),
{
    base64::engine::general_purpose::STANDARD.decode(text).ok()
}

/// `base64::engine::general_purpose::STANDARD.encode(text)`, which encodes
/// the UTF-8 bytes of `text`.  The contract claims the standard padded
/// encoding of those bytes, and what the crate documents: the standard
/// engine decodes its own output back to the bytes encoded.
#[verifier::external_body]
pub(crate) fn base64_encode(text: &str) -> (res: String)
    ensures
        res@ == base64_standard_encode(text@),
        base64_standard_decode(res@) == Some(vstd::utf8::encode_utf8(text@)),
{
    base64::engine::general_purpose::STANDARD.encode(text)
}

/// `String::from_utf8`.  The contract claims what its documentation says:
/// it succeeds exactly on valid UTF-8 and then holds the decoded characters.
#[verifier::external_body]
pub(crate) fn utf8_string(bytes: Vec<u8>) -> (res: Option<String>)
    ensures
        res is Some <==> vstd::utf8::valid_utf8(bytes@),
        res matches Some(s) ==> s@ == vstd::utf8::decode_utf8(bytes@),
{
    String::from_utf8(bytes).ok()
}

// ---------------------------------------------------------------------------
// bcrypt
// ---------------------------------------------------------------------------

/// `bcrypt::verify(password, hash)`.  The contract names the result; an
/// error of the crate becomes `None`.
#[verifier::external_body]
pub(crate) fn bcrypt_verify(password: &str, hash: &str) -> (res: Option<bool>)
    ensures
        res == bcrypt_verify_result(password@, hash@),
{
    bcrypt::verify(password, hash).ok()
}

/// `bcrypt::hash(password, bcrypt::DEFAULT_COST)`.  The salt is random, so
/// the hash itself is not named.  The contract claims one fact that the
/// crate's source shows: `verify` recomputes the hash with the salt and cost
/// stored in it, so a hash this call returns verifies the same password.
#[verifier::external_body]
pub(crate) fn bcrypt_hash(password: &str) -> (res: Option<String>)
    ensures
        res matches Some(h) ==> bcrypt_verify_result(password@, h@) == Some(true),
{
    bcrypt::hash(password, bcrypt::DEFAULT_COST).ok()
}

// ---------------------------------------------------------------------------
// instant-acme
// ---------------------------------------------------------------------------

/// `instant_acme::LetsEncrypt::Staging.url()` or
/// `instant_acme::LetsEncrypt::Production.url()`.  The contract claims the
/// two directory addresses the crate's source returns.
#[verifier::external_body]
pub(crate) fn lets_encrypt_url(staging: bool) -> (url: &'static str)
    ensures
        staging ==> url@ == "https://acme-staging-v02.api.letsencrypt.org/directory"@,
        !staging ==> url@ == "https://acme-v02.api.letsencrypt.org/directory"@,
{
    let server = if staging {
        instant_acme::LetsEncrypt::Staging
    } else {
        instant_acme::LetsEncrypt::Production
    };
    server.url()
}

// ---------------------------------------------------------------------------
// jsonwebtoken and the clock
// ---------------------------------------------------------------------------

/// `jsonwebtoken::encode` with the default header (HS256), a key made by
/// `EncodingKey::from_secret(secret)`, and the claims as the JSON object
/// `{"sub", "iat", "exp", "roles"}`.  Signing by HMAC is deterministic, so
/// the contract names the token as a function of these values.  It also
/// claims success, as the crate's source shows for this call: the key is an
/// HMAC key as HS256 asks, the header and a map of strings, numbers and
/// arrays of strings always serialize, and the HMAC signer cannot fail.
/// And it claims that `decode` with the same secret reads these claims back:
/// the signature is the HMAC of the same secret, the header is HS256, `exp`
/// is present, there is no audience, and each field reads as it was
/// written.
#[verifier::external_body]
pub(crate) fn sign_claims(secret: &[u8], sub: &str, iat: u64, exp: u64, roles: &Vec<String>) -> (res: Option<String>)
    ensures
        res is Some,
        res matches Some(t) ==> t@ == hs256_token(secret@, sub@, iat, exp, roles@.map_values(|r: String| r@)),
        res matches Some(t) ==> hs256_claims(secret@, t@) == Some(
            (sub@, iat, exp, roles@.map_values(|r: String| r@)),
        ),
{
    let mut claims = serde_json::Map::new();
    claims.insert("sub".to_owned(), serde_json::Value::from(sub));
    claims.insert("iat".to_owned(), serde_json::Value::from(iat));
    claims.insert("exp".to_owned(), serde_json::Value::from(exp));
    claims.insert("roles".to_owned(), serde_json::Value::from(roles.clone()));
    let key = jsonwebtoken::EncodingKey::from_secret(secret);
    jsonwebtoken::encode(&jsonwebtoken::Header::default(), &claims, &key).ok()
}

/// The claims as character sequences and numbers.
pub open spec fn claims_fields(c: Option<Claims>) -> Option<(Seq<char>, u64, u64, Seq<Seq<char>>)> {
    match c {
        Some(c) => Some((c.sub@, c.iat, c.exp, c.roles@.map_values(|r: String| r@))),
        None => None,
    }
}

/// `jsonwebtoken::decode` of `token` as a JSON object, with a key made by
/// `DecodingKey::from_secret(secret)` and the default validation but for
/// the expiry, which the caller judges against its own clock; then
/// `serde_json` reads the fields.  The contract names the claims as a
/// function of the secret and the token; an error becomes `None`.
#[verifier::external_body]
pub(crate) fn decode_claims(secret: &[u8], token: &str) -> (r: Option<Claims>)
    ensures
        claims_fields(r) == hs256_claims(secret@, token@),
{
    let mut validation = jsonwebtoken::Validation::default();
    validation.validate_exp = false;
    let key = jsonwebtoken::DecodingKey::from_secret(secret);
    let map = jsonwebtoken::decode::<serde_json::Map<String, serde_json::Value>>(token, &key, &validation).ok()?.claims;
    Some(Claims {
        sub: serde_json::from_value(map.get("sub")?.clone()).ok()?,
        iat: serde_json::from_value(map.get("iat")?.clone()).ok()?,
        exp: serde_json::from_value(map.get("exp")?.clone()).ok()?,
        roles: serde_json::from_value(map.get("roles")?.clone()).ok()?,
    })
}

/// The seconds since the Unix epoch by `std::time::SystemTime::now()`;
/// `None` when the clock stands before the epoch.  The time is not named:
/// two calls may differ.
#[verifier::external_body]
pub(crate) fn unix_time_now() -> Option<u64> {
    std::time::SystemTime::now().duration_since(std::time::UNIX_EPOCH).ok().map(|d| d.as_secs())
}

} // verus!
