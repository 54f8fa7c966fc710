//! Tokens: the secret they are signed with, the claims they carry, how
//! long they last, issuing them and checking them.
use vstd::prelude::*;
use vstd::string::*;

use crate::outside::{decode_claims, hs256_claims, hs256_token, sign_claims, unix_time_now};

verus! {

/// What a token says: whom it is for, when it was issued and expires (in
/// seconds since the Unix epoch), and the roles it grants.
#[derive(Debug)]
pub struct Claims {
    pub sub: String,
    pub exp: u64,
    pub iat: u64,
    pub roles: Vec<String>,
}

/// The shared secret tokens are signed and checked with (HS256), and how
/// long a token lasts.
pub struct JwtConfig {
    pub secret: Vec<u8>,
    pub expiry_seconds: u64,
}

impl JwtConfig {
    /// The settings for a shared secret and a token lifetime.
    pub fn from_secret(secret: &[u8], expiry_seconds: u64) -> (c: Self)
        ensures
            c.secret@ == secret@,
            c.expiry_seconds == expiry_seconds,
    {
        let mut kept: Vec<u8> = Vec::new();
        let mut i: usize = 0;
        while i < secret.len()
            invariant
                i <= secret@.len(),
                kept@ == secret@.subrange(0, i as int),
            decreases secret@.len() - i,
        {
            kept.push(secret[i]);
            i = i + 1;
            assert(kept@ =~= secret@.subrange(0, i as int));
        }
        assert(kept@ =~= secret@);
        JwtConfig { secret: kept, expiry_seconds }
    }
}

/// Why a token could not be issued or was refused.
#[derive(Clone, Copy, PartialEq, Eq, Structural, Debug)]
pub enum JwtError {
    /// `JWT_SECRET` is not set, and the build is no debug build.
    MissingSecret,
    /// The clock stands before the Unix epoch.
    Clock,
    /// The expiry time of a token to issue does not fit in 64 bits.
    Overflow,
    /// The token is not one signed with the secret, or its claims do not
    /// read.
    VerifyError,
    /// The token expired.
    Expired,
}

/// The signing secret from the value of `JWT_SECRET`: the value when it is
/// set; when it is not, the fixed development secret `debug-secret` in a
/// debug build, else `MissingSecret`.
pub fn jwt_secret(value: Option<String>, debug_build: bool) -> (r: Result<String, JwtError>)
    ensures
        match value {
            Some(v) => (r matches Ok(s) && s == v),
            None => if debug_build {
                (r matches Ok(s) && s@ == "debug-secret"@)
            } else {
                r == Err::<String, JwtError>(JwtError::MissingSecret)
            },
        },
{
    match value {
        Some(v) => Ok(v),
        None => if debug_build {
            Ok(String::from_str("debug-secret"))
        } else {
            Err(JwtError::MissingSecret)
        },
    }
}

/// The roles as character sequences.
pub open spec fn role_names(roles: Seq<String>) -> Seq<Seq<char>> {
    roles.map_values(|r: String| r@)
}

/// Whether a token issued at `now` can carry its expiry in 64 bits.
pub open spec fn expiry_fits(now: u64, expiry_seconds: u64) -> bool {
    now + expiry_seconds <= u64::MAX
}

/// What issuing a token for `subject` with `roles` at `now` gives: the
/// signed claims valid from `now` for `expiry_seconds`, or `Overflow` when
/// the expiry does not fit in 64 bits.
pub open spec fn issued_at(
    secret: Seq<u8>,
    expiry_seconds: u64,
    subject: Seq<char>,
    roles: Seq<Seq<char>>,
    now: u64,
) -> Result<Seq<char>, JwtError> {
    if !expiry_fits(now, expiry_seconds) {
        Err(JwtError::Overflow)
    } else {
        Ok(hs256_token(secret, subject, now, (now + expiry_seconds) as u64, roles))
    }
}

/// A token as text, or the error.
pub open spec fn token_text(r: Result<String, JwtError>) -> Result<Seq<char>, JwtError> {
    match r {
        Ok(t) => Ok(t@),
        Err(e) => Err(e),
    }
}

/// The seconds a token is still accepted after it expires, as the default
/// validation of `jsonwebtoken` allows for clock skew.
pub open spec fn leeway() -> int {
    60
}

/// What checking `token` at `now` gives: `VerifyError` when it is not a
/// token signed with `secret` whose claims read; `Expired` when its expiry
/// lies more than the leeway before `now`; otherwise its claims (subject,
/// issue time, expiry, roles).
pub open spec fn verified_at(secret: Seq<u8>, token: Seq<char>, now: u64) -> Result<
    (Seq<char>, u64, u64, Seq<Seq<char>>),
    JwtError,
> {
    match hs256_claims(secret, token) {
        None => Err(JwtError::VerifyError),
        Some(c) => if c.2 + leeway() < now {
            Err(JwtError::Expired)
        } else {
            Ok(c)
        },
    }
}

/// Checked claims as character sequences and numbers, or the error.
pub open spec fn claims_result(r: Result<Claims, JwtError>) -> Result<
    (Seq<char>, u64, u64, Seq<Seq<char>>),
    JwtError,
> {
    match r {
        Ok(c) => Ok((c.sub@, c.iat, c.exp, role_names(c.roles@))),
        Err(e) => Err(e),
    }
}

/// A token issued at `issued` with `expiry_seconds` for `subject` and
/// `roles` is read back as exactly those claims at any time up to its
/// expiry and the leeway.
pub open spec fn reads_back(
    secret: Seq<u8>,
    token: Seq<char>,
    expiry_seconds: u64,
    subject: Seq<char>,
    roles: Seq<Seq<char>>,
    issued: u64,
) -> bool {
    forall|later: u64|
        later <= issued + expiry_seconds + leeway() ==> #[trigger] verified_at(secret, token, later) == Ok::<
            (Seq<char>, u64, u64, Seq<Seq<char>>),
            JwtError,
        >((subject, issued, (issued + expiry_seconds) as u64, roles))
}

/// Issues and checks tokens.
pub struct JwtService {
    pub config: JwtConfig,
}

impl JwtService {
    /// A service with these keys and lifetime.
    pub fn new(config: JwtConfig) -> (s: Self)
        ensures
            s.config == config,
    {
        JwtService { config }
    }

    /// The claims of a token for `subject` issued at `now`: valid from now
    /// for the configured lifetime.
    pub fn claims_at(&self, subject: &str, roles: Vec<String>, now: u64) -> (c: Claims)
        requires
            now + self.config.expiry_seconds <= u64::MAX,
        ensures
            c.sub@ == subject@,
            c.iat == now,
            c.exp == now + self.config.expiry_seconds,
            c.roles@ == roles@,
    {
        Claims {
            sub: subject.to_owned(),
            iat: now,
            exp: now + self.config.expiry_seconds,
            roles,
        }
    }

    /// The claims of a token for `subject` issued at `now`; `None` exactly
    /// when the expiry would not fit in 64 bits.
    pub fn claims_for(&self, subject: &str, roles: Vec<String>, now: u64) -> (c: Option<Claims>)
        ensures
            c is None <==> !expiry_fits(now, self.config.expiry_seconds),
            c matches Some(c) ==> c.sub@ == subject@ && c.iat == now && c.exp == now
                + self.config.expiry_seconds && c.roles@ == roles@,
    {
        if now > u64::MAX - self.config.expiry_seconds {
            return None;
        }
        Some(self.claims_at(subject, roles, now))
    }

    /// The claims of a token for `subject` issued now: those `claims_for`
    /// gives for the clock's reading.  `None` when the clock stands before
    /// the Unix epoch or the expiry would not fit in 64 bits.
    pub fn claims_now(&self, subject: &str, roles: Vec<String>) -> (c: Option<Claims>)
        ensures
            c matches Some(c) ==> c.sub@ == subject@ && c.exp == c.iat + self.config.expiry_seconds
                && c.roles@ == roles@,
    {
        let now = match current_timestamp() {
            Some(t) => t,
            None => return None,
        };
        self.claims_for(subject, roles, now)
    }

    /// The signed token of `claims`, by HS256 with the configured secret;
    /// checking it with the same secret reads the claims back.
    pub fn sign(&self, claims: &Claims) -> (t: String)
        ensures
            t@ == hs256_token(
                self.config.secret@,
                claims.sub@,
                claims.iat,
                claims.exp,
                role_names(claims.roles@),
            ),
            hs256_claims(self.config.secret@, t@) == Some(
                (claims.sub@, claims.iat, claims.exp, role_names(claims.roles@)),
            ),
    {
        match sign_claims(self.config.secret.as_slice(), claims.sub.as_str(), claims.iat, claims.exp, &claims.roles) {
            Some(t) => t,
            None => {
                proof {
                    assert(false);
                }
                String::new()
            },
        }
    }

    /// Issues a token for `subject` with `roles` as if the clock read `now`;
    /// checking the token reads these claims back until it expires.
    pub fn issue_at(&self, subject: &str, roles: Vec<String>, now: u64) -> (r: Result<String, JwtError>)
        ensures
            token_text(r) == issued_at(
                self.config.secret@,
                self.config.expiry_seconds,
                subject@,
                role_names(roles@),
                now,
            ),
            r matches Ok(t) ==> reads_back(
                self.config.secret@,
                t@,
                self.config.expiry_seconds,
                subject@,
                role_names(roles@),
                now,
            ),
    {
        let ghost names = role_names(roles@);
        match self.claims_for(subject, roles, now) {
            None => Err(JwtError::Overflow),
            Some(claims) => {
                assert(role_names(claims.roles@) =~= names);
                let t = self.sign(&claims);
                assert(reads_back(
                    self.config.secret@,
                    t@,
                    self.config.expiry_seconds,
                    subject@,
                    names,
                    now,
                ));
                Ok(t)
            },
        }
    }

    /// Issues a token for `subject` with `roles`, valid from now for the
    /// configured lifetime: what `issue_at` gives for the clock's reading,
    /// or `Clock` when the clock stands before the Unix epoch.
    pub fn issue(&self, subject: &str, roles: Vec<String>) -> (r: Result<String, JwtError>)
        ensures
            r == Err::<String, JwtError>(JwtError::Clock) || exists|now: u64|
                #[trigger] issued_at(
                    self.config.secret@,
                    self.config.expiry_seconds,
                    subject@,
                    role_names(roles@),
                    now,
                ) == token_text(r) && (r matches Ok(t) ==> reads_back(
                    self.config.secret@,
                    t@,
                    self.config.expiry_seconds,
                    subject@,
                    role_names(roles@),
                    now,
                )),
    {
        let now = match current_timestamp() {
            Some(t) => t,
            None => return Err(JwtError::Clock),
        };
        let ghost names = role_names(roles@);
        let r = self.issue_at(subject, roles, now);
        assert(issued_at(self.config.secret@, self.config.expiry_seconds, subject@, names, now) == token_text(r));
        r
    }

    /// Checks `token` as if the clock read `now`: the claims it carries when
    /// it is signed with the secret, reads, and has not expired (with the
    /// leeway).
    pub fn verify_at(&self, token: &str, now: u64) -> (r: Result<Claims, JwtError>)
        ensures
            claims_result(r) == verified_at(self.config.secret@, token@, now),
    {
        match decode_claims(self.config.secret.as_slice(), token) {
            None => Err(JwtError::VerifyError),
            Some(c) => {
                if now > 60 && c.exp < now - 60 {
                    Err(JwtError::Expired)
                } else {
                    Ok(c)
                }
            },
        }
    }

    /// Checks `token` against the clock: what `verify_at` gives for the
    /// clock's reading, or `Clock` when the clock stands before the Unix
    /// epoch.
    pub fn verify(&self, token: &str) -> (r: Result<Claims, JwtError>)
        ensures
            r == Err::<Claims, JwtError>(JwtError::Clock) || exists|now: u64|
                #[trigger] verified_at(self.config.secret@, token@, now) == claims_result(r),
    {
        let now = match current_timestamp() {
            Some(t) => t,
            None => return Err(JwtError::Clock),
        };
        let r = self.verify_at(token, now);
        assert(verified_at(self.config.secret@, token@, now) == claims_result(r));
        r
    }
}

/// The seconds since the Unix epoch; `None` when the clock stands before it.
pub fn current_timestamp() -> Option<u64> {
    unix_time_now()
}

} // verus!
