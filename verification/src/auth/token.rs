//! Session tokens: HS256 JSON Web Tokens that name a user and an expiry.

use std::time::SystemTime;

use vstd::prelude::*;
use vstd::utf8::encode_utf8;

use super::domain::{TokenClaims, UserId};
use super::error::AuthError;
use super::ids::{user_id_from_str, user_id_to_string, uuid_parse, uuid_text};

verus! {

/// How long an issued token stays valid, in seconds.
pub const TOKEN_TTL_SECS: u64 = 3600;

/// The largest `i64`, the bound of an expiry in a token.
pub const MAX_EXPIRY: u64 = 0x7fff_ffff_ffff_ffff;

#[verifier::external_type_specification]
#[verifier::external_body]
pub struct ExSystemTime(SystemTime);

/// The compact token that `jsonwebtoken::encode` produces, with an HS256
/// header and the secret as HMAC key, for the claims `sub` and `exp`.
pub uninterp spec fn jwt_hs256_token(secret: Seq<u8>, sub: Seq<char>, exp: i64) -> Seq<char>;

/// What `jsonwebtoken::decode` under HS256 with the secret, with the expiry
/// left unchecked, reads of a token as its claims `sub` (a string) and `exp`
/// (an integer of `i64`); `None` where it refuses the token (a signature that
/// does not verify under the secret, no `exp` of `u64`) or those claims are
/// missing.
pub uninterp spec fn jwt_hs256_claims(secret: Seq<u8>, token: Seq<char>) -> Option<(Seq<char>, i64)>;

/// The grace that `jsonwebtoken`'s validation gives an expiry, in seconds
/// (`Validation::leeway`'s default): a token whose `exp` lies further in the
/// past is refused as invalid.
pub const EXPIRY_LEEWAY_SECS: u64 = 60;

/// Signs the claims `{"sub": sub, "exp": exp}`, in that order (serde_json's
/// `preserve_order` keeps a map's insertion order), with `jsonwebtoken::encode`
/// under an HS256 header and the secret. Trusted: it succeeds (its source fails only for a
/// key of another algorithm family, a claim set that does not serialize, or
/// a failed asymmetric signature, none of which can happen here); the token
/// is the one named `jwt_hs256_token`, and, for an `exp` that is not
/// negative, decoding it under the same secret reads back exactly these
/// claims (the signature verifies, and `exp` parses as the `u64` that the
/// validation requires).
#[verifier::external_body]
fn jwt_encode_hs256(secret: &[u8], sub: &str, exp: i64) -> (r: Result<String, String>)
    ensures
        r is Ok,
        r matches Ok(t) ==> t@ == jwt_hs256_token(secret@, sub@, exp),
        exp >= 0 ==> (r matches Ok(t) ==> jwt_hs256_claims(secret@, t@) == Some((sub@, exp))),
{
    let mut claims = serde_json::Map::new();
    claims.insert("sub".to_owned(), serde_json::Value::from(sub));
    claims.insert("exp".to_owned(), serde_json::Value::from(exp));
    let header = jsonwebtoken::Header::new(jsonwebtoken::Algorithm::HS256);
    let key = jsonwebtoken::EncodingKey::from_secret(secret);
    jsonwebtoken::encode(&header, &claims, &key).map_err(|e| e.to_string())
}

/// Decodes a token with `jsonwebtoken::decode` under
/// `Validation::new(Algorithm::HS256)` with `validate_exp` switched off (the
/// `exp` claim stays required) and the secret, and reads its `sub` and `exp`
/// claims. With the expiry unchecked, `decode` reads no clock, so the result
/// depends on the secret and the token alone. Trusted: it is the one named
/// `jwt_hs256_claims`.
#[verifier::external_body]
fn jwt_decode_hs256(secret: &[u8], token: &str) -> (r: Option<(String, i64)>)
    ensures
        jwt_hs256_claims(secret@, token@) == match r {
            Some(c) => Some((c.0@, c.1)),
            None => None,
        },
{
    let mut validation = jsonwebtoken::Validation::new(jsonwebtoken::Algorithm::HS256);
    validation.validate_exp = false;
    let key = jsonwebtoken::DecodingKey::from_secret(secret);
    let data = jsonwebtoken::decode::<serde_json::Map<String, serde_json::Value>>(token, &key, &validation).ok()?;
    let sub = data.claims.get("sub").and_then(serde_json::Value::as_str)?;
    let exp = data.claims.get("exp").and_then(serde_json::Value::as_i64)?;
    Some((sub.to_owned(), exp))
}

/// Reads the clock with `SystemTime::now`. Nothing is stated of the result.
#[verifier::external_body]
fn system_now() -> SystemTime {
    SystemTime::now()
}

/// Whole seconds from the Unix epoch to `t`, from `SystemTime::duration_since`;
/// the error's text where `t` lies before the epoch. Nothing is stated of the
/// result: it depends on the clock that gave `t`.
#[verifier::external_body]
fn secs_since_epoch(t: SystemTime) -> Result<u64, String> {
    t.duration_since(std::time::UNIX_EPOCH).map(|d| d.as_secs()).map_err(|e| e.to_string())
}

/// The clock in whole seconds since the Unix epoch.
fn unix_now() -> Result<u64, String> {
    secs_since_epoch(system_now())
}

/// What checking the claims of a validly signed token gives at the time
/// `now` (in seconds since the epoch, or the clock's error): an expiry more
/// than the leeway in the past is refused as invalid, one in the past within
/// the leeway as expired, and a subject that is no user id as invalid.
pub open spec fn claims_outcome(sub: Seq<char>, exp: i64, now: Result<u64, String>) -> Result<
    TokenClaims,
    AuthError,
> {
    match now {
        Err(e) => Err(AuthError::Internal(e)),
        Ok(secs) => if exp + EXPIRY_LEEWAY_SECS < secs {
            Err(AuthError::InvalidCredentials)
        } else if exp < secs {
            Err(AuthError::TokenExpired)
        } else {
            match uuid_parse(sub) {
                None => Err(AuthError::InvalidCredentials),
                Some(id) => Ok(TokenClaims { user_id: id, expires_at: exp }),
            }
        },
    }
}

/// What checking a token under the secret gives at the time `now`: a token
/// whose signature or claims do not read is refused as invalid; the claims
/// of one that reads are checked against `now`.
pub open spec fn token_outcome(secret: Seq<u8>, token: Seq<char>, now: Result<u64, String>) -> Result<
    TokenClaims,
    AuthError,
> {
    match jwt_hs256_claims(secret, token) {
        None => Err(AuthError::InvalidCredentials),
        Some(c) => claims_outcome(c.0, c.1, now),
    }
}

/// A token that names the user `id` and the expiry `exp` under the secret.
pub open spec fn issued_for(secret: Seq<u8>, token: Seq<char>, id: UserId, exp: i64) -> bool {
    &&& jwt_hs256_token(secret, uuid_text(id), exp) == token
    &&& jwt_hs256_claims(secret, token) == Some((uuid_text(id), exp))
    &&& uuid_parse(uuid_text(id)) == Some(id)
}

/// Checks the claims read from a validly signed token against the time
/// `now`: an expiry more than `EXPIRY_LEEWAY_SECS` before `now` fails with
/// `InvalidCredentials`, one before `now` with `TokenExpired`, a subject
/// that is no user id with `InvalidCredentials`, a clock error with
/// `Internal`.
pub fn check_claims(sub: &str, exp: i64, now: Result<u64, String>) -> (r: Result<TokenClaims, AuthError>)
    ensures
        r == claims_outcome(sub@, exp, now),
{
    let secs = match now {
        Ok(secs) => secs,
        Err(e) => return Err(AuthError::Internal(e)),
    };
    let expiry = exp as i128;
    let clock = secs as i128;
    if expiry + (EXPIRY_LEEWAY_SECS as i128) < clock {
        return Err(AuthError::InvalidCredentials);
    }
    if expiry < clock {
        return Err(AuthError::TokenExpired);
    }
    match user_id_from_str(sub) {
        None => Err(AuthError::InvalidCredentials),
        Some(user_id) => Ok(TokenClaims { user_id, expires_at: exp }),
    }
}

/// Issues and checks session tokens.
pub trait TokenService: Send + Sync {
    fn issue(&self, user_id: &UserId) -> Result<String, AuthError>;

    fn verify(&self, token: &str) -> Result<TokenClaims, AuthError>;
}

/// Session tokens signed with HMAC-SHA256 under a shared secret.
pub struct JwtTokenService {
    secret: Vec<u8>,
    ttl_secs: u64,
}

impl JwtTokenService {
    /// The HMAC key: the bytes of the secret.
    pub closed spec fn secret(&self) -> Seq<u8> {
        self.secret@
    }

    /// How long an issued token stays valid, in seconds.
    pub closed spec fn ttl(&self) -> u64 {
        self.ttl_secs
    }

    #[verifier::type_invariant]
    spec fn ttl_is_fixed(&self) -> bool {
        self.ttl_secs == TOKEN_TTL_SECS
    }

    pub fn new(secret: &str) -> (s: Self)
        ensures
            s.secret() == encode_utf8(secret@),
            s.ttl() == TOKEN_TTL_SECS,
    {
        JwtTokenService { secret: secret.as_bytes_vec(), ttl_secs: TOKEN_TTL_SECS }
    }

    /// Issues a token for `user_id` given the clock's reading `now`: it
    /// expires `ttl` seconds after `now`.
    pub fn issue_at(&self, user_id: &UserId, now: Result<u64, String>) -> (r: Result<String, AuthError>)
        ensures
            now is Err ==> r == Err::<String, AuthError>(AuthError::Internal(now->Err_0)),
            r matches Ok(t) ==> now matches Ok(secs) && secs + self.ttl() <= MAX_EXPIRY
                && issued_for(self.secret(), t@, *user_id, (secs + self.ttl()) as i64),
            r matches Err(e) ==> e is Internal,
            now matches Ok(secs) && secs <= MAX_EXPIRY - self.ttl() ==> r is Ok,
    {
        proof {
            use_type_invariant(self);
        }
        let secs = match now {
            Ok(secs) => secs,
            Err(e) => return Err(AuthError::Internal(e)),
        };
        if secs > MAX_EXPIRY - self.ttl_secs {
            return Err(AuthError::Internal(String::from_str("system time out of range")));
        }
        let exp = (secs + self.ttl_secs) as i64;
        let sub = user_id_to_string(*user_id);
        match jwt_encode_hs256(self.secret.as_slice(), sub.as_str(), exp) {
            Ok(token) => Ok(token),
            Err(e) => Err(AuthError::Internal(e)),
        }
    }

    /// Checks a token given the clock's reading `now`: its signature and
    /// claims under the secret, then its expiry and subject.
    pub fn verify_at(&self, token: &str, now: Result<u64, String>) -> (r: Result<TokenClaims, AuthError>)
        ensures
            r == token_outcome(self.secret(), token@, now),
    {
        match jwt_decode_hs256(self.secret.as_slice(), token) {
            None => Err(AuthError::InvalidCredentials),
            Some((sub, exp)) => check_claims(sub.as_str(), exp, now),
        }
    }
}

impl TokenService for JwtTokenService {
    /// Issues a token for `user_id` that expires `ttl` seconds after the
    /// clock's reading (so its expiry is at least `ttl`).
    fn issue(&self, user_id: &UserId) -> (r: Result<String, AuthError>)
        ensures
            r matches Ok(t) ==> exists|exp: i64|
                #[trigger] issued_for(self.secret(), t@, *user_id, exp) && exp >= self.ttl(),
            r matches Err(e) ==> e is Internal,
    {
        self.issue_at(user_id, unix_now())
    }

    /// Accepts a token that is signed under the secret, has not expired and
    /// names a user id; gives back its claims. The outcome is that of
    /// `verify_at` at the clock's reading.
    fn verify(&self, token: &str) -> (r: Result<TokenClaims, AuthError>)
        ensures
            exists|now: Result<u64, String>| r == token_outcome(self.secret(), token@, now),
            jwt_hs256_claims(self.secret(), token@) is None ==> r == Err::<TokenClaims, AuthError>(
                AuthError::InvalidCredentials,
            ),
    {
        let now = unix_now();
        let r = self.verify_at(token, now);
        assert(r == token_outcome(self.secret(), token@, now));
        r
    }
}

/// The claims that a token issued for a user gives back, whenever it is
/// accepted, are that user and the expiry it was issued with.
pub proof fn lemma_verify_gives_back_issued_user(
    secret: Seq<u8>,
    token: Seq<char>,
    id: UserId,
    exp: i64,
    now: Result<u64, String>,
)
    requires
        issued_for(secret, token, id, exp),
    ensures
        token_outcome(secret, token, now) matches Ok(c) ==> c == (TokenClaims {
            user_id: id,
            expires_at: exp,
        }),
{
}

/// A token issued for a user is accepted, with that user and expiry, at any
/// time up to its expiry; after it, it is refused with `TokenExpired` within
/// the leeway and with `InvalidCredentials` beyond it.
pub proof fn lemma_issued_token_accepted_until_expiry(
    secret: Seq<u8>,
    token: Seq<char>,
    id: UserId,
    exp: i64,
    secs: u64,
)
    requires
        issued_for(secret, token, id, exp),
    ensures
        secs <= exp ==> token_outcome(secret, token, Ok(secs)) == Ok::<TokenClaims, AuthError>(
            TokenClaims { user_id: id, expires_at: exp },
        ),
        exp < secs <= exp + EXPIRY_LEEWAY_SECS ==> token_outcome(secret, token, Ok(secs))
            == Err::<TokenClaims, AuthError>(AuthError::TokenExpired),
        exp + EXPIRY_LEEWAY_SECS < secs ==> token_outcome(secret, token, Ok(secs)) == Err::<
            TokenClaims,
            AuthError,
        >(AuthError::InvalidCredentials),
{
}

/// A token that the service issued at the clock reading `issued` is
/// accepted, with the user and an expiry `ttl` seconds later, at every clock
/// reading `now` up to that expiry.
pub proof fn lemma_issued_token_accepted_within_ttl(
    service: JwtTokenService,
    token: Seq<char>,
    id: UserId,
    issued: u64,
    now: u64,
)
    requires
        issued + service.ttl() <= MAX_EXPIRY,
        issued_for(service.secret(), token, id, (issued + service.ttl()) as i64),
        now <= issued + service.ttl(),
    ensures
        token_outcome(service.secret(), token, Ok(now)) == Ok::<TokenClaims, AuthError>(
            TokenClaims { user_id: id, expires_at: (issued + service.ttl()) as i64 },
        ),
{
    lemma_issued_token_accepted_until_expiry(
        service.secret(),
        token,
        id,
        (issued + service.ttl()) as i64,
        now,
    );
}

/// Checking the claims of a validly signed token at a clock reading: a
/// subject that reads as a user id and an expiry not before the reading
/// give back that user and expiry; an expiry up to 60 seconds in the past
/// is `TokenExpired`, one further back `InvalidCredentials`; a subject that
/// is no user id is `InvalidCredentials`; a clock error is `Internal`.
/// Tokens live an hour.
pub proof fn lemma_claims_checked_against_clock(sub: Seq<char>, exp: i64, secs: u64, clock_error: String)
    ensures
        secs <= exp ==> claims_outcome(sub, exp, Ok(secs)) == (match uuid_parse(sub) {
            Some(id) => Ok::<TokenClaims, AuthError>(TokenClaims { user_id: id, expires_at: exp }),
            None => Err(AuthError::InvalidCredentials),
        }),
        exp < secs <= exp + 60 ==> claims_outcome(sub, exp, Ok(secs)) == Err::<
            TokenClaims,
            AuthError,
        >(AuthError::TokenExpired),
        exp + 60 < secs ==> claims_outcome(sub, exp, Ok(secs)) == Err::<TokenClaims, AuthError>(
            AuthError::InvalidCredentials,
        ),
        claims_outcome(sub, exp, Err(clock_error)) == Err::<TokenClaims, AuthError>(
            AuthError::Internal(clock_error),
        ),
        TOKEN_TTL_SECS == 3600,
{
}

/// A token that does not decode under the secret is refused as invalid,
/// whatever the clock says.
pub proof fn lemma_undecodable_token_refused(secret: Seq<u8>, token: Seq<char>, now: Result<u64, String>)
    requires
        jwt_hs256_claims(secret, token) is None,
    ensures
        token_outcome(secret, token, now) == Err::<TokenClaims, AuthError>(AuthError::InvalidCredentials),
{
}

} // verus!
