//! Issuing and validating the bearer tokens that authenticate requests,
//! built on the jsonwebtoken crate with HMAC-SHA256 signatures.
//!
//! A signed token is a deterministic function of the claims and the secret,
//! so it is given a name, `token_of`. Expiry is checked in verified code:
//! `validate_token_at` takes the clock value as an argument and carries the
//! exact contract, and `validate_token` merely binds it to the current time.

use vstd::prelude::*;

verus! {

/// Seconds a freshly issued token stays valid: 24 hours.
pub const TOKEN_LIFETIME_SECS: u64 = 86400;

/// Claims carried by a bearer token: subject name, subject identifier, and
/// expiry as unix seconds.
#[derive(Debug, Clone, PartialEq, Eq)]
pub struct Claims {
    pub sub: String,
    pub id: u64,
    pub exp: u64,
}

/// Why a token operation failed: the token did not verify (bad signature,
/// malformed structure, or expiry not in the future), or no token could be
/// issued because the clock value would overflow the expiry.
#[derive(Debug, Clone, Copy, PartialEq, Eq, Structural)]
pub enum TokenError {
    InvalidToken,
    SigningFailed,
}

/// The signed token that encodes the claims `(sub, id, exp)` under `secret`:
/// the HS256-signed compact serialization, a deterministic function of its
/// arguments.
pub uninterp spec fn token_of(sub: Seq<char>, id: u64, exp: u64, secret: Seq<char>) -> Seq<char>;

/// Relies on jsonwebtoken::encode with the default HS256 header: the token
/// it returns is computed from the claims and the secret alone, and the
/// call cannot fail for this algorithm and key kind (the HMAC signer
/// accepts secret keys of every length, and serializing this claims object
/// cannot err), so a token is always returned. The compact serialization
/// (header, claims and signature joined by dots) is never empty.
#[verifier::external_body]
fn jwt_encode(sub: &str, id: u64, exp: u64, secret: &str) -> (r: String)
    ensures
        r@ == token_of(sub@, id, exp, secret@),
        r@.len() > 0,
{
    let mut claims = serde_json::Map::new();
    claims.insert("sub".to_owned(), serde_json::Value::from(sub));
    claims.insert("id".to_owned(), serde_json::Value::from(id));
    claims.insert("exp".to_owned(), serde_json::Value::from(exp));
    jsonwebtoken::encode(
        &jsonwebtoken::Header::default(),
        &serde_json::Value::Object(claims),
        &jsonwebtoken::EncodingKey::from_secret(secret.as_bytes()),
    )
    .expect("HS256 signing with a secret key does not fail")
}

/// The decoding outcome `r` recovers the claims of every token built by
/// `token_of` under `secret` from the string `token`.
pub open spec fn decodes_under(
    token: Seq<char>,
    secret: Seq<char>,
    r: Option<(String, u64, u64)>,
) -> bool {
    forall|s: Seq<char>, i: u64, e: u64|
        token == #[trigger] token_of(s, i, e, secret) ==> (r matches Some(c) && c.0@ == s
            && c.1 == i && c.2 == e)
}

/// Relies on jsonwebtoken::decode with HS256 and signature-only validation
/// (the expiry check is done by the caller): a token that
/// jsonwebtoken::encode produced from these claims under the same secret
/// decodes back to exactly these claims.
#[verifier::external_body]
fn jwt_decode(token: &str, secret: &str) -> (r: Option<(String, u64, u64)>)
    ensures
        decodes_under(token@, secret@, r),
{
    let mut validation = jsonwebtoken::Validation::new(jsonwebtoken::Algorithm::HS256);
    validation.validate_exp = false;
    validation.required_spec_claims.clear();
    let data = jsonwebtoken::decode::<serde_json::Value>(
        token,
        &jsonwebtoken::DecodingKey::from_secret(secret.as_bytes()),
        &validation,
    )
    .ok()?;
    let sub = data.claims.get("sub")?.as_str()?.to_owned();
    let id = data.claims.get("id")?.as_u64()?;
    let exp = data.claims.get("exp")?.as_u64()?;
    Some((sub, id, exp))
}

/// Relies on chrono::Utc::now: seconds since the unix epoch; a clock set
/// before 1970 is reported as zero.
#[verifier::external_body]
pub fn now_unix() -> (r: u64) {
    u64::try_from(chrono::Utc::now().timestamp()).unwrap_or(0)
}

/// Issues and validates bearer tokens under one server-held signing secret.
pub struct JwtManager {
    secret: String,
}

impl JwtManager {
    /// The signing secret, as contracts speak of it.
    pub closed spec fn spec_secret(self) -> Seq<char> {
        self.secret@
    }

    /// Builds a manager around the given signing secret.
    pub fn from_secret(secret: String) -> (r: JwtManager)
        ensures
            r.spec_secret() == secret@,
    {
        JwtManager { secret }
    }

    /// Issues the token for the subject whose expiry is
    /// `TOKEN_LIFETIME_SECS` past the given clock value.
    pub fn generate_token_at(&self, username: &str, id: u64, now: u64) -> (r: String)
        requires
            now + TOKEN_LIFETIME_SECS <= u64::MAX,
        ensures
            r@ == token_of(
                username@,
                id,
                (now + TOKEN_LIFETIME_SECS) as u64,
                self.spec_secret(),
            ),
            r@.len() > 0,
    {
        let exp = now + TOKEN_LIFETIME_SECS;
        jwt_encode(username, id, exp, self.secret.as_str())
    }

    /// Issues a token for the subject, expiring 24 hours from the current
    /// time; it fails only when the clock value would overflow the expiry.
    /// The exact contract is on `generate_token_at`.
    pub fn generate_token(&self, username: &str, id: u64) -> (r: Result<String, TokenError>)
        ensures
            r matches Ok(t) ==> exists|e: u64|
                t@ == #[trigger] token_of(username@, id, e, self.spec_secret()),
            r matches Err(e) ==> e == TokenError::SigningFailed,
    {
        let now = now_unix();
        if now > u64::MAX - TOKEN_LIFETIME_SECS {
            return Err(TokenError::SigningFailed);
        }
        Ok(self.generate_token_at(username, id, now))
    }

    /// Verifies the token's signature and checks that its expiry is past the
    /// given clock value. A token issued from claims `(s, i, e)` under this
    /// manager's secret validates exactly as long as the clock is before `e`,
    /// and then yields those claims back.
    pub fn validate_token_at(&self, token: &str, now: u64) -> (r: Result<Claims, TokenError>)
        ensures
            r matches Ok(c) ==> now < c.exp,
            r matches Err(e) ==> e == TokenError::InvalidToken,
            forall|s: Seq<char>, i: u64, e: u64|
                token@ == #[trigger] token_of(s, i, e, self.spec_secret()) && now < e ==> (
                r matches Ok(c) && c.sub@ == s && c.id == i && c.exp == e),
            forall|s: Seq<char>, i: u64, e: u64|
                token@ == #[trigger] token_of(s, i, e, self.spec_secret()) && now >= e ==> (
                r matches Err(err) && err == TokenError::InvalidToken),
    {
        match jwt_decode(token, self.secret.as_str()) {
            Some((sub, id, exp)) => {
                if now < exp {
                    Ok(Claims { sub, id, exp })
                } else {
                    Err(TokenError::InvalidToken)
                }
            },
            None => Err(TokenError::InvalidToken),
        }
    }

    /// Verifies the token against the current clock: whatever the clock
    /// read, a failure is `InvalidToken`, and a token issued under this
    /// manager's secret either yields back exactly the claims it encodes or
    /// is refused. The clock-exact contract is on `validate_token_at`.
    pub fn validate_token(&self, token: &str) -> (r: Result<Claims, TokenError>)
        ensures
            r matches Err(e) ==> e == TokenError::InvalidToken,
            forall|s: Seq<char>, i: u64, e: u64|
                token@ == #[trigger] token_of(s, i, e, self.spec_secret()) ==> ((r matches Ok(c)
                    && c.sub@ == s && c.id == i && c.exp == e) || (r matches Err(err) && err
                    == TokenError::InvalidToken)),
    {
        let now = now_unix();
        self.validate_token_at(token, now)
    }
}

} // verus!
