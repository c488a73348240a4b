use vstd::prelude::*;

verus! {

/// Lifetime of an issued token, in seconds: sixty minutes.
pub const TOKEN_LIFETIME_SECONDS: u64 = 3600;

/// The claims carried by an identity token: the subject (an account
/// identifier in string form) and the issued-at and expiry instants, in
/// seconds since the Unix epoch.
#[derive(Clone, Debug)]
pub struct TokenClaims {
    pub sub: String,
    pub iat: u64,
    pub exp: u64,
}

/// How token verification fails: one uniform error, whether the cause was a
/// bad signature, a malformed token or expiry — the caller is not told which.
/// Issuing has no failure path at all.
#[derive(Clone, Copy, PartialEq, Eq, Structural, Debug)]
pub enum TokenError {
    InvalidTokenError,
}

/// The token string produced by jsonwebtoken's HS256 encoding of the given
/// claims under the given secret: deterministic in its arguments under the
/// crate's default crypto provider, which nothing here replaces.
pub uninterp spec fn signed_token_of(sub: Seq<char>, iat: u64, exp: u64, secret: Seq<char>) -> Seq<
    char,
>;

/// What jsonwebtoken's HS256 decoding — signature check included, time check
/// left to the caller — makes of a token under a secret: the `(sub, iat,
/// exp)` claims when the token is well formed and the signature matches,
/// nothing otherwise. Deterministic in its arguments under the crate's
/// default crypto provider, which nothing here replaces.
pub uninterp spec fn decoded_claims(token: Seq<char>, secret: Seq<char>) -> Option<
    (Seq<char>, u64, u64),
>;

/// Relies on jsonwebtoken::encode with HS256 and the default header: the
/// token is a deterministic function of the claims and the secret, and
/// decoding it under the same secret yields those claims back. Per the source
/// the call cannot fail here — HMAC-SHA256 accepts a secret of any length,
/// and serializing a string-keyed JSON value is infallible — so the result is
/// unwrapped.
#[verifier::external_body]
fn jwt_encode(sub: &str, iat: u64, exp: u64, secret: &str) -> (r: String)
    ensures
        r@ == signed_token_of(sub@, iat, exp, secret@),
        decoded_claims(r@, secret@) == Some((sub@, iat, exp)),
{
    let mut claims = serde_json::Map::new();
    claims.insert("sub".to_string(), serde_json::Value::from(sub));
    claims.insert("iat".to_string(), serde_json::Value::from(iat));
    claims.insert("exp".to_string(), serde_json::Value::from(exp));
    jsonwebtoken::encode(
        &jsonwebtoken::Header::default(),
        &serde_json::Value::Object(claims),
        &jsonwebtoken::EncodingKey::from_secret(secret.as_bytes()),
    ).expect("HS256 signing of string-keyed claims cannot fail")
}

/// Relies on jsonwebtoken::decode with HS256: it accepts exactly the tokens
/// whose signature matches the secret and reads the claims back out; the
/// expiry check is switched off here and done by the verified caller. Of the
/// default validation the rest stays: a token carrying an `aud` claim is
/// rejected (none that this library issues carries one) — a deterministic
/// check, so the result is still a function of token and secret alone.
#[verifier::external_body]
fn jwt_decode(token: &str, secret: &str) -> (r: Option<(String, u64, u64)>)
    ensures
        r is Some <==> decoded_claims(token@, secret@) is Some,
        r matches Some(c) ==> decoded_claims(token@, secret@) == Some((c.0@, c.1, c.2)),
{
    let mut validation = jsonwebtoken::Validation::default();
    validation.validate_exp = false;
    let key = jsonwebtoken::DecodingKey::from_secret(secret.as_bytes());
    let data = jsonwebtoken::decode::<serde_json::Value>(token, &key, &validation).ok()?;
    let sub = data.claims.get("sub")?.as_str()?.to_string();
    let iat = data.claims.get("iat")?.as_u64()?;
    let exp = data.claims.get("exp")?.as_u64()?;
    Some((sub, iat, exp))
}

/// Relies on chrono::Utc::now: seconds since the Unix epoch as the system
/// clock reports them. Nothing is promised of the value; per the source the
/// call panics if the machine clock is set before the epoch.
#[verifier::external_body]
fn now_unix_seconds() -> (r: i64) {
    chrono::Utc::now().timestamp()
}

/// The clock, clamped below at the epoch so it can be carried as an unsigned
/// timestamp that a token lifetime can be added to without overflow.
pub fn current_timestamp() -> (r: u64)
    ensures
        r <= i64::MAX as u64,
{
    let t = now_unix_seconds();
    if t < 0 {
        0
    } else {
        t as u64
    }
}

/// What verifying `token` under `secret` at instant `now` yields: the decoded
/// claims when the signature matches and the token has not yet expired,
/// nothing otherwise.
pub open spec fn token_verification(token: Seq<char>, secret: Seq<char>, now: u64) -> Option<
    (Seq<char>, u64, u64),
> {
    match decoded_claims(token, secret) {
        Some(c) => if now < c.2 {
            Some(c)
        } else {
            None
        },
        None => None,
    }
}

/// Issue a token for `sub` as of instant `now`: issued at `now`, expiring
/// `TOKEN_LIFETIME_SECONDS` later, signed with `secret`. No failure path is
/// exposed: signing with a symmetric secret cannot fail.
pub fn issue_token_at(sub: &str, secret: &str, now: u64) -> (r: String)
    requires
        now + TOKEN_LIFETIME_SECONDS <= u64::MAX,
    ensures
        r@ == signed_token_of(sub@, now, (now + TOKEN_LIFETIME_SECONDS) as u64, secret@),
        decoded_claims(r@, secret@) == Some(
            (sub@, now, (now + TOKEN_LIFETIME_SECONDS) as u64),
        ),
{
    let exp = now + TOKEN_LIFETIME_SECONDS;
    jwt_encode(sub, now, exp, secret)
}

/// Issue a token for an account identifier with the configured lifetime,
/// reading the clock for the issued-at instant. No failure path is exposed.
pub fn create_token(user_id: &str, jwt_secret: &str) -> (r: String)
    ensures
        decoded_claims(r@, jwt_secret@) matches Some(c) ==> c.0 == user_id@ && c.2 == c.1
            + TOKEN_LIFETIME_SECONDS,
        decoded_claims(r@, jwt_secret@) is Some,
{
    let now = current_timestamp();
    issue_token_at(user_id, jwt_secret, now)
}

/// Verify a token against a secret at instant `now`. Succeeds exactly when
/// the signature matches and `now` is before the expiry claim; every failure
/// is the one uniform invalid-token error.
pub fn verify_token(token: &str, secret: &str, now: u64) -> (r: Result<TokenClaims, TokenError>)
    ensures
        r is Ok <==> token_verification(token@, secret@, now) is Some,
        r matches Ok(c) ==> token_verification(token@, secret@, now) == Some(
            (c.sub@, c.iat, c.exp),
        ),
        r matches Err(e) ==> e == TokenError::InvalidTokenError,
{
    match jwt_decode(token, secret) {
        Some((sub, iat, exp)) => {
            if now < exp {
                Ok(TokenClaims { sub, iat, exp })
            } else {
                Err(TokenError::InvalidTokenError)
            }
        },
        None => Err(TokenError::InvalidTokenError),
    }
}

/// Law: a token that decodes to claims `(sub, iat, exp)` under `secret` — as
/// any token issued for `sub` does, by the contract of `issue_token_at` —
/// verifies successfully at every instant before `exp` and yields that same
/// subject back.
pub proof fn lemma_issued_token_verifies(
    token: Seq<char>,
    secret: Seq<char>,
    sub: Seq<char>,
    iat: u64,
    exp: u64,
    now: u64,
)
    requires
        decoded_claims(token, secret) == Some((sub, iat, exp)),
        now < exp,
    ensures
        token_verification(token, secret, now) == Some((sub, iat, exp)),
{
}

/// Law: from the expiry instant on, verification fails, whatever the secret
/// and however the token was made.
pub proof fn lemma_expired_token_rejected(token: Seq<char>, secret: Seq<char>, now: u64)
    requires
        decoded_claims(token, secret) matches Some(c) ==> now >= c.2,
    ensures
        token_verification(token, secret, now) is None,
{
}

} // verus!
