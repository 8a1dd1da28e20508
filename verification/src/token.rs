//! The token engine: claim construction, signing, validation with issuer and
//! expiry enforcement, and the (stubbed) revocation check.
//!
//! Tokens are the standard three-segment signed wire format (header, payload,
//! signature, each base64url encoded, dot separated) signed with HMAC-SHA256
//! under a single shared secret. The engine is stateless: a token's validity
//! is determined purely by its signature and its embedded timestamps.

use vstd::prelude::*;
use vstd::string::StrSliceExecFns;

use jsonwebtoken::{decode, Algorithm, DecodingKey, Validation};
use serde_json::Value;

verus! {

/// Signing configuration: a single shared secret, loaded once at process
/// start, read-only afterwards, used both to sign and to verify.
#[derive(Clone)]
pub struct JWTConfig {
    pub secret: String,
}

/// Top-level configuration as the external loader hands it over.
#[derive(Clone)]
pub struct Config {
    pub jwt: JWTConfig,
}

/// The token payload: a coarse trust tier, the two timestamps (seconds since
/// the Unix epoch), the caller's email echoed verbatim, and the fixed issuer.
#[derive(Debug, Clone, PartialEq, Eq)]
pub struct Claims {
    pub sub: String,
    pub iat: u64,
    pub exp: u64,
    pub email: String,
    pub iss: String,
}

/// The closed set of validation-failure kinds. Every rejection is one of
/// these; a failed validation is reported, never a panic.
#[derive(Debug, Clone, Copy, PartialEq, Eq)]
pub enum TokenError {
    /// The token could not be decoded: wrong shape, undecodable segments,
    /// structurally invalid claims, or a signature that does not verify.
    Malformed,
    /// The issuer claim differs from the fixed issuer of this service.
    IssuerMismatch,
    /// The subject claim is structurally invalid (never produced here: this
    /// service sets no expected subject).
    SubjectMalformed,
    /// The token's expiry lies in the past.
    ExpiredSignature,
    /// The audience claim does not match (never produced here: this service
    /// sets no audience).
    AudienceMismatch,
    /// Any other verification failure.
    Unknown,
}

/// The fixed issuer constant identifying this service.
pub open spec fn issuer_spec() -> Seq<char> {
    "ColonD"@
}

/// The trusted email-domain suffix.
pub open spec fn trusted_suffix_spec() -> Seq<char> {
    "@colond.com"@
}

/// The subject marker of the trusted tier.
pub open spec fn trusted_marker_spec() -> Seq<char> {
    ":D"@
}

/// The subject marker of every other caller.
pub open spec fn guest_marker_spec() -> Seq<char> {
    "guest"@
}

/// Whether `s` ends in `suffix`.
pub open spec fn seq_ends_with(s: Seq<char>, suffix: Seq<char>) -> bool {
    s.len() >= suffix.len() && s.skip(s.len() - suffix.len()) == suffix
}

/// The subject tier an email is classified into: the trusted marker exactly
/// for emails ending in the trusted suffix, the guest marker for all others.
pub open spec fn subject_spec(email: Seq<char>) -> Seq<char> {
    if seq_ends_with(email, trusted_suffix_spec()) {
        trusted_marker_spec()
    } else {
        guest_marker_spec()
    }
}

/// The fixed issuer, as a value.
pub fn issuer() -> (r: &'static str)
    ensures
        r@ == issuer_spec(),
{
    "ColonD"
}

/// The trusted email-domain suffix, as a value.
pub fn trusted_suffix() -> (r: &'static str)
    ensures
        r@ == trusted_suffix_spec(),
{
    "@colond.com"
}

/// Whether `s` ends in `suffix`, by characters.
pub fn str_ends_with(s: &str, suffix: &str) -> (r: bool)
    ensures
        r == seq_ends_with(s@, suffix@),
{
    let n: usize = s.unicode_len();
    let m: usize = suffix.unicode_len();
    if n < m {
        return false;
    }
    let mut i: usize = 0;
    while i < m
        invariant
            m <= n,
            n == s@.len(),
            m == suffix@.len(),
            i <= m,
            forall|j: int| 0 <= j < i ==> s@[n - m + j] == suffix@[j],
        decreases m - i,
    {
        if s.get_char(n - m + i) != suffix.get_char(i) {
            assert(s@.skip(n - m) != suffix@) by {
                assert(s@.skip(n - m)[i as int] == s@[n - m + i]);
            }
            return false;
        }
        i += 1;
    }
    assert(s@.skip(n - m) =~= suffix@);
    true
}

/// What a signed token reads as: the token string produced for the given
/// subject, timestamps, email, issuer and secret. Signing is a deterministic
/// function of these alone.
pub uninterp spec fn token_of(
    sub: Seq<char>,
    iat: u64,
    exp: u64,
    email: Seq<char>,
    iss: Seq<char>,
    secret: Seq<char>,
) -> Seq<char>;

/// What signature verification plus payload decoding yields for a token
/// under a secret: the five claim fields (subject, issued-at, expiry, email,
/// issuer) when the token decodes, and nothing otherwise. With no clock
/// involved this is a function of the token and the secret alone.
pub uninterp spec fn decode_of(token: Seq<char>, secret: Seq<char>) -> Option<
    (Seq<char>, u64, u64, Seq<char>, Seq<char>),
>;

/// Relies on jsonwebtoken::get_current_timestamp: the wall clock as whole
/// seconds since the Unix epoch (it does not return if the clock reads
/// before the epoch). Nothing can be promised of the clock, so this has no
/// contract.
#[verifier::external_body]
fn now_seconds() -> u64 {
    jsonwebtoken::get_current_timestamp()
}

/// Relies on jsonwebtoken::encode with HS256 and a plain secret. The token
/// is a deterministic function of the claims and the secret (fixed header,
/// alphabetically ordered JSON payload, HMAC-SHA256), signing with an HMAC
/// secret never fails, and jsonwebtoken::decode under the same secret
/// recovers exactly the claims that were encoded.
#[verifier::external_body]
fn sign_claims(sub: &str, iat: u64, exp: u64, email: &str, iss: &str, secret: &str) -> (r: String)
    ensures
        r@ == token_of(sub@, iat, exp, email@, iss@, secret@),
        decode_of(r@, secret@) == Some((sub@, iat, exp, email@, iss@)),
{
    let mut claims = serde_json::Map::new();
    claims.insert("sub".to_owned(), serde_json::Value::from(sub));
    claims.insert("iat".to_owned(), serde_json::Value::from(iat));
    claims.insert("exp".to_owned(), serde_json::Value::from(exp));
    claims.insert("email".to_owned(), serde_json::Value::from(email));
    claims.insert("iss".to_owned(), serde_json::Value::from(iss));
    let key = jsonwebtoken::EncodingKey::from_secret(secret.as_bytes());
    jsonwebtoken::encode(&jsonwebtoken::Header::default(), &claims, &key).unwrap()
}

/// Relies on jsonwebtoken::decode with HS256: with the expiry check turned
/// off, the outcome — signature verification plus payload decoding — is a
/// deterministic function of the token and the secret alone, with no clock
/// involved. Every failure is reported as a malformed token.
#[verifier::external_body]
fn decode_signed(token: &str, secret: &str) -> (r: Result<
    (String, u64, u64, String, String),
    TokenError,
>)
    ensures
        r is Ok <==> decode_of(token@, secret@) is Some,
        (r matches Ok(c) ==> Some((c.0@, c.1, c.2, c.3@, c.4@)) == decode_of(token@, secret@)),
        (r matches Err(e) ==> e == TokenError::Malformed),
{
    let mut v = Validation::new(Algorithm::HS256);
    v.validate_exp = false;
    let key = DecodingKey::from_secret(secret.as_bytes());
    let data = decode::<Value>(token, &key, &v).map_err(|_| TokenError::Malformed)?.claims;
    let s = |k: &str| data.get(k).and_then(Value::as_str);
    let n = |k: &str| data.get(k).and_then(Value::as_u64);
    match (s("sub"), n("iat"), n("exp"), s("email"), s("iss")) {
        (Some(a), Some(b), Some(c), Some(d2), Some(e)) => Ok((a.to_owned(), b, c, d2.to_owned(), e.to_owned())),
        _ => Err(TokenError::Malformed),
    }
}

/// What issuing binds together: `token` is the token signed under `secret`
/// for `email` at time `iat`, carrying the email's subject tier, an expiry
/// exactly 30 seconds after `iat`, and the fixed issuer — and it decodes
/// back to those same claims under the same secret.
pub open spec fn issued_at(token: Seq<char>, email: Seq<char>, secret: Seq<char>, iat: u64) -> bool {
    &&& iat + 30 <= u64::MAX
    &&& token == token_of(
        subject_spec(email),
        iat,
        (iat + 30) as u64,
        email,
        issuer_spec(),
        secret,
    )
    &&& decode_of(token, secret) == Some(
        (subject_spec(email), iat, (iat + 30) as u64, email, issuer_spec()),
    )
}

/// Issues a signed token for `email` with issued-at time `iat`. The password
/// is accepted but never verified — credential checking is explicitly out of
/// scope — and it is not written to any log or output.
pub fn issue_jwt_token_at(email: &str, _password: &str, config: &JWTConfig, iat: u64) -> (token:
    String)
    requires
        iat + 30 <= u64::MAX,
    ensures
        issued_at(token@, email@, config.secret@, iat),
{
    let subject: &str = if str_ends_with(email, trusted_suffix()) {
        ":D"
    } else {
        "guest"
    };
    let exp: u64 = iat + 30;
    sign_claims(subject, iat, exp, email, issuer(), config.secret.as_str())
}

/// Issues a signed token for `email` with the issued-at time read from the
/// wall clock (capped so that the 30-second expiry window always fits).
pub fn issue_jwt_token(email: &str, password: &str, config: &JWTConfig) -> (token: String)
    ensures
        exists|iat: u64| #[trigger] issued_at(token@, email@, config.secret@, iat),
{
    let now: u64 = now_seconds();
    let iat: u64 = if now > u64::MAX - 30 {
        u64::MAX - 30
    } else {
        now
    };
    issue_jwt_token_at(email, password, config, iat)
}

/// The five decoded claim fields of a `Claims` value.
pub open spec fn claims_view(c: Claims) -> (Seq<char>, u64, u64, Seq<char>, Seq<char>) {
    (c.sub@, c.iat, c.exp, c.email@, c.iss@)
}

/// What validating a token under a secret at time `now` must yield: the
/// decoded claims when the token decodes, carries the fixed issuer, and has
/// not expired; otherwise the exact failure kind.
pub open spec fn validate_spec(token: Seq<char>, secret: Seq<char>, now: u64) -> Result<
    (Seq<char>, u64, u64, Seq<char>, Seq<char>),
    TokenError,
> {
    match decode_of(token, secret) {
        None => Err(TokenError::Malformed),
        Some(c) => if c.4 != issuer_spec() {
            Err(TokenError::IssuerMismatch)
        } else if c.2 < now {
            Err(TokenError::ExpiredSignature)
        } else {
            Ok(c)
        },
    }
}

/// Whether a validation result `r` reports exactly the outcome that
/// `validate_spec` prescribes for this token, secret and time.
pub open spec fn validation_reported(
    r: Result<Claims, TokenError>,
    token: Seq<char>,
    secret: Seq<char>,
    now: u64,
) -> bool {
    match r {
        Ok(c) => validate_spec(token, secret, now) == Ok::<_, TokenError>(claims_view(c)),
        Err(e) => validate_spec(token, secret, now) == Err::<
            (Seq<char>, u64, u64, Seq<char>, Seq<char>),
            TokenError,
        >(e),
    }
}

/// Validates a token at the given time: the signature must verify under the
/// shared secret, the issuer claim must equal the fixed issuer, and the
/// expiry must not lie before `now`. Success returns the decoded claims
/// unchanged; every failure is one of the closed error kinds.
pub fn validate_token_at(token: &str, config: &JWTConfig, now: u64) -> (r: Result<
    Claims,
    TokenError,
>)
    ensures
        validation_reported(r, token@, config.secret@, now),
{
    match decode_signed(token, config.secret.as_str()) {
        Err(e) => Err(e),
        Ok(t) => {
            let c = Claims { sub: t.0, iat: t.1, exp: t.2, email: t.3, iss: t.4 };
            let expected: String = issuer().to_owned();
            if !(c.iss == expected) {
                Err(TokenError::IssuerMismatch)
            } else if c.exp < now {
                Err(TokenError::ExpiredSignature)
            } else {
                Ok(c)
            }
        },
    }
}

/// Validates a token against the wall clock. On success the decoded claims
/// come back unchanged; on failure the kind says what was wrong.
pub fn get_info_from_token(token: &str, config: &JWTConfig) -> (r: Result<Claims, TokenError>)
    ensures
        exists|now: u64| #[trigger] validation_reported(r, token@, config.secret@, now),
{
    let now: u64 = now_seconds();
    validate_token_at(token, config, now)
}

/// Accepts any token string and unconditionally reports success: revocation
/// is not implemented, no revocation list is consulted or updated, and a
/// token "revoked" this way still validates afterwards.
pub fn revoke_token(_token: &str) -> (r: bool)
    ensures
        r == true,
{
    true
}

/// Subject tiers: an email ending in the trusted suffix is classified with
/// the trusted-tier marker, and every other email with the guest marker.
pub proof fn lemma_subject_tier(email: Seq<char>)
    ensures
        seq_ends_with(email, trusted_suffix_spec()) ==> subject_spec(email)
            == trusted_marker_spec(),
        !seq_ends_with(email, trusted_suffix_spec()) ==> subject_spec(email)
            == guest_marker_spec(),
{
}

/// Round trip: a token issued for any email and any password validates, at
/// any time up to 30 seconds after issuance, to claims carrying that same
/// email, the fixed issuer, the email's subject tier, the issue time, and an
/// expiry exactly 30 seconds after it; at any later time validation fails
/// with exactly the expired-signature kind.
pub fn issue_then_validate_at(
    email: &str,
    password: &str,
    config: &JWTConfig,
    iat: u64,
    now: u64,
) -> (r: Result<Claims, TokenError>)
    requires
        iat + 30 <= u64::MAX,
    ensures
        now <= iat + 30 ==> (r matches Ok(c) && c.email@ == email@ && c.iss@ == issuer_spec()
            && c.sub@ == subject_spec(email@) && c.iat == iat && c.exp == iat + 30),
        now > iat + 30 ==> r == Result::<Claims, TokenError>::Err(TokenError::ExpiredSignature),
{
    let token: String = issue_jwt_token_at(email, password, config, iat);
    validate_token_at(token.as_str(), config, now)
}

/// Revocation is a stub: it reports success for any string and changes no
/// state, so the very same token still validates exactly as `validate_spec`
/// prescribes after it was "revoked".
pub fn revoke_then_validate_at(token: &str, config: &JWTConfig, now: u64) -> (r: (
    bool,
    Result<Claims, TokenError>,
))
    ensures
        r.0 == true,
        validation_reported(r.1, token@, config.secret@, now),
{
    let revoked: bool = revoke_token(token);
    (revoked, validate_token_at(token, config, now))
}

} // verus!
