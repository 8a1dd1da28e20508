//! The RPC front: thin adapters that extract credentials or a token string
//! from an inbound call (request body field, or an `authorization` metadata
//! value with an optional `"Bearer "` prefix) and map the engine's results
//! onto wire-shaped responses. Every rejection carries the one generic
//! invalid-argument status; the precise failure kind stays server-side.

use vstd::prelude::*;
use vstd::string::StrSliceExecFns;

use crate::token::{
    issue_jwt_token, get_info_from_token, issued_at, revoke_token, validate_spec, Claims,
    JWTConfig, TokenError,
};

verus! {

/// The request-handling service. It holds the signing configuration,
/// threaded in once at construction and read-only afterwards.
pub struct JWT {
    pub config: JWTConfig,
}

/// The response to a token exchange: the freshly issued token.
#[derive(Debug, Clone, PartialEq, Eq)]
pub struct ExchangeTokenResponse {
    pub token: String,
}

/// The response to a token-info call: the decoded claims, with the two
/// timestamps converted to signed integers for the wire.
#[derive(Debug, Clone, PartialEq, Eq)]
pub struct GetTokenInfoResponse {
    pub sub: String,
    pub iat: i64,
    pub exp: i64,
    pub email: String,
    pub iss: String,
}

/// The response to a revocation call.
#[derive(Debug, Clone, PartialEq, Eq)]
pub struct RevokeTokenResponse {
    pub success: bool,
}

/// An invalid-argument rejection: the one status every refused call gets,
/// with a human-readable message.
#[derive(Debug, Clone, PartialEq, Eq)]
pub struct Rejection {
    pub message: String,
}

/// Whether `s` starts with `prefix`.
pub open spec fn seq_starts_with(s: Seq<char>, prefix: Seq<char>) -> bool {
    s.len() >= prefix.len() && s.take(prefix.len() as int) == prefix
}

/// An `authorization` value with any `"Bearer "` prefix removed.
pub open spec fn bearer_stripped(header: Seq<char>) -> Seq<char> {
    if seq_starts_with(header, "Bearer "@) {
        header.skip("Bearer "@.len() as int)
    } else {
        header
    }
}

/// The token a call supplies: the request-body field when present, else the
/// `authorization` metadata value with any `"Bearer "` prefix stripped, else
/// nothing.
pub open spec fn extracted_token(
    body_token: Option<Seq<char>>,
    authorization: Option<Seq<char>>,
) -> Option<Seq<char>> {
    match body_token {
        Some(t) => Some(t),
        None => match authorization {
            Some(h) => Some(bearer_stripped(h)),
            None => None,
        },
    }
}

/// The view of an optional string.
pub open spec fn opt_view(o: Option<&str>) -> Option<Seq<char>> {
    match o {
        Some(s) => Some(s@),
        None => None,
    }
}

/// Whether `s` starts with `prefix`, by characters.
pub fn str_starts_with(s: &str, prefix: &str) -> (r: bool)
    ensures
        r == seq_starts_with(s@, prefix@),
{
    let n: usize = s.unicode_len();
    let m: usize = prefix.unicode_len();
    if n < m {
        return false;
    }
    let mut i: usize = 0;
    while i < m
        invariant
            m <= n,
            n == s@.len(),
            m == prefix@.len(),
            i <= m,
            forall|j: int| 0 <= j < i ==> s@[j] == prefix@[j],
        decreases m - i,
    {
        if s.get_char(i) != prefix.get_char(i) {
            assert(s@.take(m as int) != prefix@) by {
                assert(s@.take(m as int)[i as int] == s@[i as int]);
            }
            return false;
        }
        i += 1;
    }
    assert(s@.take(m as int) =~= prefix@);
    true
}

/// Removes a leading `"Bearer "` from an `authorization` value, handing back
/// the stripped copy that validation must actually use.
pub fn strip_bearer(header: &str) -> (r: &str)
    ensures
        r@ == bearer_stripped(header@),
{
    proof {
        reveal_strlit("Bearer ");
    }
    if str_starts_with(header, "Bearer ") {
        let n: usize = header.unicode_len();
        let stripped: &str = header.substring_char(7, n);
        assert(stripped@ =~= header@.skip(7));
        stripped
    } else {
        header
    }
}

/// Picks the token a call supplies: the body field when present, else the
/// stripped `authorization` value, checking presence before any use.
pub fn extract_token<'a>(body_token: Option<&'a str>, authorization: Option<&'a str>) -> (r:
    Option<&'a str>)
    ensures
        opt_view(r) == extracted_token(opt_view(body_token), opt_view(authorization)),
{
    match body_token {
        Some(t) => Some(t),
        None => match authorization {
            Some(h) => Some(strip_bearer(h)),
            None => None,
        },
    }
}

/// Converts an epoch-seconds value to the signed representation the wire
/// uses; lossless for every value up to `i64::MAX`.
pub fn unsigned_to_signed(u: u64) -> (r: i64)
    ensures
        r == u as i64,
        u <= i64::MAX ==> r == u,
{
    #[verifier::truncate]
    (u as i64)
}

/// Whether `resp` carries exactly the claims that validating `token` under
/// `secret` at time `now` yields, timestamps converted to signed integers.
pub open spec fn response_reported(
    resp: GetTokenInfoResponse,
    token: Seq<char>,
    secret: Seq<char>,
    now: u64,
) -> bool {
    match validate_spec(token, secret, now) {
        Ok(c) => resp.sub@ == c.0 && resp.iat == c.1 as i64 && resp.exp == c.2 as i64
            && resp.email@ == c.3 && resp.iss@ == c.4,
        Err(_) => false,
    }
}

/// What a token-info call must report. A call supplying no token is rejected
/// with the no-token message. A call supplying one gets, on success, a
/// response carrying exactly the claims its token validates to at some
/// reading of the clock; on failure, the generic rejection, and the token
/// indeed fails validation at some reading of the clock.
pub open spec fn get_info_reported(
    r: Result<GetTokenInfoResponse, Rejection>,
    body_token: Option<Seq<char>>,
    authorization: Option<Seq<char>>,
    secret: Seq<char>,
) -> bool {
    match extracted_token(body_token, authorization) {
        None => r matches Err(rej) && rej.message@ == "No token provided"@,
        Some(t) => match r {
            Ok(resp) => exists|now: u64| #[trigger] response_reported(resp, t, secret, now),
            Err(rej) => rej.message@ == "Get token info error"@ && exists|now: u64|
                (#[trigger] validate_spec(t, secret, now)) is Err,
        },
    }
}

impl JWT {
    /// Builds the service around the signing configuration.
    pub fn new(config: JWTConfig) -> (r: JWT)
        ensures
            r.config == config,
    {
        JWT { config }
    }

    /// Exchanges credentials for a fresh token. It always succeeds: neither
    /// the email nor the password is validated.
    pub fn exchange_token(&self, email: &str, password: &str) -> (r: ExchangeTokenResponse)
        ensures
            exists|iat: u64| #[trigger] issued_at(r.token@, email@, self.config.secret@, iat),
    {
        let token: String = issue_jwt_token(email, password, &self.config);
        let ghost tv: Seq<char> = token@;
        let r = ExchangeTokenResponse { token };
        proof {
            let iat0: u64 = choose|iat: u64|
                #[trigger] issued_at(tv, email@, self.config.secret@, iat);
            assert(issued_at(r.token@, email@, self.config.secret@, iat0));
        }
        r
    }

    /// Returns the decoded claims of the supplied token. A call without a
    /// token is rejected at once, with no validation attempted; a token that
    /// fails validation is rejected with the same generic status.
    pub fn get_token_info(&self, body_token: Option<&str>, authorization: Option<&str>) -> (r:
        Result<GetTokenInfoResponse, Rejection>)
        ensures
            get_info_reported(r, opt_view(body_token), opt_view(authorization), self.config.secret@),
    {
        let token_opt: Option<&str> = extract_token(body_token, authorization);
        match token_opt {
            None => {
                let r: Result<GetTokenInfoResponse, Rejection> = Err(
                    Rejection { message: "No token provided".to_owned() },
                );
                proof {
                    assert(get_info_reported(
                        r,
                        opt_view(body_token),
                        opt_view(authorization),
                        self.config.secret@,
                    ));
                }
                r
            },
            Some(t) => {
                let vres: Result<Claims, TokenError> = get_info_from_token(t, &self.config);
                let ghost now0: u64 = choose|now: u64|
                    #[trigger] crate::token::validation_reported(
                        vres,
                        t@,
                        self.config.secret@,
                        now,
                    );
                match vres {
                    Err(_) => {
                        let r: Result<GetTokenInfoResponse, Rejection> = Err(
                            Rejection { message: "Get token info error".to_owned() },
                        );
                        proof {
                            assert(validate_spec(t@, self.config.secret@, now0) is Err);
                            assert(get_info_reported(
                                r,
                                opt_view(body_token),
                                opt_view(authorization),
                                self.config.secret@,
                            ));
                        }
                        r
                    },
                    Ok(c) => {
                        let resp = GetTokenInfoResponse {
                            sub: c.sub,
                            iat: unsigned_to_signed(c.iat),
                            exp: unsigned_to_signed(c.exp),
                            email: c.email,
                            iss: c.iss,
                        };
                        let r: Result<GetTokenInfoResponse, Rejection> = Ok(resp);
                        proof {
                            assert(r matches Ok(resp2) && response_reported(
                                resp2,
                                t@,
                                self.config.secret@,
                                now0,
                            ));
                            assert(get_info_reported(
                                r,
                                opt_view(body_token),
                                opt_view(authorization),
                                self.config.secret@,
                            ));
                        }
                        r
                    },
                }
            },
        }
    }

    /// Revokes the supplied token. A call without a token is rejected before
    /// anything is dereferenced; with one, the stubbed engine check reports
    /// success unconditionally.
    pub fn revoke_token(&self, body_token: Option<&str>, authorization: Option<&str>) -> (r:
        Result<RevokeTokenResponse, Rejection>)
        ensures
            extracted_token(opt_view(body_token), opt_view(authorization)) is None ==> (
            r matches Err(rej) && rej.message@ == "No token provided"@),
            extracted_token(opt_view(body_token), opt_view(authorization)) is Some ==> (
            r matches Ok(resp) && resp.success == true),
    {
        let token_opt: Option<&str> = extract_token(body_token, authorization);
        match token_opt {
            None => Err(Rejection { message: "No token provided".to_owned() }),
            Some(t) => {
                let success: bool = revoke_token(t);
                Ok(RevokeTokenResponse { success })
            },
        }
    }
}

} // verus!
