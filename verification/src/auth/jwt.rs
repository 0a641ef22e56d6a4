//! Access and refresh tokens (JWT signed with HS256) and token fingerprints.

use vstd::prelude::*;
use jsonwebtoken::{decode, DecodingKey, Validation};
use sha2::Digest;

use crate::errors::{is_validation_starting_with, DomainError, DomainResult, ErrorView};
use crate::ids::{now_micros, parse_uuid, uuid_parse, uuid_text, uuid_to_string};
use crate::text::{hex_lower, hex_string, str_eq, string_of};

verus! {

#[verifier::external_type_specification]
#[verifier::external_body]
pub struct ExJwtError(jsonwebtoken::errors::Error);

/// The two kinds of token that the service issues.
#[derive(Debug, Clone, Copy, PartialEq, Eq, Structural)]
pub enum TokenKind {
    /// Short-lived, presented with each request.
    Access,
    /// Long-lived, exchanged for a new pair of tokens.
    Refresh,
}

/// The `token_type` claim written for a kind of token.
pub open spec fn kind_text(kind: TokenKind) -> Seq<char> {
    match kind {
        TokenKind::Access => "access"@,
        TokenKind::Refresh => "refresh"@,
    }
}

impl TokenKind {
    /// The `token_type` claim of this kind: `access` or `refresh`.
    pub fn as_str(&self) -> (s: &'static str)
        ensures
            s@ == kind_text(*self),
    {
        match self {
            TokenKind::Access => "access",
            TokenKind::Refresh => "refresh",
        }
    }
}

/// The claims a token carries.
#[derive(Debug)]
pub struct Claims {
    /// The user, as the hyphenated text of its UUID.
    pub sub: String,
    /// The tenant, as the hyphenated text of its UUID.
    pub tid: String,
    /// Expiry, in seconds since the Unix epoch.
    pub exp: u64,
    /// Issue time, in seconds since the Unix epoch.
    pub iat: u64,
    /// `access` or `refresh`.
    pub token_type: String,
}

/// The claims of a decoded token as they were found: each is `None` when it
/// is missing or of the wrong JSON type.
#[derive(Debug)]
pub struct ClaimFields {
    pub sub: Option<String>,
    pub tid: Option<String>,
    pub exp: Option<u64>,
    pub iat: Option<u64>,
    pub token_type: Option<String>,
}

/// The token that `jsonwebtoken::encode` makes, with the default header
/// (HS256) and the key `secret` (as UTF-8), of the JSON object
/// `{"sub":sub,"tid":tid,"exp":exp,"iat":iat,"token_type":token_type}`,
/// whose members stand in that order.
pub uninterp spec fn jwt_hs256(
    sub: Seq<char>,
    tid: Seq<char>,
    exp: u64,
    iat: u64,
    token_type: Seq<char>,
    secret: Seq<char>,
) -> Seq<char>;

/// The SHA-256 digest of `data`.
pub uninterp spec fn sha256(data: Seq<u8>) -> Seq<u8>;

/// Signs `claims` (`jsonwebtoken::encode` with the default header and
/// `EncodingKey::from_secret`, the claims written as a JSON object whose
/// members keep the order of the struct's fields). The key of the default
/// header, HS256, is of the family of a secret key, the header and a JSON
/// object of strings and integers always serialise, and HMAC signing cannot
/// fail, so this always succeeds.
#[verifier::external_body]
fn jwt_encode(claims: &Claims, secret: &str) -> (r: Result<String, jsonwebtoken::errors::Error>)
    ensures
        r is Ok,
        r matches Ok(t) ==> t@ == jwt_hs256(
            claims.sub@,
            claims.tid@,
            claims.exp,
            claims.iat,
            claims.token_type@,
            secret@,
        ),
{
    let mut m = serde_json::Map::new();
    m.insert("sub".to_string(), serde_json::Value::from(claims.sub.as_str()));
    m.insert("tid".to_string(), serde_json::Value::from(claims.tid.as_str()));
    m.insert("exp".to_string(), serde_json::Value::from(claims.exp));
    m.insert("iat".to_string(), serde_json::Value::from(claims.iat));
    m.insert("token_type".to_string(), serde_json::Value::from(claims.token_type.as_str()));
    let key = jsonwebtoken::EncodingKey::from_secret(secret.as_bytes());
    jsonwebtoken::encode(&jsonwebtoken::Header::default(), &serde_json::Value::Object(m), &key)
}

/// The number of `.` in `s`.
pub open spec fn dot_count(s: Seq<char>) -> nat {
    s.filter(|c: char| c == '.').len()
}

/// The text of an optional string.
pub open spec fn opt_text(s: Option<String>) -> Option<Seq<char>> {
    match s {
        Some(t) => Some(t@),
        None => None,
    }
}

/// The abstract value of decoded claims: `sub`, `tid`, `exp`, `iat` and
/// `token_type`, each as found.
pub open spec fn fields_view(f: ClaimFields) -> (
    Option<Seq<char>>,
    Option<Seq<char>>,
    Option<u64>,
    Option<u64>,
    Option<Seq<char>>,
) {
    (opt_text(f.sub), opt_text(f.tid), f.exp, f.iat, opt_text(f.token_type))
}

/// Checks the signature of `token` with the key `secret` and picks out the
/// claims (`jsonwebtoken::decode` with `Validation::default()`, its expiry
/// check switched off, so that the result does not depend on the clock; the
/// claim `exp` must still be present). A token that `jwt_encode` made with
/// the same key always decodes, to the claims that were signed.
/// A token that is not three segments separated by `.` never decodes: with
/// fewer than two dots it does not split into header, payload and
/// signature, and with more the header holds a `.`, which is no Base64
/// character.
#[verifier::external_body]
fn jwt_decode(token: &str, secret: &str) -> (r: Result<ClaimFields, jsonwebtoken::errors::Error>)
    ensures
        dot_count(token@) != 2 ==> r is Err,
        forall|sub: Seq<char>, tid: Seq<char>, exp: u64, iat: u64, token_type: Seq<char>|
            #![trigger jwt_hs256(sub, tid, exp, iat, token_type, secret@)]
            token@ == jwt_hs256(sub, tid, exp, iat, token_type, secret@) ==> r is Ok && fields_view(
                r->Ok_0,
            ) == (Some(sub), Some(tid), Some(exp), Some(iat), Some(token_type)),
{
    let mut validation = Validation::default();
    validation.validate_exp = false;
    let key = DecodingKey::from_secret(secret.as_bytes());
    let data = decode::<serde_json::Value>(token, &key, &validation)?;
    let c = &data.claims;
    Ok(ClaimFields {
        sub: c.get("sub").and_then(|v| v.as_str()).map(String::from),
        tid: c.get("tid").and_then(|v| v.as_str()).map(String::from),
        exp: c.get("exp").and_then(|v| v.as_u64()),
        iat: c.get("iat").and_then(|v| v.as_u64()),
        token_type: c.get("token_type").and_then(|v| v.as_str()).map(String::from),
    })
}

/// The SHA-256 digest of `data` (`Sha256::digest`); it is 32 bytes long.
#[verifier::external_body]
fn sha256_digest(data: &[u8]) -> (d: Vec<u8>)
    ensures
        d@ == sha256(data@),
        d@.len() == 32,
{
    sha2::Sha256::digest(data).to_vec()
}

/// Whether a token expiring at `exp` (seconds since the epoch) has expired
/// at the clock reading `now_micros` (microseconds since the epoch): its
/// expiry lies more than 60 seconds, the leeway of jsonwebtoken's default
/// validation, before the current second.
pub open spec fn expired_at(exp: u64, now_micros: i64) -> bool {
    exp + 60 < now_micros / 1_000_000
}

/// The time of issue and expiry, in whole seconds, of a token issued at
/// `now_micros` (microseconds since the epoch) that lasts `expiry_secs`, or
/// `None` when the expiry does not fit in 64 bits. A time before the epoch
/// is taken modulo 2^64, as a cast to an unsigned integer does.
pub open spec fn issue_times(now_micros: i64, expiry_secs: u64) -> Option<(u64, u64)> {
    let iat = (now_micros / 1_000_000) as u64;
    if iat + expiry_secs <= u64::MAX {
        Some((iat, (iat + expiry_secs) as u64))
    } else {
        None
    }
}

/// The token signed with `secret` for the claims of `user_id` and
/// `tenant_id` issued at `iat`, expiring at `exp`, of kind `kind`.
pub open spec fn token_for(
    secret: Seq<char>,
    user_id: u128,
    tenant_id: u128,
    iat: u64,
    exp: u64,
    kind: TokenKind,
) -> Seq<char> {
    jwt_hs256(uuid_text(user_id), uuid_text(tenant_id), exp, iat, kind_text(kind), secret)
}

/// The user and tenant that claims with these texts identify, if the
/// claims are of the expected kind and both identifiers parse.
pub open spec fn claims_identity(
    sub: Seq<char>,
    tid: Seq<char>,
    token_type: Seq<char>,
    expected: TokenKind,
) -> Option<(u128, u128)> {
    if token_type != kind_text(expected) {
        None
    } else {
        match (uuid_parse(sub), uuid_parse(tid)) {
            (Some(u), Some(t)) => Some((u, t)),
            _ => None,
        }
    }
}

/// Whole seconds since the epoch of a time in microseconds, rounded down.
pub fn seconds_of_micros(micros: i64) -> (secs: i64)
    ensures
        secs == micros / 1_000_000,
{
    if micros >= 0 {
        let s = (micros as u64) / 1_000_000;
        assert(s <= i64::MAX);
        s as i64
    } else {
        let a = (-(micros + 1)) as u64;
        let q = a / 1_000_000;
        assert(q * 1_000_000 <= a < q * 1_000_000 + 1_000_000) by (nonlinear_arith)
            requires
                q == a / 1_000_000,
        ;
        let secs = -(q as i64) - 1;
        assert(secs * 1_000_000 <= micros < secs * 1_000_000 + 1_000_000) by (nonlinear_arith)
            requires
                secs == -(q as int) - 1,
                a == -(micros + 1),
                q * 1_000_000 <= a < q * 1_000_000 + 1_000_000,
        ;
        assert(secs == micros / 1_000_000) by (nonlinear_arith)
            requires
                secs * 1_000_000 <= micros < secs * 1_000_000 + 1_000_000,
        ;
        secs
    }
}

/// The claims of a token of kind `kind` for `user_id` in `tenant_id`, issued
/// at `iat` and expiring at `exp`.
pub fn claims_for(user_id: u128, tenant_id: u128, iat: u64, exp: u64, kind: TokenKind) -> (c:
    Claims)
    ensures
        c.sub@ == uuid_text(user_id),
        c.tid@ == uuid_text(tenant_id),
        c.exp == exp,
        c.iat == iat,
        c.token_type@ == kind_text(kind),
{
    Claims {
        sub: uuid_to_string(user_id),
        tid: uuid_to_string(tenant_id),
        exp,
        iat,
        token_type: string_of(kind.as_str()),
    }
}

/// The claims of a decoded token, if every one of them was found with the
/// right type.
pub fn claims_from_fields(f: ClaimFields) -> (c: Option<Claims>)
    ensures
        match c {
            Some(c) => f.sub == Some(c.sub) && f.tid == Some(c.tid) && f.exp == Some(c.exp)
                && f.iat == Some(c.iat) && f.token_type == Some(c.token_type),
            None => f.sub is None || f.tid is None || f.exp is None || f.iat is None
                || f.token_type is None,
        },
{
    match (f.sub, f.tid, f.exp, f.iat, f.token_type) {
        (Some(sub), Some(tid), Some(exp), Some(iat), Some(token_type)) => Some(
            Claims { sub, tid, exp, iat, token_type },
        ),
        _ => None,
    }
}

/// The user and tenant identified by `claims`, which must be of kind
/// `expected`; `Unauthorized` when they are of another kind or an
/// identifier does not parse. Claims written for a user and a tenant give
/// them back.
pub fn identity_from_claims(claims: &Claims, expected: TokenKind) -> (r: DomainResult<(u128, u128)>)
    ensures
        match r {
            Ok(ids) => claims_identity(claims.sub@, claims.tid@, claims.token_type@, expected)
                == Some(ids),
            Err(e) => claims_identity(claims.sub@, claims.tid@, claims.token_type@, expected) is None
                && e@ == ErrorView::Unauthorized,
        },
        forall|u: u128, t: u128|
            claims.sub@ == uuid_text(u) && claims.tid@ == uuid_text(t) && claims.token_type@
                == kind_text(expected) ==> r == Ok::<(u128, u128), DomainError>((u, t)),
{
    if !str_eq(claims.token_type.as_str(), expected.as_str()) {
        return Err(DomainError::Unauthorized);
    }
    let user_id = match parse_uuid(claims.sub.as_str()) {
        Some(u) => u,
        None => {
            return Err(DomainError::Unauthorized);
        },
    };
    let tenant_id = match parse_uuid(claims.tid.as_str()) {
        Some(t) => t,
        None => {
            return Err(DomainError::Unauthorized);
        },
    };
    Ok((user_id, tenant_id))
}

/// Issues and checks the tokens of the system, and remembers the refresh
/// tokens that have been used up.
#[derive(Debug, Clone)]
pub struct JwtTokenService {
    secret: String,
    access_expiry_secs: u64,
    refresh_expiry_secs: u64,
    revoked: Vec<String>,
}

impl JwtTokenService {
    /// A service that signs with `secret` and issues access and refresh
    /// tokens lasting the given numbers of seconds.
    pub fn new(secret: String, access_expiry_secs: u64, refresh_expiry_secs: u64) -> (s: Self)
        ensures
            s.secret() == secret@,
            s.access_expiry_secs() == access_expiry_secs,
            s.refresh_expiry_secs() == refresh_expiry_secs,
            s.revoked_tokens() == Set::<Seq<char>>::empty(),
    {
        JwtTokenService { secret, access_expiry_secs, refresh_expiry_secs, revoked: Vec::new() }
    }

    /// The refresh tokens that have been revoked.
    pub closed spec fn revoked_tokens(&self) -> Set<Seq<char>> {
        Set::new(|t: Seq<char>| exists|i: int| 0 <= i < self.revoked@.len() && #[trigger] self.revoked@[i]@ == t)
    }

    /// Whether `token` has been revoked.
    pub fn is_revoked(&self, token: &str) -> (b: bool)
        ensures
            b == self.revoked_tokens().contains(token@),
    {
        let mut i: usize = 0;
        while i < self.revoked.len()
            invariant
                i <= self.revoked@.len(),
                forall|k: int| 0 <= k < i ==> #[trigger] self.revoked@[k]@ != token@,
            decreases self.revoked.len() - i,
        {
            if str_eq(self.revoked[i].as_str(), token) {
                assert(self.revoked@[i as int]@ == token@);
                return true;
            }
            i = i + 1;
        }
        false
    }

    /// The signing key.
    pub closed spec fn secret(&self) -> Seq<char> {
        self.secret@
    }

    /// How long an access token lasts, in seconds.
    pub closed spec fn access_expiry_secs(&self) -> u64 {
        self.access_expiry_secs
    }

    /// How long a refresh token lasts, in seconds.
    pub closed spec fn refresh_expiry_secs(&self) -> u64 {
        self.refresh_expiry_secs
    }

    /// How long a token of kind `kind` lasts, in seconds.
    pub open spec fn expiry_of(&self, kind: TokenKind) -> u64 {
        match kind {
            TokenKind::Access => self.access_expiry_secs(),
            TokenKind::Refresh => self.refresh_expiry_secs(),
        }
    }

    /// The token of kind `kind` for `user_id` in `tenant_id` issued at
    /// `now_micros` (microseconds since the epoch). It fails, with
    /// `Validation("Token generation failed: ..")`, exactly when the expiry
    /// does not fit in 64 bits.
    pub fn create_token_at(
        &self,
        user_id: u128,
        tenant_id: u128,
        now_micros: i64,
        kind: TokenKind,
    ) -> (r: DomainResult<String>)
        ensures
            match r {
                Ok(t) => issue_times(now_micros, self.expiry_of(kind)) matches Some(
                    times,
                ) && t@ == token_for(self.secret(), user_id, tenant_id, times.0, times.1, kind),
                Err(e) => issue_times(now_micros, self.expiry_of(kind)) is None
                    && is_validation_starting_with(e@, "Token generation failed: "@),
            },
    {
        let expiry = match kind {
            TokenKind::Access => self.access_expiry_secs,
            TokenKind::Refresh => self.refresh_expiry_secs,
        };
        let now_secs = seconds_of_micros(now_micros);
        let iat = now_secs as u64;
        if iat > u64::MAX - expiry {
            proof {
                reveal_strlit("Token generation failed: ");
                reveal_strlit("Token generation failed: expiry out of range");
                assert("Token generation failed: "@.is_prefix_of(
                    "Token generation failed: expiry out of range"@,
                ));
            }
            return Err(
                DomainError::Validation(string_of("Token generation failed: expiry out of range")),
            );
        }
        let exp = iat + expiry;
        let claims = claims_for(user_id, tenant_id, iat, exp, kind);
        match jwt_encode(&claims, self.secret.as_str()) {
            Ok(t) => Ok(t),
            Err(_) => {
                // `jwt_encode` always signs, so this arm is never taken.
                proof {
                    assert(false);
                }
                Err(DomainError::Validation(string_of("Token generation failed: signing failed")))
            },
        }
    }

    /// A token of kind `kind` for `user_id` in `tenant_id`, issued now.
    pub fn create_token(&self, user_id: u128, tenant_id: u128, kind: TokenKind) -> (r: DomainResult<
        String,
    >)
        ensures
            match r {
                Ok(t) => exists|now: i64|
                    #[trigger] issue_times(now, self.expiry_of(kind)) matches Some(times) && t@
                        == token_for(self.secret(), user_id, tenant_id, times.0, times.1, kind),
                Err(e) => (exists|now: i64| #[trigger] issue_times(now, self.expiry_of(kind)) is None)
                    && is_validation_starting_with(e@, "Token generation failed: "@),
            },
    {
        let now = now_micros();
        self.create_token_at(user_id, tenant_id, now, kind)
    }

    /// The user and tenant of `token` at the clock reading `now_micros`
    /// (microseconds since the epoch). The token must carry a valid signature
    /// of this service's key, must not have expired (its `exp` may lie up to
    /// 60 seconds in the past, the leeway of jsonwebtoken's default
    /// validation) and must be of kind `expected`; every failure is
    /// `Unauthorized`. A token that this service issued decodes exactly when
    /// it is of the expected kind and has not expired, whenever it was
    /// issued.
    pub fn decode_token_at(&self, token: &str, expected: TokenKind, now_micros: i64) -> (r: DomainResult<(u128, u128)>)
        ensures
            match r {
                Ok(ids) => exists|sub: Seq<char>, tid: Seq<char>, token_type: Seq<char>|
                    #[trigger] claims_identity(sub, tid, token_type, expected) == Some(ids),
                Err(e) => e@ == ErrorView::Unauthorized,
            },
            dot_count(token@) != 2 ==> r is Err,
            forall|user_id: u128, tenant_id: u128, iat: u64, exp: u64, kind: TokenKind|
                #[trigger] token_for(self.secret(), user_id, tenant_id, iat, exp, kind) == token@
                    ==> r == if kind == expected && !expired_at(exp, now_micros) {
                    Ok::<(u128, u128), DomainError>((user_id, tenant_id))
                } else {
                    Err::<(u128, u128), DomainError>(DomainError::Unauthorized)
                },
    {
        let decoded = jwt_decode(token, self.secret.as_str());
        let fields = match decoded {
            Ok(f) => f,
            Err(_) => {
                return Err(DomainError::Unauthorized);
            },
        };
        let ghost fv = fields_view(fields);
        let claims = match claims_from_fields(fields) {
            Some(c) => c,
            None => {
                return Err(DomainError::Unauthorized);
            },
        };
        let now_secs = seconds_of_micros(now_micros);
        let expired = now_secs > 60 && (claims.exp as u128) + 60 < (now_secs as u128);
        if expired {
            return Err(DomainError::Unauthorized);
        }
        let r = identity_from_claims(&claims, expected);
        proof {
            reveal_strlit("access");
            reveal_strlit("refresh");
            assert(kind_text(TokenKind::Access) != kind_text(TokenKind::Refresh)) by {
                assert(kind_text(TokenKind::Access).len() != kind_text(TokenKind::Refresh).len());
            }
            assert forall|user_id: u128, tenant_id: u128, iat: u64, exp: u64, kind: TokenKind|
                #[trigger] token_for(self.secret(), user_id, tenant_id, iat, exp, kind) == token@
                    implies r == if kind == expected && !expired_at(exp, now_micros) {
                    Ok::<(u128, u128), DomainError>((user_id, tenant_id))
                } else {
                    Err::<(u128, u128), DomainError>(DomainError::Unauthorized)
                } by {
                assert(token@ == jwt_hs256(uuid_text(user_id), uuid_text(tenant_id), exp, iat, kind_text(kind), self.secret@));
                assert(fv == (Some(uuid_text(user_id)), Some(uuid_text(tenant_id)), Some(exp), Some(iat), Some(kind_text(kind))));
                assert(claims.sub@ == uuid_text(user_id));
                assert(claims.tid@ == uuid_text(tenant_id));
                assert(claims.token_type@ == kind_text(kind));
                assert(claims.exp == exp);
            }
        }
        r
    }

    /// The user and tenant of `token`, which must carry a valid signature,
    /// must not have expired and must be of kind `expected`; every failure is
    /// `Unauthorized`. A token that this service issued for a user and a
    /// tenant never decodes to another user or tenant, and one of another
    /// kind is always refused.
    pub fn decode_token(&self, token: &str, expected: TokenKind) -> (r: DomainResult<(u128, u128)>)
        ensures
            match r {
                Ok(ids) => exists|sub: Seq<char>, tid: Seq<char>, token_type: Seq<char>|
                    #[trigger] claims_identity(sub, tid, token_type, expected) == Some(ids),
                Err(e) => e@ == ErrorView::Unauthorized,
            },
            dot_count(token@) != 2 ==> r is Err,
            forall|user_id: u128, tenant_id: u128, iat: u64, exp: u64, kind: TokenKind|
                #[trigger] token_for(self.secret(), user_id, tenant_id, iat, exp, kind) == token@
                    ==> if kind == expected {
                    r is Ok ==> r == Ok::<(u128, u128), DomainError>((user_id, tenant_id))
                } else {
                    r is Err
                },
    {
        let now = now_micros();
        self.decode_token_at(token, expected, now)
    }

    /// The user and tenant of a valid access token.
    pub fn decode_access_token(&self, token: &str) -> (r: DomainResult<(u128, u128)>)
        ensures
            match r {
                Ok(ids) => exists|sub: Seq<char>, tid: Seq<char>, token_type: Seq<char>|
                    #[trigger] claims_identity(sub, tid, token_type, TokenKind::Access) == Some(ids),
                Err(e) => e@ == ErrorView::Unauthorized,
            },
            dot_count(token@) != 2 ==> r is Err,
            forall|user_id: u128, tenant_id: u128, iat: u64, exp: u64, kind: TokenKind|
                #[trigger] token_for(self.secret(), user_id, tenant_id, iat, exp, kind) == token@
                    ==> if kind == TokenKind::Access {
                    r is Ok ==> r == Ok::<(u128, u128), DomainError>((user_id, tenant_id))
                } else {
                    r is Err
                },
    {
        self.decode_token(token, TokenKind::Access)
    }

    /// A new access token for `user_id` in `tenant_id`.
    pub fn generate_access_token(&self, user_id: u128, tenant_id: u128) -> (r: DomainResult<String>)
        ensures
            match r {
                Ok(t) => exists|now: i64|
                    #[trigger] issue_times(now, self.access_expiry_secs()) matches Some(times)
                        && t@ == token_for(
                        self.secret(),
                        user_id,
                        tenant_id,
                        times.0,
                        times.1,
                        TokenKind::Access,
                    ),
                Err(e) => (exists|now: i64| #[trigger] issue_times(now, self.access_expiry_secs()) is None)
                    && is_validation_starting_with(e@, "Token generation failed: "@),
            },
    {
        self.create_token(user_id, tenant_id, TokenKind::Access)
    }

    /// A new refresh token for `user_id` in `tenant_id`.
    pub fn generate_refresh_token(&self, user_id: u128, tenant_id: u128) -> (r: DomainResult<
        String,
    >)
        ensures
            match r {
                Ok(t) => exists|now: i64|
                    #[trigger] issue_times(now, self.refresh_expiry_secs()) matches Some(times)
                        && t@ == token_for(
                        self.secret(),
                        user_id,
                        tenant_id,
                        times.0,
                        times.1,
                        TokenKind::Refresh,
                    ),
                Err(e) => (exists|now: i64| #[trigger] issue_times(now, self.refresh_expiry_secs()) is None)
                    && is_validation_starting_with(e@, "Token generation failed: "@),
            },
    {
        self.create_token(user_id, tenant_id, TokenKind::Refresh)
    }

    /// The user and tenant of a valid refresh token that has not been
    /// revoked; a revoked one is `Unauthorized`.
    pub fn validate_refresh_token(&self, token: &str) -> (r: DomainResult<(u128, u128)>)
        ensures
            match r {
                Ok(ids) => exists|sub: Seq<char>, tid: Seq<char>, token_type: Seq<char>|
                    #[trigger] claims_identity(sub, tid, token_type, TokenKind::Refresh) == Some(ids),
                Err(e) => e@ == ErrorView::Unauthorized,
            },
            dot_count(token@) != 2 ==> r is Err,
            self.revoked_tokens().contains(token@) ==> r is Err,
            forall|user_id: u128, tenant_id: u128, iat: u64, exp: u64, kind: TokenKind|
                #[trigger] token_for(self.secret(), user_id, tenant_id, iat, exp, kind) == token@
                    ==> if kind == TokenKind::Refresh {
                    r is Ok ==> r == Ok::<(u128, u128), DomainError>((user_id, tenant_id))
                } else {
                    r is Err
                },
    {
        if self.is_revoked(token) {
            return Err(DomainError::Unauthorized);
        }
        self.decode_token(token, TokenKind::Refresh)
    }

    /// Revokes a used refresh token: from now on it is refused. Nothing else
    /// about the service changes.
    pub fn revoke_refresh_token(&mut self, token: &str) -> (r: DomainResult<()>)
        ensures
            r is Ok,
            final(self).revoked_tokens() == old(self).revoked_tokens().insert(token@),
            final(self).secret() == old(self).secret(),
            final(self).access_expiry_secs() == old(self).access_expiry_secs(),
            final(self).refresh_expiry_secs() == old(self).refresh_expiry_secs(),
    {
        let ghost before = self.revoked@;
        self.revoked.push(string_of(token));
        proof {
            let after = self.revoked@;
            assert(after.len() == before.len() + 1);
            assert(after[before.len() as int]@ == token@);
            assert forall|t: Seq<char>| #[trigger] self.revoked_tokens().contains(t) == old(self).revoked_tokens().insert(token@).contains(t) by {
                if old(self).revoked_tokens().contains(t) {
                    let i = choose|i: int| 0 <= i < before.len() && #[trigger] before[i]@ == t;
                    assert(after[i] == before[i]);
                }
                if self.revoked_tokens().contains(t) {
                    let i = choose|i: int| 0 <= i < after.len() && #[trigger] after[i]@ == t;
                    if i < before.len() {
                        assert(after[i] == before[i]);
                    }
                }
            }
            assert(self.revoked_tokens() =~= old(self).revoked_tokens().insert(token@));
        }
        Ok(())
    }

    /// The SHA-256 fingerprint of `token` in lower-case hexadecimal, which is
    /// what storage keeps instead of the token itself.
    pub fn hash_token(token: &str) -> (h: String)
        ensures
            h@ == hex_lower(sha256(vstd::utf8::encode_utf8(token@))),
            h@.len() == 64,
    {
        let d = sha256_digest(token.as_bytes());
        let h = hex_string(d.as_slice());
        proof {
            lemma_hex_lower_len(d@);
        }
        h
    }
}

/// Law: revocation is for good. After a refresh token is revoked the
/// service counts it as revoked, so it no longer validates, and every token
/// that was revoked before stays revoked.
pub proof fn law_revoked_refresh_token_stays_refused(
    before: JwtTokenService,
    after: JwtTokenService,
    token: Seq<char>,
)
    requires
        after.revoked_tokens() == before.revoked_tokens().insert(token),
    ensures
        after.revoked_tokens().contains(token),
        forall|t: Seq<char>| before.revoked_tokens().contains(t) ==> #[trigger] after.revoked_tokens().contains(t),
{
}

/// Law: a token is live until 61 whole seconds after its expiry have begun:
/// at the clock reading `now_micros` (microseconds) a token expiring at
/// `exp` (seconds) has expired exactly when `now_micros` has reached
/// `(exp + 61) * 1_000_000`. Its time of issue plays no part.
pub proof fn law_token_expires_after_leeway(exp: u64, now_micros: i64)
    ensures
        expired_at(exp, now_micros) <==> now_micros as int >= (exp as int + 61) * 1_000_000,
{
    let n = now_micros as int;
    let e = exp as int;
    assert((n / 1_000_000 >= e + 61) <==> n >= (e + 61) * 1_000_000) by (nonlinear_arith)
        requires
            e >= 0,
    {
        let q = n / 1_000_000;
        assert(q * 1_000_000 <= n < q * 1_000_000 + 1_000_000);
    }
}

/// Law: a token issued at the clock reading `now_micros` (microseconds) is
/// issued at the whole second in which that reading falls and expires
/// exactly `expiry_secs` seconds later; it can be issued whenever that expiry
/// fits in 64 bits.
pub proof fn law_issue_time_is_the_clock_second(now_micros: i64, expiry_secs: u64)
    requires
        now_micros >= 0,
    ensures
        issue_times(now_micros, expiry_secs) matches Some((iat, exp)) ==> iat as int * 1_000_000
            <= now_micros < (iat as int + 1) * 1_000_000 && exp as int == iat as int + expiry_secs as int,
        issue_times(now_micros, expiry_secs) is None <==> now_micros as int / 1_000_000
            + expiry_secs as int > u64::MAX as int,
{
    let n = now_micros as int;
    let q = n / 1_000_000;
    assert(q * 1_000_000 <= n < q * 1_000_000 + 1_000_000) by (nonlinear_arith)
        requires
            q == n / 1_000_000,
            n >= 0,
    ;
    assert(0 <= q <= u64::MAX);
}

proof fn lemma_hex_lower_len(b: Seq<u8>)
    ensures
        hex_lower(b).len() == 2 * b.len(),
    decreases b.len(),
{
    if b.len() > 0 {
        lemma_hex_lower_len(b.drop_last());
    }
}

} // verus!
