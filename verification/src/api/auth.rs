//! Authentication of requests by bearer token.

use vstd::prelude::*;

use crate::auth::jwt::{claims_identity, dot_count, token_for, JwtTokenService, TokenKind};
use crate::errors::DomainResult;
use crate::text::{string_of, strip_prefix, strip_prefix_spec};

verus! {

/// The user and tenant of an authenticated request.
#[derive(Debug, Clone, Copy, PartialEq, Eq)]
pub struct AuthClaims {
    pub user_id: u128,
    pub tenant_id: u128,
}

/// Why a request was refused: the HTTP status and the error message.
#[derive(Debug, PartialEq, Eq)]
pub struct AuthRejection {
    pub status: u16,
    pub message: String,
}

/// The token of an `Authorization` header value, which must start with
/// `Bearer `.
pub open spec fn bearer_of(header: Option<Seq<char>>) -> Option<Seq<char>> {
    match header {
        Some(h) => strip_prefix_spec(h, "Bearer "@),
        None => None,
    }
}

/// The text of an optional header value.
pub open spec fn text_of(header: Option<&str>) -> Option<Seq<char>> {
    match header {
        Some(h) => Some(h@),
        None => None,
    }
}

/// Whether `r` is a 401 rejection with message `message`.
pub open spec fn is_rejection(r: Result<AuthClaims, AuthRejection>, message: Seq<char>) -> bool {
    match r {
        Err(rej) => rej.status == 401 && rej.message@ == message,
        Ok(_) => false,
    }
}

/// The token carried by the `Authorization` header value `header`, if it is
/// present and starts with `Bearer `.
pub fn bearer_token(header: Option<&str>) -> (t: Option<String>)
    ensures
        match t {
            Some(t) => bearer_of(text_of(header)) == Some(t@),
            None => bearer_of(text_of(header)) is None,
        },
{
    match header {
        Some(h) => strip_prefix(h, "Bearer "),
        None => None,
    }
}

impl AuthClaims {
    /// The claims of a request whose token decoded to `decoded`: its user and
    /// tenant, or a 401 rejection with `Invalid or expired token`.
    pub fn from_decoded(decoded: DomainResult<(u128, u128)>) -> (r: Result<AuthClaims, AuthRejection>)
        ensures
            match decoded {
                Ok((user_id, tenant_id)) => r == Ok::<AuthClaims, AuthRejection>(AuthClaims { user_id, tenant_id }),
                Err(_) => is_rejection(r, "Invalid or expired token"@),
            },
    {
        match decoded {
            Ok((user_id, tenant_id)) => Ok(AuthClaims { user_id, tenant_id }),
            Err(_) => Err(AuthRejection { status: 401, message: string_of("Invalid or expired token") }),
        }
    }

    /// The claims of a request with `Authorization` header value `header`: a
    /// 401 rejection with `Missing or invalid Authorization header` when there
    /// is no bearer token, else the user and tenant of the access token, or a
    /// 401 rejection with `Invalid or expired token` when it does not decode;
    /// a refresh token, or one that is not three `.`-separated segments, is
    /// always refused so.
    pub fn from_authorization(header: Option<&str>, jwt: &JwtTokenService) -> (r: Result<AuthClaims, AuthRejection>)
        ensures
            bearer_of(text_of(header)) is None ==> is_rejection(r, "Missing or invalid Authorization header"@),
            r matches Ok(c) ==> exists|sub: Seq<char>, tid: Seq<char>, token_type: Seq<char>|
                #[trigger] claims_identity(sub, tid, token_type, TokenKind::Access) == Some((c.user_id, c.tenant_id)),
            bearer_of(text_of(header)) is Some ==> r is Ok || is_rejection(r, "Invalid or expired token"@),
            forall|user_id: u128, tenant_id: u128, iat: u64, exp: u64|
                bearer_of(text_of(header)) == Some(
                    #[trigger] token_for(jwt.secret(), user_id, tenant_id, iat, exp, TokenKind::Access),
                ) ==> (r is Ok ==> r == Ok::<AuthClaims, AuthRejection>(AuthClaims { user_id, tenant_id })),
            forall|user_id: u128, tenant_id: u128, iat: u64, exp: u64|
                bearer_of(text_of(header)) == Some(
                    #[trigger] token_for(jwt.secret(), user_id, tenant_id, iat, exp, TokenKind::Refresh),
                ) ==> is_rejection(r, "Invalid or expired token"@),
            bearer_of(text_of(header)) matches Some(t) && dot_count(t) != 2 ==> is_rejection(
                r,
                "Invalid or expired token"@,
            ),
    {
        match bearer_token(header) {
            None => Err(
                AuthRejection { status: 401, message: string_of("Missing or invalid Authorization header") },
            ),
            Some(token) => AuthClaims::from_decoded(jwt.decode_access_token(token.as_str())),
        }
    }
}

} // verus!
