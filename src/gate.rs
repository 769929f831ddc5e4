use vstd::prelude::*;
use vstd::string::*;
use crate::error::AppError;
use crate::external::{parse_uuid, uuid_parsed};
use crate::jwt::{
    passes_access_kind, passes_legacy_kind, token_text, verify_access_token, verify_token,
    AccessTokenClaims, Claims,
};
use crate::role::{role_named, UserRole};
use crate::text::{has_prefix, starts_with_text};

verus! {

/// The identity a bearer token resolves to.
#[derive(Debug)]
pub struct AuthUser {
    pub id: u128,
    pub email: String,
    pub role: UserRole,
}

/// The outcome of the optional gate: an identity, or none.
#[derive(Debug)]
pub struct OptionalAuthUser(pub Option<AuthUser>);

/// The scheme word that starts an `Authorization` header value.
pub open spec fn bearer_prefix() -> Seq<char> {
    "Bearer "@
}

/// What follows the bearer scheme word in a header value.
pub open spec fn bearer_rest(h: Seq<char>) -> Seq<char> {
    h.subrange(7, h.len() as int)
}

/// `u` is the identity the claims of `token` name: its subject parses to
/// `u.id`, and its email and role claims are `u`'s.
pub open spec fn identity_carried(token: Seq<char>, u: AuthUser) -> bool {
    &&& token_text(token, "sub"@) is Some
    &&& uuid_parsed(token_text(token, "sub"@)->Some_0) == Some(u.id)
    &&& token_text(token, "email"@) == Some(u.email@)
    &&& token_text(token, "role"@) is Some
    &&& role_named(token_text(token, "role"@)->Some_0) == Some(u.role)
}

/// The header is a bearer header whose token passes the access or the legacy
/// kind check and names `u`.
pub open spec fn authenticates(authorization: Option<&str>, u: AuthUser) -> bool {
    &&& authorization is Some
    &&& has_prefix(authorization->Some_0@, bearer_prefix())
    &&& passes_access_kind(bearer_rest(authorization->Some_0@)) || passes_legacy_kind(
        bearer_rest(authorization->Some_0@),
    )
    &&& identity_carried(bearer_rest(authorization->Some_0@), u)
}

/// A bearer header whose token passes neither the access nor the legacy kind
/// check (a refresh token, say).
pub open spec fn wrong_kind_bearer(authorization: Option<&str>) -> bool {
    &&& authorization is Some
    &&& has_prefix(authorization->Some_0@, bearer_prefix())
    &&& !passes_access_kind(bearer_rest(authorization->Some_0@))
    &&& !passes_legacy_kind(bearer_rest(authorization->Some_0@))
}

/// The token carried by an `Authorization` header value, if it uses the bearer scheme.
pub fn bearer_token(header: &str) -> (r: Option<&str>)
    ensures
        has_prefix(header@, bearer_prefix()) ==> (r matches Some(t) && t@ == header@.subrange(
            7,
            header@.len() as int,
        )),
        !has_prefix(header@, bearer_prefix()) ==> r is None,
{
    proof {
        reveal_strlit("Bearer ");
    }
    if starts_with_text(header, "Bearer ") {
        let n = header.unicode_len();
        Some(header.substring_char(7, n))
    } else {
        None
    }
}

/// Builds the identity from the subject, email and role claims: the subject
/// must be a UUID and the role one of the two exact role names; anything else
/// is a `TokenError`, never a default.
pub fn identity_from_claims(sub: &str, email: String, role: &str) -> (r: Result<
    AuthUser,
    AppError,
>)
    ensures
        uuid_parsed(sub@) is None ==> r matches Err(AppError::TokenError(_)),
        uuid_parsed(sub@) is Some && role_named(role@) is None ==> r matches Err(
            AppError::TokenError(_),
        ),
        uuid_parsed(sub@) is Some && role_named(role@) is Some ==> (r matches Ok(u) && u.id
            == uuid_parsed(sub@)->Some_0 && u.email == email && u.role == role_named(role@)->Some_0),
{
    let id = match parse_uuid(sub) {
        Some(id) => id,
        None => return Err(AppError::TokenError(String::from_str("Invalid user ID in token"))),
    };
    let role = match UserRole::parse(role) {
        Some(r) => r,
        None => return Err(AppError::TokenError(String::from_str("Invalid role in token"))),
    };
    Ok(AuthUser { id, email, role })
}

/// Resolves an identity from the decoded claims, in a fixed order: current
/// access claims first, then legacy claims; with neither, `Unauthorized`.
pub fn resolve_identity(access: Option<AccessTokenClaims>, legacy: Option<Claims>) -> (r: Result<
    AuthUser,
    AppError,
>)
    ensures
        access is None && legacy is None ==> r matches Err(AppError::Unauthorized),
        access matches Some(a) ==> resolves_to(r, a.sub@, a.email, a.role@),
        access is None ==> (legacy matches Some(l) ==> resolves_to(r, l.sub@, l.email, l.role@)),
{
    match access {
        Some(a) => identity_from_claims(a.sub.as_str(), a.email, a.role.as_str()),
        None => match legacy {
            Some(l) => identity_from_claims(l.sub.as_str(), l.email, l.role.as_str()),
            None => Err(AppError::Unauthorized),
        },
    }
}

/// What `identity_from_claims` gives for these claims.
pub open spec fn resolves_to(
    r: Result<AuthUser, AppError>,
    sub: Seq<char>,
    email: String,
    role: Seq<char>,
) -> bool {
    match (uuid_parsed(sub), role_named(role)) {
        (Some(id), Some(ro)) => (r matches Ok(u) && u.id == id && u.email == email && u.role == ro),
        _ => r matches Err(AppError::TokenError(_)),
    }
}

/// Authentication in required mode. A missing header or one without the bearer
/// scheme is `Unauthorized` before any token work; the token is tried as an
/// access token, then as a legacy token; the identity comes from the first
/// that passes, through `resolve_identity`.
pub fn require_auth(authorization: Option<&str>, secret: &str) -> (r: Result<AuthUser, AppError>)
    ensures
        authorization is None ==> r matches Err(AppError::Unauthorized),
        (authorization matches Some(h) && !has_prefix(h@, bearer_prefix())) ==> (r matches Err(
            AppError::Unauthorized,
        )),
        r is Err ==> r->Err_0 is Unauthorized || r->Err_0 is TokenError,
        wrong_kind_bearer(authorization) ==> (r matches Err(AppError::Unauthorized)),
        r matches Ok(u) ==> authenticates(authorization, u),
{
    let header = match authorization {
        Some(h) => h,
        None => return Err(AppError::Unauthorized),
    };
    let token = match bearer_token(header) {
        Some(t) => t,
        None => return Err(AppError::Unauthorized),
    };
    match verify_access_token(token, secret) {
        Ok(a) => resolve_identity(Some(a), None),
        Err(_) => match verify_token(token, secret) {
            Ok(l) => resolve_identity(None, Some(l)),
            Err(_) => Err(AppError::Unauthorized),
        },
    }
}

/// Authentication in optional mode: the same resolution, where every failure gives
/// no identity instead of a rejection.
pub fn optional_auth(authorization: Option<&str>, secret: &str) -> (r: OptionalAuthUser)
    ensures
        authorization is None ==> r.0 is None,
        (authorization matches Some(h) && !has_prefix(h@, bearer_prefix())) ==> r.0 is None,
        wrong_kind_bearer(authorization) ==> r.0 is None,
        r.0 matches Some(u) ==> authenticates(authorization, u),
{
    match require_auth(authorization, secret) {
        Ok(u) => OptionalAuthUser(Some(u)),
        Err(_) => OptionalAuthUser(None),
    }
}

} // verus!
