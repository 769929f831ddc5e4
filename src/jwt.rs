use vstd::prelude::*;
use crate::error::AppError;
use crate::external::{
    claims_object, hex_encode, hex_text, int_claim, int_claims, jwt_open, jwt_sign, put_int_claim,
    put_text_claim, sha256, sha256_of, text_claim, text_claims, token_claims, unix_now, uuid_text,
    uuid_text_of, ClaimsObject,
};
use crate::text::text_eq;
use vstd::utf8::encode_utf8;

verus! {

/// Seconds in a minute and in a day.
pub const SECS_PER_MINUTE: i64 = 60;
pub const SECS_PER_DAY: i64 = 86400;
/// Lifetime of a token from the legacy single-token flow, in days.
pub const LEGACY_TOKEN_DAYS: i64 = 7;

/// Claims of a short-lived access token.
#[derive(Debug)]
pub struct AccessTokenClaims {
    pub sub: String,
    pub email: String,
    pub role: String,
    pub token_type: String,
    pub exp: i64,
    pub iat: i64,
}

/// Claims of a long-lived refresh token: subject, token id and family only.
#[derive(Debug)]
pub struct RefreshTokenClaims {
    pub sub: String,
    pub jti: String,
    pub family_id: String,
    pub token_type: String,
    pub exp: i64,
    pub iat: i64,
}

/// Claims of a token from the single-token flow, whose kind tag may be absent.
#[derive(Debug)]
pub struct Claims {
    pub sub: String,
    pub email: String,
    pub role: String,
    pub token_type: Option<String>,
    pub exp: i64,
    pub iat: i64,
}

/// `t` moved by `secs` seconds, held within the range of `i64`.
pub open spec fn shifted(t: i64, secs: int) -> i64 {
    if t + secs > i64::MAX {
        i64::MAX
    } else if t + secs < i64::MIN {
        i64::MIN
    } else {
        (t + secs) as i64
    }
}

/// `t` moved by `count` units of `unit` seconds, held within the range of `i64`.
pub fn shift_time(t: i64, count: i64, unit: i64) -> (r: i64)
    requires
        0 < unit <= SECS_PER_DAY,
    ensures
        r == shifted(t, count * unit),
{
    let c: i128 = count as i128;
    let u: i128 = unit as i128;
    assert(-0x8000_0000_0000_0000 * 86400 <= c * u <= 0x7fff_ffff_ffff_ffff * 86400) by (nonlinear_arith)
        requires
            i64::MIN <= c <= i64::MAX,
            0 < u <= 86400,
    ;
    let secs: i128 = c * u;
    let sum: i128 = (t as i128) + secs;
    if sum > i64::MAX as i128 {
        i64::MAX
    } else if sum < i64::MIN as i128 {
        i64::MIN
    } else {
        sum as i64
    }
}

/// The kind tag that the access-token check accepts.
pub open spec fn is_access_kind(k: Seq<char>) -> bool {
    k == "access"@
}

/// The kind tag that the refresh-token check accepts.
pub open spec fn is_refresh_kind(k: Seq<char>) -> bool {
    k == "refresh"@
}

/// The kind tags the legacy check accepts: none at all, or `"legacy"`.
pub open spec fn is_legacy_kind(k: Option<Seq<char>>) -> bool {
    match k {
        None => true,
        Some(t) => t == "legacy"@,
    }
}

pub open spec fn opt_view(o: Option<String>) -> Option<Seq<char>> {
    match o {
        None => None,
        Some(s) => Some(s@),
    }
}

/// The text claim `key` of a claims object, if it holds one.
pub open spec fn obj_text(o: ClaimsObject, key: Seq<char>) -> Option<Seq<char>> {
    if text_claims(o).contains_key(key) {
        Some(text_claims(o)[key])
    } else {
        None
    }
}

/// The integer claim `key` of a claims object, if it holds one.
pub open spec fn obj_int(o: ClaimsObject, key: Seq<char>) -> Option<i64> {
    if int_claims(o).contains_key(key) {
        Some(int_claims(o)[key])
    } else {
        None
    }
}

/// The text claim `key` that a token carries, if any.
pub open spec fn token_text(token: Seq<char>, key: Seq<char>) -> Option<Seq<char>> {
    if token_claims(token).0.contains_key(key) {
        Some(token_claims(token).0[key])
    } else {
        None
    }
}

/// The integer claim `key` that a token carries, if any.
pub open spec fn token_int(token: Seq<char>, key: Seq<char>) -> Option<i64> {
    if token_claims(token).1.contains_key(key) {
        Some(token_claims(token).1[key])
    } else {
        None
    }
}

/// The kind tag a token carries, if any.
pub open spec fn kind_tag(token: Seq<char>) -> Option<Seq<char>> {
    token_text(token, "token_type"@)
}

pub open spec fn passes_access_kind(token: Seq<char>) -> bool {
    kind_tag(token) == Some("access"@)
}

pub open spec fn passes_refresh_kind(token: Seq<char>) -> bool {
    kind_tag(token) == Some("refresh"@)
}

pub open spec fn passes_legacy_kind(token: Seq<char>) -> bool {
    is_legacy_kind(kind_tag(token))
}

/// The access claims `c` are the ones `token` carries.
pub open spec fn carries_access(token: Seq<char>, c: AccessTokenClaims) -> bool {
    &&& token_text(token, "sub"@) == Some(c.sub@)
    &&& token_text(token, "email"@) == Some(c.email@)
    &&& token_text(token, "role"@) == Some(c.role@)
    &&& token_text(token, "token_type"@) == Some(c.token_type@)
    &&& token_int(token, "exp"@) == Some(c.exp)
    &&& token_int(token, "iat"@) == Some(c.iat)
}

/// The refresh claims `c` are the ones `token` carries.
pub open spec fn carries_refresh(token: Seq<char>, c: RefreshTokenClaims) -> bool {
    &&& token_text(token, "sub"@) == Some(c.sub@)
    &&& token_text(token, "jti"@) == Some(c.jti@)
    &&& token_text(token, "family_id"@) == Some(c.family_id@)
    &&& token_text(token, "token_type"@) == Some(c.token_type@)
    &&& token_int(token, "exp"@) == Some(c.exp)
    &&& token_int(token, "iat"@) == Some(c.iat)
}

/// The legacy claims `c` are the ones `token` carries.
pub open spec fn carries_legacy(token: Seq<char>, c: Claims) -> bool {
    &&& token_text(token, "sub"@) == Some(c.sub@)
    &&& token_text(token, "email"@) == Some(c.email@)
    &&& token_text(token, "role"@) == Some(c.role@)
    &&& token_text(token, "token_type"@) == opt_view(c.token_type)
    &&& token_int(token, "exp"@) == Some(c.exp)
    &&& token_int(token, "iat"@) == Some(c.iat)
}

/// The claim names are pairwise distinct.
pub proof fn lemma_claim_keys_distinct()
    ensures
        "sub"@ != "email"@,
        "sub"@ != "role"@,
        "sub"@ != "token_type"@,
        "sub"@ != "exp"@,
        "sub"@ != "iat"@,
        "sub"@ != "jti"@,
        "sub"@ != "family_id"@,
        "email"@ != "role"@,
        "email"@ != "token_type"@,
        "email"@ != "exp"@,
        "email"@ != "iat"@,
        "role"@ != "token_type"@,
        "role"@ != "exp"@,
        "role"@ != "iat"@,
        "token_type"@ != "exp"@,
        "token_type"@ != "iat"@,
        "token_type"@ != "jti"@,
        "token_type"@ != "family_id"@,
        "jti"@ != "family_id"@,
        "jti"@ != "exp"@,
        "jti"@ != "iat"@,
        "family_id"@ != "exp"@,
        "family_id"@ != "iat"@,
        "exp"@ != "iat"@,
{
    reveal_strlit("sub");
    reveal_strlit("email");
    reveal_strlit("role");
    reveal_strlit("token_type");
    reveal_strlit("exp");
    reveal_strlit("iat");
    reveal_strlit("jti");
    reveal_strlit("family_id");
    assert("sub"@[0] != "email"@[0]);
    assert("sub"@[0] != "role"@[0]);
    assert("sub"@[0] != "token_type"@[0]);
    assert("sub"@[0] != "exp"@[0]);
    assert("sub"@[0] != "iat"@[0]);
    assert("sub"@[0] != "jti"@[0]);
    assert("sub"@[0] != "family_id"@[0]);
    assert("email"@[0] != "role"@[0]);
    assert("email"@[0] != "token_type"@[0]);
    assert("email"@.len() != "exp"@.len());
    assert("email"@[0] != "iat"@[0]);
    assert("role"@[0] != "token_type"@[0]);
    assert("role"@[0] != "exp"@[0]);
    assert("role"@[0] != "iat"@[0]);
    assert("token_type"@[0] != "exp"@[0]);
    assert("token_type"@[0] != "iat"@[0]);
    assert("token_type"@[0] != "jti"@[0]);
    assert("token_type"@[0] != "family_id"@[0]);
    assert("jti"@[0] != "family_id"@[0]);
    assert("jti"@[0] != "exp"@[0]);
    assert("jti"@[0] != "iat"@[0]);
    assert("family_id"@[0] != "exp"@[0]);
    assert("family_id"@[0] != "iat"@[0]);
    assert("exp"@[0] != "iat"@[0]);
}

/// The lookup key of a refresh token: lower-case hex of the SHA-256 of its UTF-8 bytes.
pub open spec fn token_digest(token: Seq<char>) -> Seq<char> {
    hex_text(sha256_of(encode_utf8(token)))
}

/// Deterministic one-way hash of a token, used only as a lookup key.
pub fn hash_token(token: &str) -> (r: String)
    ensures
        r@ == token_digest(token@),
{
    let digest = sha256(token.as_bytes());
    hex_encode(digest.as_slice())
}

impl AccessTokenClaims {
    /// Claims for an access token issued at `now` and valid for `expiry_minutes`.
    pub fn new_at(user_id: u128, email: String, role: String, expiry_minutes: i64, now: i64) -> (r:
        Self)
        ensures
            r.sub@ == uuid_text_of(user_id),
            r.email == email,
            r.role == role,
            is_access_kind(r.token_type@),
            r.iat == now,
            r.exp == shifted(now, expiry_minutes * SECS_PER_MINUTE),
    {
        AccessTokenClaims {
            sub: uuid_text(user_id),
            email,
            role,
            token_type: String::from_str("access"),
            iat: now,
            exp: shift_time(now, expiry_minutes, SECS_PER_MINUTE),
        }
    }

    /// Claims for an access token issued now.
    pub fn new(user_id: u128, email: String, role: String, expiry_minutes: i64) -> (r: Self)
        ensures
            r.sub@ == uuid_text_of(user_id),
            r.email == email,
            r.role == role,
            is_access_kind(r.token_type@),
            r.exp == shifted(r.iat, expiry_minutes * SECS_PER_MINUTE),
    {
        Self::new_at(user_id, email, role, expiry_minutes, unix_now())
    }

    fn to_object(&self) -> (r: ClaimsObject)
        ensures
            obj_text(r, "sub"@) == Some(self.sub@),
            obj_text(r, "email"@) == Some(self.email@),
            obj_text(r, "role"@) == Some(self.role@),
            obj_text(r, "token_type"@) == Some(self.token_type@),
            obj_int(r, "exp"@) == Some(self.exp),
            obj_int(r, "iat"@) == Some(self.iat),
    {
        proof {
            lemma_claim_keys_distinct();
        }
        let mut o = claims_object();
        put_text_claim(&mut o, "sub", self.sub.as_str());
        put_text_claim(&mut o, "email", self.email.as_str());
        put_text_claim(&mut o, "role", self.role.as_str());
        put_text_claim(&mut o, "token_type", self.token_type.as_str());
        put_int_claim(&mut o, "exp", self.exp);
        put_int_claim(&mut o, "iat", self.iat);
        o
    }
}

impl RefreshTokenClaims {
    /// Claims for a refresh token issued at `now` and valid for `expiry_days`.
    pub fn new_at(user_id: u128, jti: u128, family_id: u128, expiry_days: i64, now: i64) -> (r:
        Self)
        ensures
            r.sub@ == uuid_text_of(user_id),
            r.jti@ == uuid_text_of(jti),
            r.family_id@ == uuid_text_of(family_id),
            is_refresh_kind(r.token_type@),
            r.iat == now,
            r.exp == shifted(now, expiry_days * SECS_PER_DAY),
    {
        RefreshTokenClaims {
            sub: uuid_text(user_id),
            jti: uuid_text(jti),
            family_id: uuid_text(family_id),
            token_type: String::from_str("refresh"),
            iat: now,
            exp: shift_time(now, expiry_days, SECS_PER_DAY),
        }
    }

    /// Claims for a refresh token issued now.
    pub fn new(user_id: u128, jti: u128, family_id: u128, expiry_days: i64) -> (r: Self)
        ensures
            r.sub@ == uuid_text_of(user_id),
            r.jti@ == uuid_text_of(jti),
            r.family_id@ == uuid_text_of(family_id),
            is_refresh_kind(r.token_type@),
            r.exp == shifted(r.iat, expiry_days * SECS_PER_DAY),
    {
        Self::new_at(user_id, jti, family_id, expiry_days, unix_now())
    }

    fn to_object(&self) -> (r: ClaimsObject)
        ensures
            obj_text(r, "sub"@) == Some(self.sub@),
            obj_text(r, "jti"@) == Some(self.jti@),
            obj_text(r, "family_id"@) == Some(self.family_id@),
            obj_text(r, "token_type"@) == Some(self.token_type@),
            obj_int(r, "exp"@) == Some(self.exp),
            obj_int(r, "iat"@) == Some(self.iat),
    {
        proof {
            lemma_claim_keys_distinct();
        }
        let mut o = claims_object();
        put_text_claim(&mut o, "sub", self.sub.as_str());
        put_text_claim(&mut o, "jti", self.jti.as_str());
        put_text_claim(&mut o, "family_id", self.family_id.as_str());
        put_text_claim(&mut o, "token_type", self.token_type.as_str());
        put_int_claim(&mut o, "exp", self.exp);
        put_int_claim(&mut o, "iat", self.iat);
        o
    }
}

impl Claims {
    /// Claims for a legacy token issued at `now`, valid for seven days.
    pub fn new_at(user_id: u128, email: String, role: String, now: i64) -> (r: Self)
        ensures
            r.sub@ == uuid_text_of(user_id),
            r.email == email,
            r.role == role,
            opt_view(r.token_type) == Some("legacy"@),
            r.iat == now,
            r.exp == shifted(now, LEGACY_TOKEN_DAYS * SECS_PER_DAY),
    {
        Claims {
            sub: uuid_text(user_id),
            email,
            role,
            token_type: Some(String::from_str("legacy")),
            iat: now,
            exp: shift_time(now, LEGACY_TOKEN_DAYS, SECS_PER_DAY),
        }
    }

    /// Claims for a legacy token issued now.
    pub fn new(user_id: u128, email: String, role: String) -> (r: Self)
        ensures
            r.sub@ == uuid_text_of(user_id),
            r.email == email,
            r.role == role,
            opt_view(r.token_type) == Some("legacy"@),
            r.exp == shifted(r.iat, LEGACY_TOKEN_DAYS * SECS_PER_DAY),
    {
        Self::new_at(user_id, email, role, unix_now())
    }

    fn to_object(&self) -> (r: ClaimsObject)
        ensures
            obj_text(r, "sub"@) == Some(self.sub@),
            obj_text(r, "email"@) == Some(self.email@),
            obj_text(r, "role"@) == Some(self.role@),
            obj_text(r, "token_type"@) == opt_view(self.token_type),
            obj_int(r, "exp"@) == Some(self.exp),
            obj_int(r, "iat"@) == Some(self.iat),
    {
        proof {
            lemma_claim_keys_distinct();
        }
        let mut o = claims_object();
        put_text_claim(&mut o, "sub", self.sub.as_str());
        put_text_claim(&mut o, "email", self.email.as_str());
        put_text_claim(&mut o, "role", self.role.as_str());
        match &self.token_type {
            Some(t) => put_text_claim(&mut o, "token_type", t.as_str()),
            None => {},
        }
        put_int_claim(&mut o, "exp", self.exp);
        put_int_claim(&mut o, "iat", self.iat);
        o
    }
}

fn token_failure() -> (r: AppError)
    ensures
        r is TokenError,
{
    AppError::TokenError(String::from_str("Invalid token"))
}

fn sign(o: &ClaimsObject, secret: &str) -> (r: Result<String, AppError>)
    ensures
        r is Err ==> r->Err_0 is TokenError,
        r matches Ok(t) ==> forall|k: Seq<char>| token_text(t@, k) == #[trigger] obj_text(*o, k),
        r matches Ok(t) ==> forall|k: Seq<char>| token_int(t@, k) == #[trigger] obj_int(*o, k),
{
    match jwt_sign(o, secret) {
        Ok(t) => Ok(t),
        Err(_) => Err(token_failure()),
    }
}

/// Signs a fresh access token (kind `"access"`) for the user.
pub fn create_access_token(
    user_id: u128,
    email: String,
    role: String,
    secret: &str,
    expiry_minutes: i64,
) -> (r: Result<String, AppError>)
    ensures
        r is Err ==> r->Err_0 is TokenError,
        r matches Ok(t) ==> {
            &&& token_text(t@, "sub"@) == Some(uuid_text_of(user_id))
            &&& token_text(t@, "email"@) == Some(email@)
            &&& token_text(t@, "role"@) == Some(role@)
            &&& passes_access_kind(t@)
            &&& token_int(t@, "iat"@) is Some
            &&& token_int(t@, "exp"@) == Some(
                shifted(token_int(t@, "iat"@)->Some_0, expiry_minutes * SECS_PER_MINUTE),
            )
        },
{
    let claims = AccessTokenClaims::new(user_id, email, role, expiry_minutes);
    let o = claims.to_object();
    let r = sign(&o, secret);
    proof {
        if r is Ok {
            let t = r->Ok_0;
            assert(token_text(t@, "sub"@) == obj_text(o, "sub"@));
            assert(token_text(t@, "email"@) == obj_text(o, "email"@));
            assert(token_text(t@, "role"@) == obj_text(o, "role"@));
            assert(token_text(t@, "token_type"@) == obj_text(o, "token_type"@));
            assert(token_int(t@, "exp"@) == obj_int(o, "exp"@));
            assert(token_int(t@, "iat"@) == obj_int(o, "iat"@));
        }
    }
    r
}

/// Signs a fresh refresh token (kind `"refresh"`) bound to `jti` and `family_id`.
pub fn create_refresh_token(
    user_id: u128,
    jti: u128,
    family_id: u128,
    secret: &str,
    expiry_days: i64,
) -> (r: Result<String, AppError>)
    ensures
        r is Err ==> r->Err_0 is TokenError,
        r matches Ok(t) ==> {
            &&& token_text(t@, "sub"@) == Some(uuid_text_of(user_id))
            &&& token_text(t@, "jti"@) == Some(uuid_text_of(jti))
            &&& token_text(t@, "family_id"@) == Some(uuid_text_of(family_id))
            &&& passes_refresh_kind(t@)
            &&& token_int(t@, "iat"@) is Some
            &&& token_int(t@, "exp"@) == Some(
                shifted(token_int(t@, "iat"@)->Some_0, expiry_days * SECS_PER_DAY),
            )
        },
{
    let claims = RefreshTokenClaims::new(user_id, jti, family_id, expiry_days);
    let o = claims.to_object();
    let r = sign(&o, secret);
    proof {
        if r is Ok {
            let t = r->Ok_0;
            assert(token_text(t@, "sub"@) == obj_text(o, "sub"@));
            assert(token_text(t@, "jti"@) == obj_text(o, "jti"@));
            assert(token_text(t@, "family_id"@) == obj_text(o, "family_id"@));
            assert(token_text(t@, "token_type"@) == obj_text(o, "token_type"@));
            assert(token_int(t@, "exp"@) == obj_int(o, "exp"@));
            assert(token_int(t@, "iat"@) == obj_int(o, "iat"@));
        }
    }
    r
}

/// Signs a legacy single token (kind `"legacy"`, seven days).
pub fn create_token(user_id: u128, email: String, role: String, secret: &str) -> (r: Result<
    String,
    AppError,
>)
    ensures
        r is Err ==> r->Err_0 is TokenError,
        r matches Ok(t) ==> {
            &&& token_text(t@, "sub"@) == Some(uuid_text_of(user_id))
            &&& token_text(t@, "email"@) == Some(email@)
            &&& token_text(t@, "role"@) == Some(role@)
            &&& kind_tag(t@) == Some("legacy"@)
            &&& token_int(t@, "iat"@) is Some
            &&& token_int(t@, "exp"@) == Some(
                shifted(token_int(t@, "iat"@)->Some_0, LEGACY_TOKEN_DAYS * SECS_PER_DAY),
            )
        },
{
    let claims = Claims::new(user_id, email, role);
    let o = claims.to_object();
    let r = sign(&o, secret);
    proof {
        if r is Ok {
            let t = r->Ok_0;
            assert(token_text(t@, "sub"@) == obj_text(o, "sub"@));
            assert(token_text(t@, "email"@) == obj_text(o, "email"@));
            assert(token_text(t@, "role"@) == obj_text(o, "role"@));
            assert(token_text(t@, "token_type"@) == obj_text(o, "token_type"@));
            assert(token_int(t@, "exp"@) == obj_int(o, "exp"@));
            assert(token_int(t@, "iat"@) == obj_int(o, "iat"@));
        }
    }
    r
}

/// Accepts decoded access claims only when their kind tag is `"access"`.
pub fn accept_access_claims(c: AccessTokenClaims) -> (r: Result<AccessTokenClaims, AppError>)
    ensures
        is_access_kind(c.token_type@) ==> r == Ok::<AccessTokenClaims, AppError>(c),
        !is_access_kind(c.token_type@) ==> r matches Err(AppError::TokenError(_)),
{
    if text_eq(c.token_type.as_str(), "access") {
        Ok(c)
    } else {
        Err(AppError::TokenError(String::from_str("Invalid token type")))
    }
}

/// Accepts decoded refresh claims only when their kind tag is `"refresh"`.
pub fn accept_refresh_claims(c: RefreshTokenClaims) -> (r: Result<RefreshTokenClaims, AppError>)
    ensures
        is_refresh_kind(c.token_type@) ==> r == Ok::<RefreshTokenClaims, AppError>(c),
        !is_refresh_kind(c.token_type@) ==> r matches Err(AppError::TokenError(_)),
{
    if text_eq(c.token_type.as_str(), "refresh") {
        Ok(c)
    } else {
        Err(AppError::TokenError(String::from_str("Invalid token type")))
    }
}

/// Accepts decoded legacy claims only when they carry no kind tag or `"legacy"`,
/// so that no access or refresh token passes for a legacy one.
pub fn accept_legacy_claims(c: Claims) -> (r: Result<Claims, AppError>)
    ensures
        is_legacy_kind(opt_view(c.token_type)) ==> r == Ok::<Claims, AppError>(c),
        !is_legacy_kind(opt_view(c.token_type)) ==> r matches Err(AppError::TokenError(_)),
{
    let ok = match &c.token_type {
        None => true,
        Some(t) => text_eq(t.as_str(), "legacy"),
    };
    if ok {
        Ok(c)
    } else {
        Err(AppError::TokenError(String::from_str("Invalid token type")))
    }
}

/// Checks the signature and expiry of an access token and its kind tag.
pub fn verify_access_token(token: &str, secret: &str) -> (r: Result<AccessTokenClaims, AppError>)
    ensures
        r is Ok ==> is_access_kind(r->Ok_0.token_type@) && carries_access(token@, r->Ok_0),
        r is Err ==> r->Err_0 is TokenError,
        !passes_access_kind(token@) ==> r is Err,
{
    let o = match jwt_open(token, secret) {
        Ok(o) => o,
        Err(_) => return Err(token_failure()),
    };
    let c = match (
        text_claim(&o, "sub"),
        text_claim(&o, "email"),
        text_claim(&o, "role"),
        text_claim(&o, "token_type"),
        int_claim(&o, "exp"),
        int_claim(&o, "iat"),
    ) {
        (Some(sub), Some(email), Some(role), Some(token_type), Some(exp), Some(iat)) => {
            AccessTokenClaims { sub, email, role, token_type, exp, iat }
        },
        _ => return Err(token_failure()),
    };
    accept_access_claims(c)
}

/// Checks the signature and expiry of a refresh token and its kind tag.
pub fn verify_refresh_token(token: &str, secret: &str) -> (r: Result<RefreshTokenClaims, AppError>)
    ensures
        r is Ok ==> is_refresh_kind(r->Ok_0.token_type@) && carries_refresh(token@, r->Ok_0),
        r is Err ==> r->Err_0 is TokenError,
        !passes_refresh_kind(token@) ==> r is Err,
{
    let o = match jwt_open(token, secret) {
        Ok(o) => o,
        Err(_) => return Err(token_failure()),
    };
    let c = match (
        text_claim(&o, "sub"),
        text_claim(&o, "jti"),
        text_claim(&o, "family_id"),
        text_claim(&o, "token_type"),
        int_claim(&o, "exp"),
        int_claim(&o, "iat"),
    ) {
        (Some(sub), Some(jti), Some(family_id), Some(token_type), Some(exp), Some(iat)) => {
            RefreshTokenClaims { sub, jti, family_id, token_type, exp, iat }
        },
        _ => return Err(token_failure()),
    };
    accept_refresh_claims(c)
}

/// Checks the signature and expiry of a token of the single-token flow.
pub fn verify_token(token: &str, secret: &str) -> (r: Result<Claims, AppError>)
    ensures
        r is Ok ==> is_legacy_kind(opt_view(r->Ok_0.token_type)) && carries_legacy(token@, r->Ok_0),
        r is Err ==> r->Err_0 is TokenError,
        !passes_legacy_kind(token@) ==> r is Err,
{
    let o = match jwt_open(token, secret) {
        Ok(o) => o,
        Err(_) => return Err(token_failure()),
    };
    let c = match (
        text_claim(&o, "sub"),
        text_claim(&o, "email"),
        text_claim(&o, "role"),
        int_claim(&o, "exp"),
        int_claim(&o, "iat"),
    ) {
        (Some(sub), Some(email), Some(role), Some(exp), Some(iat)) => {
            Claims { sub, email, role, token_type: text_claim(&o, "token_type"), exp, iat }
        },
        _ => return Err(token_failure()),
    };
    accept_legacy_claims(c)
}

/// Kind tags keep the three token formats apart: no tag passes both the access
/// and the refresh check, and neither an access nor a refresh tag passes the
/// legacy check.
pub proof fn lemma_kind_tags_exclusive(k: Seq<char>)
    ensures
        !(is_access_kind(k) && is_refresh_kind(k)),
        is_access_kind(k) ==> !is_legacy_kind(Some(k)),
        is_refresh_kind(k) ==> !is_legacy_kind(Some(k)),
{
    reveal_strlit("access");
    reveal_strlit("refresh");
    reveal_strlit("legacy");
    if is_access_kind(k) && is_refresh_kind(k) {
        assert("access"@.len() != "refresh"@.len());
    }
    if is_access_kind(k) && is_legacy_kind(Some(k)) {
        assert("access"@[0] != "legacy"@[0]);
    }
    if is_refresh_kind(k) && is_legacy_kind(Some(k)) {
        assert("refresh"@.len() != "legacy"@.len());
    }
}

/// A token passes the kind check of one format at most: one that passes the
/// access or the refresh check never passes another check, the legacy one
/// included. Signing both with one secret does not blur them.
pub proof fn lemma_token_kinds_exclusive(token: Seq<char>)
    ensures
        !(passes_access_kind(token) && passes_refresh_kind(token)),
        passes_access_kind(token) ==> !passes_legacy_kind(token),
        passes_refresh_kind(token) ==> !passes_legacy_kind(token),
{
    reveal_strlit("access");
    reveal_strlit("refresh");
    reveal_strlit("legacy");
    assert("access"@.len() != "refresh"@.len());
    assert("access"@[0] != "legacy"@[0]);
    assert("refresh"@.len() != "legacy"@.len());
}

} // verus!
