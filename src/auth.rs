use vstd::prelude::*;
use crate::error::AppError;
use crate::external::{email_valid, is_email, random_uuid, uuid_text_of};
use crate::role::role_name;
use crate::gate::AuthUser;
use crate::jwt::{
    passes_access_kind, passes_refresh_kind, token_text,
    create_access_token, create_refresh_token, hash_token, shift_time, shifted, token_digest,
    verify_refresh_token, SECS_PER_DAY, SECS_PER_MINUTE,
};
use crate::models::{
    ChangePasswordRequest, ChangePasswordResponse, Config, CreateUserRequest, LoginRequest,
    LogoutAllResponse, LogoutRequest, LogoutResponse, RefreshRequest, TokenAuthResponse,
    TokenRefreshResponse, User, UserInfo,
};
use crate::session::{
    has_family, has_hash, has_id, hash_at, live_selected, may_rotate, revoke_where, revoked,
    rotated, store_wf, RefreshToken, RevokeReason, Selector, SessionStore,
};

verus! {

/// Fewest characters a password may have.
pub const MIN_PASSWORD_CHARS: usize = 8;

/// A session row just issued for `user_id` and the refresh token text `token`.
pub open spec fn issued_row(
    row: RefreshToken,
    user_id: u128,
    token: Seq<char>,
    now: i64,
    days: i64,
) -> bool {
    &&& row.user_id == user_id
    &&& row.token_hash@ == token_digest(token)
    &&& row.revoked_at is None
    &&& row.revoked_reason is None
    &&& row.created_at == now
    &&& row.expires_at == shifted(now, days * SECS_PER_DAY)
}

/// Lifetime of an access token in seconds, as reported to clients.
pub open spec fn access_lifetime(config: Config) -> i64 {
    shifted(0, config.access_token_expiry_minutes * SECS_PER_MINUTE)
}

fn copy_text(o: &Option<String>) -> (r: Option<String>)
    ensures
        r == *o,
{
    match o {
        Some(s) => Some(s.clone()),
        None => None,
    }
}

/// Starts a session for `user`: an access token, and a refresh token under a
/// fresh id and a fresh family, whose hash is stored as one new row. Nothing
/// else is stored; access tokens never are.
pub fn create_token_pair(
    store: &mut SessionStore,
    user: &User,
    config: &Config,
    user_agent: Option<String>,
    ip_address: Option<String>,
    now: i64,
) -> (r: Result<(String, String, i64), AppError>)
    requires
        old(store).wf(),
    ensures
        final(store).wf(),
        r is Err ==> final(store)@ == old(store)@,
        r is Ok ==> {
            &&& final(store)@.len() == old(store)@.len() + 1
            &&& final(store)@.drop_last() == old(store)@
            &&& issued_row(
                final(store)@.last(),
                user.id,
                r->Ok_0.1@,
                now,
                config.refresh_token_expiry_days,
            )
            &&& !has_id(old(store)@, final(store)@.last().id)
            &&& !has_family(old(store)@, final(store)@.last().family_id)
            &&& r->Ok_0.2 == access_lifetime(*config)
            &&& passes_access_kind(r->Ok_0.0@)
            &&& token_text(r->Ok_0.0@, "sub"@) == Some(uuid_text_of(user.id))
            &&& token_text(r->Ok_0.0@, "email"@) == Some(user.email@)
            &&& token_text(r->Ok_0.0@, "role"@) == Some(role_name(user.role))
            &&& passes_refresh_kind(r->Ok_0.1@)
            &&& token_text(r->Ok_0.1@, "sub"@) == Some(uuid_text_of(user.id))
            &&& token_text(r->Ok_0.1@, "jti"@) == Some(uuid_text_of(final(store)@.last().id))
            &&& token_text(r->Ok_0.1@, "family_id"@) == Some(
                uuid_text_of(final(store)@.last().family_id),
            )
        },
{
    let access_token = create_access_token(
        user.id,
        user.email.clone(),
        user.role.to_string(),
        config.jwt_secret.as_str(),
        config.access_token_expiry_minutes,
    )?;
    let jti = random_uuid();
    let family_id = random_uuid();
    if store.contains_family(family_id) {
        return Err(AppError::InternalError(String::from_str("Duplicate session family")));
    }
    let refresh_token = create_refresh_token(
        user.id,
        jti,
        family_id,
        config.jwt_secret.as_str(),
        config.refresh_token_expiry_days,
    )?;
    let token_hash = hash_token(refresh_token.as_str());
    let row = RefreshToken {
        id: jti,
        user_id: user.id,
        token_hash,
        family_id,
        expires_at: shift_time(now, config.refresh_token_expiry_days, SECS_PER_DAY),
        created_at: now,
        revoked_at: None,
        revoked_reason: None,
        user_agent,
        ip_address,
    };
    store.insert(row)?;
    assert(final(store)@.drop_last() =~= old(store)@);
    let expires_in = shift_time(0, config.access_token_expiry_minutes, SECS_PER_MINUTE);
    Ok((access_token, refresh_token, expires_in))
}

fn find_user(users: &Vec<User>, id: u128) -> (r: Option<usize>)
    ensures
        r matches Some(k) ==> k < users@.len() && users@[k as int].id == id,
        r is None ==> forall|k: int| 0 <= k < users@.len() ==> users@[k].id != id,
{
    let mut k: usize = 0;
    while k < users.len()
        invariant
            k <= users@.len(),
            forall|j: int| 0 <= j < k ==> users@[j].id != id,
        decreases users@.len() - k,
    {
        if users[k].id == id {
            return Some(k);
        }
        k = k + 1;
    }
    None
}

/// Rotates a refresh token. The token must pass the refresh check; its row is
/// found by hash. A revoked row means a replay: the whole family is revoked
/// and the request fails with `TokenReuseDetected`. An expired row fails with
/// `RefreshTokenExpired`. On success the presented row alone is revoked for
/// rotation and one new row of the same family, under a new id, is stored.
pub fn refresh_token(
    store: &mut SessionStore,
    users: &Vec<User>,
    request: &RefreshRequest,
    config: &Config,
    now: i64,
) -> (r: Result<TokenRefreshResponse, AppError>)
    requires
        old(store).wf(),
    ensures
        final(store).wf(),
        r is Ok ==> may_rotate(old(store)@, token_digest(request.refresh_token@), now),
        r is Ok ==> exists|i: int|
            #![trigger hash_at(old(store)@, token_digest(request.refresh_token@), i)]
            hash_at(old(store)@, token_digest(request.refresh_token@), i) && rotated(
                old(store)@,
                final(store)@,
                i,
                now,
            ) && issued_row(
                final(store)@.last(),
                old(store)@[i].user_id,
                r->Ok_0.refresh_token@,
                now,
                config.refresh_token_expiry_days,
            ),
        r is Ok ==> r->Ok_0.token_type@ == "Bearer"@ && r->Ok_0.expires_in == access_lifetime(
            *config,
        ),
        r is Ok ==> {
            &&& passes_access_kind(r->Ok_0.access_token@)
            &&& passes_refresh_kind(r->Ok_0.refresh_token@)
            &&& token_text(r->Ok_0.refresh_token@, "jti"@) == Some(
                uuid_text_of(final(store)@.last().id),
            )
            &&& token_text(r->Ok_0.refresh_token@, "family_id"@) == Some(
                uuid_text_of(final(store)@.last().family_id),
            )
        },
        !passes_refresh_kind(request.refresh_token@) ==> (r matches Err(AppError::TokenError(_)))
            && final(store)@ == old(store)@,
        r matches Err(AppError::TokenReuseDetected) ==> exists|i: int|
            #![trigger hash_at(old(store)@, token_digest(request.refresh_token@), i)]
            hash_at(old(store)@, token_digest(request.refresh_token@), i)
                && old(store)@[i].revoked_at is Some && final(store)@ == revoke_where(
                old(store)@,
                Selector::Family(old(store)@[i].family_id),
                RevokeReason::SecurityReuseDetected,
                now,
            ),
        r is Err && !(r matches Err(AppError::TokenReuseDetected)) ==> final(store)@
            == old(store)@,
        forall|i: int|
            #[trigger] hash_at(old(store)@, token_digest(request.refresh_token@), i)
                && old(store)@[i].revoked_at is None && old(store)@[i].expires_at < now ==> ((
            r matches Err(AppError::RefreshTokenExpired)) || (r matches Err(AppError::TokenError(_))))
                && final(store)@ == old(store)@,
        forall|i: int|
            #[trigger] hash_at(old(store)@, token_digest(request.refresh_token@), i)
                && old(store)@[i].revoked_at is None && !(old(store)@[i].expires_at < now) && (
            forall|k: int| 0 <= k < users@.len() ==> users@[k].id != old(store)@[i].user_id) ==> ((
            r matches Err(AppError::NotFound(_))) || (r matches Err(AppError::TokenError(_))))
                && final(store)@ == old(store)@,
        !has_hash(old(store)@, token_digest(request.refresh_token@)) ==> (r matches Err(
            AppError::TokenNotFound,
        )) || (r matches Err(AppError::TokenError(_))),
        (forall|i: int|
            #[trigger] hash_at(old(store)@, token_digest(request.refresh_token@), i)
                ==> old(store)@[i].revoked_at is Some) ==> r is Err,
        forall|i: int|
            #[trigger] hash_at(old(store)@, token_digest(request.refresh_token@), i)
                && old(store)@[i].revoked_at is Some ==> ((r matches Err(
                AppError::TokenReuseDetected,
            )) && final(store)@ == revoke_where(
                old(store)@,
                Selector::Family(old(store)@[i].family_id),
                RevokeReason::SecurityReuseDetected,
                now,
            )) || ((r matches Err(AppError::TokenError(_))) && final(store)@ == old(store)@),
{
    let presented = request.refresh_token.as_str();
    let _claims = verify_refresh_token(presented, config.jwt_secret.as_str())?;
    let token_hash = hash_token(presented);
    let i = store.begin_rotation(token_hash.as_str(), now)?;
    let ghost i0 = i as int;
    assert(hash_at(old(store)@, token_digest(request.refresh_token@), i0));
    let user_id = store.row(i).user_id;
    let family_id = store.row(i).family_id;
    let k = match find_user(users, user_id) {
        Some(k) => k,
        None => return Err(AppError::NotFound(String::from_str("User not found"))),
    };
    let user = &users[k];
    let access_token = create_access_token(
        user.id,
        user.email.clone(),
        user.role.to_string(),
        config.jwt_secret.as_str(),
        config.access_token_expiry_minutes,
    )?;
    let new_jti = random_uuid();
    let new_refresh = create_refresh_token(
        user.id,
        new_jti,
        family_id,
        config.jwt_secret.as_str(),
        config.refresh_token_expiry_days,
    )?;
    let new_hash = hash_token(new_refresh.as_str());
    let next = RefreshToken {
        id: new_jti,
        user_id,
        token_hash: new_hash,
        family_id,
        expires_at: shift_time(now, config.refresh_token_expiry_days, SECS_PER_DAY),
        created_at: now,
        revoked_at: None,
        revoked_reason: None,
        user_agent: copy_text(&store.row(i).user_agent),
        ip_address: copy_text(&store.row(i).ip_address),
    };
    store.complete_rotation(i, next, now)?;
    Ok(TokenRefreshResponse {
        access_token,
        refresh_token: new_refresh,
        token_type: String::from_str("Bearer"),
        expires_in: shift_time(0, config.access_token_expiry_minutes, SECS_PER_MINUTE),
    })
}

/// Ends one session of the caller: the caller's live row for the given
/// refresh token, if any, is revoked for logout. Without a token nothing changes.
pub fn logout(
    store: &mut SessionStore,
    auth_user: &AuthUser,
    request: &LogoutRequest,
    now: i64,
) -> (r: LogoutResponse)
    requires
        old(store).wf(),
    ensures
        final(store).wf(),
        request.refresh_token is None ==> final(store)@ == old(store)@,
        request.refresh_token matches Some(t) ==> exists|h: String|
            h@ == token_digest(t@) && final(store)@ == revoke_where(
                old(store)@,
                Selector::UserHash(auth_user.id, h),
                RevokeReason::Logout,
                now,
            ),
        r.message@ == "Logged out successfully"@,
{
    match &request.refresh_token {
        Some(t) => {
            let h = hash_token(t.as_str());
            store.revoke_matching(&Selector::UserHash(auth_user.id, h), RevokeReason::Logout, now);
        },
        None => {},
    }
    LogoutResponse { message: String::from_str("Logged out successfully") }
}

/// Ends every session of the caller and reports how many were live.
pub fn logout_all(store: &mut SessionStore, auth_user: &AuthUser, now: i64) -> (r:
    LogoutAllResponse)
    requires
        old(store).wf(),
    ensures
        final(store).wf(),
        final(store)@ == revoke_where(
            old(store)@,
            Selector::User(auth_user.id),
            RevokeReason::LogoutAll,
            now,
        ),
        live_selected(old(store)@, Selector::User(auth_user.id)) <= i64::MAX ==> r.revoked_count
            == live_selected(old(store)@, Selector::User(auth_user.id)),
        r.message@ == "All sessions logged out"@,
{
    let n = store.revoke_matching(&Selector::User(auth_user.id), RevokeReason::LogoutAll, now);
    let revoked_count: i64 = if n > i64::MAX as u64 {
        i64::MAX
    } else {
        n as i64
    };
    LogoutAllResponse { message: String::from_str("All sessions logged out"), revoked_count }
}

/// Whether a password is long enough: at least eight characters.
pub open spec fn password_long_enough(p: Seq<char>) -> bool {
    p.len() >= MIN_PASSWORD_CHARS
}

/// Changes the caller's password. The new password must be long enough
/// (`ValidationError`) and the current one must have been verified
/// (`BadRequest` otherwise). The stored hash is replaced, the
/// must-change flag cleared, and every live session of the user revoked.
pub fn change_password(
    store: &mut SessionStore,
    user: &mut User,
    request: &ChangePasswordRequest,
    current_password_valid: bool,
    new_password_hash: String,
    now: i64,
) -> (r: Result<ChangePasswordResponse, AppError>)
    requires
        old(store).wf(),
    ensures
        final(store).wf(),
        !password_long_enough(request.new_password@) ==> (r matches Err(
            AppError::ValidationError(_),
        )) && final(store)@ == old(store)@ && *final(user) == *old(user),
        password_long_enough(request.new_password@) && !current_password_valid ==> (r matches Err(
            AppError::BadRequest(m),
        ) && m@ == "Current password is incorrect"@) && final(store)@ == old(store)@ && *final(user)
            == *old(user),
        r is Ok ==> r->Ok_0.message@ == "Password changed successfully"@,
        password_long_enough(request.new_password@) && current_password_valid ==> {
            &&& r is Ok
            &&& final(user).id == old(user).id
            &&& final(user).email == old(user).email
            &&& final(user).role == old(user).role
            &&& final(user).created_at == old(user).created_at
            &&& final(user).password_hash == new_password_hash
            &&& !final(user).must_change_password
            &&& final(store)@ == revoke_where(
                old(store)@,
                Selector::User(old(user).id),
                RevokeReason::PasswordChange,
                now,
            )
        },
{
    if request.new_password.as_str().unicode_len() < MIN_PASSWORD_CHARS {
        return Err(
            AppError::ValidationError(String::from_str("Password must be at least 8 characters")),
        );
    }
    if !current_password_valid {
        return Err(AppError::BadRequest(String::from_str("Current password is incorrect")));
    }
    user.password_hash = new_password_hash;
    user.must_change_password = false;
    store.revoke_matching(&Selector::User(user.id), RevokeReason::PasswordChange, now);
    Ok(ChangePasswordResponse { message: String::from_str("Password changed successfully") })
}

/// Checks a registration request: a valid email address, a password of at
/// least eight characters, and sign-up open.
pub fn validate_registration(request: &CreateUserRequest, config: &Config) -> (r: Result<
    (),
    AppError,
>)
    ensures
        !email_valid(request.email@) ==> r matches Err(AppError::ValidationError(_)),
        email_valid(request.email@) && !password_long_enough(request.password@) ==> (r matches Err(
            AppError::ValidationError(_),
        )),
        email_valid(request.email@) && password_long_enough(request.password@)
            && !config.allow_signup ==> (r matches Err(AppError::SignupDisabled)),
        email_valid(request.email@) && password_long_enough(request.password@)
            && config.allow_signup ==> r is Ok,
{
    if !is_email(request.email.as_str()) {
        return Err(AppError::ValidationError(String::from_str("Invalid email address")));
    }
    if request.password.as_str().unicode_len() < MIN_PASSWORD_CHARS {
        return Err(
            AppError::ValidationError(String::from_str("Password must be at least 8 characters")),
        );
    }
    if !config.allow_signup {
        return Err(AppError::SignupDisabled);
    }
    Ok(())
}

/// Logs a user in: the address must be valid, the user must exist and the
/// password must have been verified; each failure of the last two is the same
/// `InvalidCredentials`. Then a new session is started.
pub fn login(
    store: &mut SessionStore,
    request: &LoginRequest,
    user: Option<User>,
    password_valid: bool,
    config: &Config,
    now: i64,
) -> (r: Result<TokenAuthResponse, AppError>)
    requires
        old(store).wf(),
    ensures
        final(store).wf(),
        !email_valid(request.email@) ==> (r matches Err(AppError::ValidationError(_)))
            && final(store)@ == old(store)@,
        email_valid(request.email@) && (user is None || !password_valid) ==> (r matches Err(
            AppError::InvalidCredentials,
        )) && final(store)@ == old(store)@,
        r is Ok ==> user is Some && password_valid && final(store)@.len() == old(store)@.len() + 1
            && final(store)@.drop_last() == old(store)@ && issued_row(
            final(store)@.last(),
            user->Some_0.id,
            r->Ok_0.refresh_token@,
            now,
            config.refresh_token_expiry_days,
        ) && r->Ok_0.user.id == user->Some_0.id,
        r is Ok ==> {
            let u = user->Some_0;
            &&& r->Ok_0.token_type@ == "Bearer"@
            &&& r->Ok_0.expires_in == access_lifetime(*config)
            &&& r->Ok_0.user == UserInfo {
                id: u.id,
                email: u.email,
                role: u.role,
                created_at: u.created_at,
                must_change_password: u.must_change_password,
            }
            &&& !has_id(old(store)@, final(store)@.last().id)
            &&& !has_family(old(store)@, final(store)@.last().family_id)
        },
        r is Err && email_valid(request.email@) && user is Some && password_valid ==> final(store)@
            == old(store)@,
{
    if !is_email(request.email.as_str()) {
        return Err(AppError::ValidationError(String::from_str("Invalid email address")));
    }
    let user = match user {
        Some(u) => u,
        None => return Err(AppError::InvalidCredentials),
    };
    if !password_valid {
        return Err(AppError::InvalidCredentials);
    }
    let (access_token, refresh_token, expires_in) = create_token_pair(
        store,
        &user,
        config,
        None,
        None,
        now,
    )?;
    Ok(TokenAuthResponse {
        access_token,
        refresh_token,
        token_type: String::from_str("Bearer"),
        expires_in,
        user: UserInfo::from(user),
    })
}

/// A successful rotation leaves the presented token unusable: its row is
/// revoked, so the same token can never be rotated again.
pub proof fn lemma_rotated_token_is_spent(
    before: Seq<RefreshToken>,
    after: Seq<RefreshToken>,
    i: int,
    now: i64,
    later: i64,
)
    requires
        store_wf(after),
        rotated(before, after, i, now),
    ensures
        !may_rotate(after, before[i].token_hash@, later),
{
    if may_rotate(after, before[i].token_hash@, later) {
        let j = choose|j: int|
            hash_at(after, before[i].token_hash@, j) && after[j].revoked_at is None && !(
            after[j].expires_at < later);
        assert(after[i].token_hash@ == before[i].token_hash@);
        assert(after[i].revoked_at is Some);
        assert(i != j);
    }
}

} // verus!
