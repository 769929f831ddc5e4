use filerunner::auth::{
    change_password, create_token_pair, login, logout, logout_all, refresh_token, validate_registration,
};
use filerunner::error::AppError;
use filerunner::gate::{optional_auth, require_auth, AuthUser};
use filerunner::jwt::{
    create_access_token, create_refresh_token, create_token, hash_token, shift_time, verify_access_token,
    verify_refresh_token, verify_token, AccessTokenClaims, RefreshTokenClaims,
};
use filerunner::models::{
    ChangePasswordRequest, Config, CreateUserRequest, LoginRequest, LogoutRequest, RefreshRequest, User, UserInfo,
};
use filerunner::role::UserRole;
use filerunner::session::{revocation_write_outcome, RevokeReason, SessionStore};

const SECRET: &str = "test-signing-secret";
const USER_ID: u128 = 0x1111_2222_3333_4444_5555_6666_7777_8888;
const NOW: i64 = 1_700_000_000;

fn config() -> Config {
    Config {
        database_url: "postgres://localhost/test".to_string(),
        jwt_secret: SECRET.to_string(),
        server_port: 8000,
        server_host: "127.0.0.1".to_string(),
        cors_origins: vec!["http://localhost:3000".to_string()],
        storage_path: "./storage".to_string(),
        max_file_size: 1024,
        allow_signup: true,
        admin_email: "admin@example.com".to_string(),
        admin_password: "admin".to_string(),
        db_min_connections: 1,
        db_max_connections: 2,
        access_token_expiry_minutes: 15,
        refresh_token_expiry_days: 7,
    }
}

fn alice() -> User {
    User {
        id: USER_ID,
        email: "alice@example.com".to_string(),
        password_hash: "stored-hash".to_string(),
        role: UserRole::User,
        created_at: 1,
        must_change_password: true,
    }
}

fn bearer(token: &str) -> String {
    format!("Bearer {token}")
}

#[test]
fn hash_token_is_sha256_hex() {
    assert_eq!(hash_token("abc"), "ba7816bf8f01cfea414140de5dae2223b00361a396177a9cb410ff61f20015ad");
    assert_eq!(hash_token(""), "e3b0c44298fc1c149afbf4c8996fb92427ae41e4649b934ca495991b7852b855");
    assert_eq!(hash_token("abc"), hash_token("abc"));
}

#[test]
fn claims_times_are_exact() {
    let a = AccessTokenClaims::new_at(USER_ID, "e".to_string(), "user".to_string(), 15, 1000);
    assert_eq!(a.iat, 1000);
    assert_eq!(a.exp, 1900);
    assert_eq!(a.token_type, "access");
    assert_eq!(a.sub, "11112222-3333-4444-5555-666677778888");
    let r = RefreshTokenClaims::new_at(USER_ID, 1, 2, 7, 1000);
    assert_eq!(r.exp, 1000 + 7 * 86400);
    assert_eq!(r.token_type, "refresh");
    assert_eq!(r.jti, "00000000-0000-0000-0000-000000000001");
    assert_eq!(shift_time(i64::MAX - 5, 1, 60), i64::MAX);
    assert_eq!(shift_time(10, -1, 60), -50);
}

#[test]
fn access_and_refresh_tokens_are_not_interchangeable() {
    let access = create_access_token(USER_ID, "a@b.c".to_string(), "user".to_string(), SECRET, 15).unwrap();
    let refresh = create_refresh_token(USER_ID, 7, 8, SECRET, 7).unwrap();
    let a = verify_access_token(&access, SECRET).unwrap();
    assert_eq!(a.token_type, "access");
    assert_eq!(a.email, "a@b.c");
    let r = verify_refresh_token(&refresh, SECRET).unwrap();
    assert_eq!(r.token_type, "refresh");
    assert_eq!(r.family_id, "00000000-0000-0000-0000-000000000008");
    assert!(matches!(verify_refresh_token(&access, SECRET), Err(AppError::TokenError(_))));
    assert!(matches!(verify_access_token(&refresh, SECRET), Err(AppError::TokenError(_))));
    assert!(matches!(verify_token(&refresh, SECRET), Err(AppError::TokenError(_))));
    assert!(matches!(verify_token(&access, SECRET), Err(AppError::TokenError(_))));
    assert!(matches!(verify_access_token(&access, "other-secret"), Err(AppError::TokenError(_))));
    assert!(matches!(verify_access_token("garbage", SECRET), Err(AppError::TokenError(_))));
}

#[test]
fn legacy_tokens_pass_only_the_legacy_check() {
    let legacy = create_token(USER_ID, "a@b.c".to_string(), "admin".to_string(), SECRET).unwrap();
    let c = verify_token(&legacy, SECRET).unwrap();
    assert_eq!(c.token_type.as_deref(), Some("legacy"));
    assert!(verify_access_token(&legacy, SECRET).is_err());
    assert!(verify_refresh_token(&legacy, SECRET).is_err());
}

#[test]
fn gate_resolves_access_then_legacy_tokens() {
    let access = create_access_token(USER_ID, "a@b.c".to_string(), "admin".to_string(), SECRET, 15).unwrap();
    let u = require_auth(Some(&bearer(&access)), SECRET).unwrap();
    assert_eq!(u.id, USER_ID);
    assert_eq!(u.email, "a@b.c");
    assert_eq!(u.role, UserRole::Admin);
    let legacy = create_token(USER_ID, "l@b.c".to_string(), "user".to_string(), SECRET).unwrap();
    let l = require_auth(Some(&bearer(&legacy)), SECRET).unwrap();
    assert_eq!(l.email, "l@b.c");
    assert_eq!(l.role, UserRole::User);
    assert!(optional_auth(Some(&bearer(&access)), SECRET).0.is_some());
}

#[test]
fn gate_rejects_missing_malformed_and_refresh_credentials() {
    assert!(matches!(require_auth(None, SECRET), Err(AppError::Unauthorized)));
    let access = create_access_token(USER_ID, "a@b.c".to_string(), "user".to_string(), SECRET, 15).unwrap();
    assert!(matches!(require_auth(Some(&format!("Basic {access}")), SECRET), Err(AppError::Unauthorized)));
    assert!(matches!(require_auth(Some(&access), SECRET), Err(AppError::Unauthorized)));
    let refresh = create_refresh_token(USER_ID, 1, 2, SECRET, 7).unwrap();
    assert!(matches!(require_auth(Some(&bearer(&refresh)), SECRET), Err(AppError::Unauthorized)));
    assert!(optional_auth(None, SECRET).0.is_none());
    assert!(optional_auth(Some(&bearer(&refresh)), SECRET).0.is_none());
    assert!(optional_auth(Some("Bearer nonsense"), SECRET).0.is_none());
}

#[test]
fn gate_decodes_roles_strictly() {
    let odd = create_access_token(USER_ID, "a@b.c".to_string(), "superuser".to_string(), SECRET, 15).unwrap();
    assert!(matches!(require_auth(Some(&bearer(&odd)), SECRET), Err(AppError::TokenError(_))));
    assert!(optional_auth(Some(&bearer(&odd)), SECRET).0.is_none());
    assert_eq!(UserRole::parse("admin"), Some(UserRole::Admin));
    assert_eq!(UserRole::parse("user"), Some(UserRole::User));
    assert_eq!(UserRole::parse("Admin"), None);
    assert_eq!(UserRole::Admin.to_string(), "admin");
}

#[test]
fn token_pair_stores_one_hashed_row() {
    let mut store = SessionStore::new();
    let (access, refresh, expires_in) = create_token_pair(&mut store, &alice(), &config(), None, None, NOW).unwrap();
    assert_eq!(expires_in, 900);
    assert_eq!(store.len(), 1);
    let row = store.row(0);
    assert_eq!(row.user_id, USER_ID);
    assert_eq!(row.token_hash, hash_token(&refresh));
    assert_ne!(row.token_hash, refresh);
    assert_eq!(row.expires_at, NOW + 7 * 86400);
    assert!(row.revoked_at.is_none());
    assert!(verify_access_token(&access, SECRET).is_ok());
}

#[test]
fn rotation_revokes_presented_row_and_adds_one_sibling() {
    let mut store = SessionStore::new();
    let users = vec![alice()];
    let (_, first, _) = create_token_pair(&mut store, &alice(), &config(), None, None, NOW).unwrap();
    let resp = refresh_token(&mut store, &users, &RefreshRequest { refresh_token: first.clone() }, &config(), NOW + 10)
        .unwrap();
    assert_eq!(resp.token_type, "Bearer");
    assert_eq!(resp.expires_in, 900);
    assert_eq!(store.len(), 2);
    let old = store.row(0);
    let new = store.row(1);
    assert_eq!(old.revoked_at, Some(NOW + 10));
    assert_eq!(old.revoked_reason, Some(RevokeReason::Rotation));
    assert_eq!(new.family_id, old.family_id);
    assert_ne!(new.id, old.id);
    assert!(new.revoked_at.is_none());
    assert_eq!(new.token_hash, hash_token(&resp.refresh_token));
    assert!(verify_access_token(&resp.access_token, SECRET).is_ok());
}

#[test]
fn replaying_a_rotated_token_revokes_the_family() {
    let mut store = SessionStore::new();
    let users = vec![alice()];
    let cfg = config();
    let (_, first, _) = create_token_pair(&mut store, &alice(), &cfg, None, None, NOW).unwrap();
    let (_, other, _) = create_token_pair(&mut store, &alice(), &cfg, None, None, NOW).unwrap();
    let second = refresh_token(&mut store, &users, &RefreshRequest { refresh_token: first.clone() }, &cfg, NOW + 1)
        .unwrap()
        .refresh_token;
    let replay = refresh_token(&mut store, &users, &RefreshRequest { refresh_token: first }, &cfg, NOW + 2);
    assert!(matches!(replay, Err(AppError::TokenReuseDetected)));
    let family = store.row(0).family_id;
    for i in 0..store.len() {
        let row = store.row(i);
        if row.family_id == family {
            assert!(row.revoked_at.is_some());
        } else {
            assert!(row.revoked_at.is_none());
        }
    }
    assert_eq!(store.row(2).revoked_reason, Some(RevokeReason::SecurityReuseDetected));
    let sibling = refresh_token(&mut store, &users, &RefreshRequest { refresh_token: second }, &cfg, NOW + 3);
    assert!(sibling.is_err());
    assert!(refresh_token(&mut store, &users, &RefreshRequest { refresh_token: other }, &cfg, NOW + 3).is_ok());
}

#[test]
fn refresh_failures_change_nothing() {
    let mut store = SessionStore::new();
    let users = vec![alice()];
    let cfg = config();
    let (access, first, _) = create_token_pair(&mut store, &alice(), &cfg, None, None, NOW).unwrap();
    let unknown = create_refresh_token(USER_ID, 5, 6, SECRET, 7).unwrap();
    let r = refresh_token(&mut store, &users, &RefreshRequest { refresh_token: unknown }, &cfg, NOW);
    assert!(matches!(r, Err(AppError::TokenNotFound)));
    let r = refresh_token(&mut store, &users, &RefreshRequest { refresh_token: access }, &cfg, NOW);
    assert!(matches!(r, Err(AppError::TokenError(_))));
    let late = NOW + 8 * 86400;
    let r = refresh_token(&mut store, &users, &RefreshRequest { refresh_token: first }, &cfg, late);
    assert!(matches!(r, Err(AppError::RefreshTokenExpired)));
    assert_eq!(store.len(), 1);
    assert!(store.row(0).revoked_at.is_none());
}

#[test]
fn password_change_revokes_every_session_of_the_user() {
    let mut store = SessionStore::new();
    let cfg = config();
    let mut user = alice();
    let users = vec![alice()];
    let (_, t1, _) = create_token_pair(&mut store, &user, &cfg, None, None, NOW).unwrap();
    let (_, _t2, _) = create_token_pair(&mut store, &user, &cfg, None, None, NOW).unwrap();
    let mut bob = alice();
    bob.id = 42;
    let (_, _t3, _) = create_token_pair(&mut store, &bob, &cfg, None, None, NOW).unwrap();
    let short = ChangePasswordRequest { current_password: "old".to_string(), new_password: "short".to_string() };
    assert!(matches!(
        change_password(&mut store, &mut user, &short, true, "h".to_string(), NOW),
        Err(AppError::ValidationError(_))
    ));
    let req = ChangePasswordRequest { current_password: "old".to_string(), new_password: "long enough".to_string() };
    assert!(matches!(
        change_password(&mut store, &mut user, &req, false, "h".to_string(), NOW),
        Err(AppError::BadRequest(_))
    ));
    assert!(store.row(0).revoked_at.is_none());
    let ok = change_password(&mut store, &mut user, &req, true, "new-hash".to_string(), NOW + 5).unwrap();
    assert_eq!(ok.message, "Password changed successfully");
    assert_eq!(user.password_hash, "new-hash");
    assert!(!user.must_change_password);
    assert_eq!(store.row(0).revoked_reason, Some(RevokeReason::PasswordChange));
    assert_eq!(store.row(1).revoked_reason, Some(RevokeReason::PasswordChange));
    assert!(store.row(2).revoked_at.is_none());
    let r = refresh_token(&mut store, &users, &RefreshRequest { refresh_token: t1 }, &cfg, NOW + 6);
    assert!(r.is_err());
}

#[test]
fn logout_revokes_one_session_and_logout_all_counts() {
    let mut store = SessionStore::new();
    let cfg = config();
    let me = AuthUser { id: USER_ID, email: "alice@example.com".to_string(), role: UserRole::User };
    let (_, t1, _) = create_token_pair(&mut store, &alice(), &cfg, None, None, NOW).unwrap();
    create_token_pair(&mut store, &alice(), &cfg, None, None, NOW).unwrap();
    create_token_pair(&mut store, &alice(), &cfg, None, None, NOW).unwrap();
    let stranger = AuthUser { id: 9, email: "x@y.z".to_string(), role: UserRole::User };
    logout(&mut store, &stranger, &LogoutRequest { refresh_token: Some(t1.clone()) }, NOW);
    assert!(store.row(0).revoked_at.is_none());
    let r = logout(&mut store, &me, &LogoutRequest { refresh_token: Some(t1) }, NOW);
    assert_eq!(r.message, "Logged out successfully");
    assert_eq!(store.row(0).revoked_reason, Some(RevokeReason::Logout));
    let all = logout_all(&mut store, &me, NOW);
    assert_eq!(all.revoked_count, 2);
    assert_eq!(store.row(0).revoked_reason, Some(RevokeReason::Logout));
    assert_eq!(store.row(1).revoked_reason, Some(RevokeReason::LogoutAll));
    assert_eq!(logout_all(&mut store, &me, NOW).revoked_count, 0);
}

#[test]
fn login_checks_address_user_and_password() {
    let mut store = SessionStore::new();
    let cfg = config();
    let good = LoginRequest { email: "alice@example.com".to_string(), password: "pw".to_string() };
    let bad = LoginRequest { email: "not-an-address".to_string(), password: "pw".to_string() };
    assert!(matches!(login(&mut store, &bad, Some(alice()), true, &cfg, NOW), Err(AppError::ValidationError(_))));
    assert!(matches!(login(&mut store, &good, None, true, &cfg, NOW), Err(AppError::InvalidCredentials)));
    assert!(matches!(login(&mut store, &good, Some(alice()), false, &cfg, NOW), Err(AppError::InvalidCredentials)));
    assert_eq!(store.len(), 0);
    let ok = login(&mut store, &good, Some(alice()), true, &cfg, NOW).unwrap();
    assert_eq!(ok.token_type, "Bearer");
    assert_eq!(ok.user.id, USER_ID);
    assert_eq!(store.len(), 1);
}

#[test]
fn registration_is_validated() {
    let mut cfg = config();
    let ok = CreateUserRequest { email: "new@example.com".to_string(), password: "12345678".to_string() };
    assert!(validate_registration(&ok, &cfg).is_ok());
    let short = CreateUserRequest { email: "new@example.com".to_string(), password: "1234567".to_string() };
    assert!(matches!(validate_registration(&short, &cfg), Err(AppError::ValidationError(_))));
    let bad = CreateUserRequest { email: "".to_string(), password: "12345678".to_string() };
    assert!(matches!(validate_registration(&bad, &cfg), Err(AppError::ValidationError(_))));
    cfg.allow_signup = false;
    assert!(matches!(validate_registration(&ok, &cfg), Err(AppError::SignupDisabled)));
}

#[test]
fn user_info_hides_the_password_hash() {
    let info = UserInfo::from(alice());
    assert_eq!(info.id, USER_ID);
    assert_eq!(info.email, "alice@example.com");
    assert!(info.must_change_password);
}

#[test]
fn errors_map_to_status_and_generic_messages() {
    assert_eq!(AppError::Unauthorized.status_code(), 401);
    assert_eq!(AppError::TokenReuseDetected.status_code(), 401);
    assert_eq!(AppError::BadRequest("x".to_string()).status_code(), 400);
    assert_eq!(AppError::ValidationError("x".to_string()).status_code(), 400);
    assert_eq!(AppError::NotFound("x".to_string()).status_code(), 404);
    assert_eq!(AppError::Database("boom".to_string()).status_code(), 500);
    assert_eq!(AppError::SignupDisabled.status_code(), 403);
    assert_eq!(AppError::Database("secret detail".to_string()).client_message(), "Database error");
    assert_eq!(AppError::TokenError("detail".to_string()).client_message(), "Invalid token");
    assert_eq!(AppError::NotFound("File not found".to_string()).client_message(), "File not found");
    assert_eq!(AppError::InternalError("x".to_string()).client_message(), "Internal server error");
}

#[test]
fn replayed_conditional_revocation_is_reuse() {
    assert!(matches!(revocation_write_outcome(RevokeReason::Rotation, false), Err(AppError::TokenReuseDetected)));
    assert!(revocation_write_outcome(RevokeReason::Rotation, true).is_ok());
    assert!(revocation_write_outcome(RevokeReason::Logout, false).is_ok());
    assert_eq!(RevokeReason::SecurityReuseDetected.as_str(), "security_reuse_detected");
}

#[test]
fn issued_refresh_token_names_its_row() {
    let mut store = SessionStore::new();
    let (_, refresh, _) = create_token_pair(&mut store, &alice(), &config(), None, None, NOW).unwrap();
    let claims = verify_refresh_token(&refresh, SECRET).unwrap();
    let row = store.row(0);
    assert_eq!(claims.jti, uuid_text(row.id));
    assert_eq!(claims.family_id, uuid_text(row.family_id));
    assert_eq!(claims.sub, "11112222-3333-4444-5555-666677778888");
}

fn uuid_text(v: u128) -> String {
    let h = format!("{v:032x}");
    format!("{}-{}-{}-{}-{}", &h[0..8], &h[8..12], &h[12..16], &h[16..20], &h[20..32])
}
