use vstd::prelude::*;
use crate::role::UserRole;

verus! {

/// Server settings. Identifiers elsewhere in the library are 128-bit UUID
/// values and times are Unix seconds.
#[derive(Debug, Clone)]
pub struct Config {
    pub database_url: String,
    pub jwt_secret: String,
    pub server_port: u16,
    pub server_host: String,
    pub cors_origins: Vec<String>,
    pub storage_path: String,
    pub max_file_size: usize,
    pub allow_signup: bool,
    pub admin_email: String,
    pub admin_password: String,
    pub db_min_connections: u32,
    pub db_max_connections: u32,
    pub access_token_expiry_minutes: i64,
    pub refresh_token_expiry_days: i64,
}

/// A registered user.
#[derive(Debug)]
pub struct User {
    pub id: u128,
    pub email: String,
    pub password_hash: String,
    pub role: UserRole,
    pub created_at: i64,
    pub must_change_password: bool,
}

/// What a client is shown of a user: everything but the password hash.
#[derive(Debug)]
pub struct UserInfo {
    pub id: u128,
    pub email: String,
    pub role: UserRole,
    pub created_at: i64,
    pub must_change_password: bool,
}

impl From<User> for UserInfo {
    fn from(user: User) -> (r: UserInfo) {
        UserInfo {
            id: user.id,
            email: user.email,
            role: user.role,
            created_at: user.created_at,
            must_change_password: user.must_change_password,
        }
    }
}

impl vstd::std_specs::convert::FromSpecImpl<User> for UserInfo {
    open spec fn obeys_from_spec() -> bool {
        true
    }

    open spec fn from_spec(user: User) -> UserInfo {
        UserInfo {
            id: user.id,
            email: user.email,
            role: user.role,
            created_at: user.created_at,
            must_change_password: user.must_change_password,
        }
    }
}

#[derive(Debug)]
pub struct CreateUserRequest {
    pub email: String,
    pub password: String,
}

#[derive(Debug)]
pub struct LoginRequest {
    pub email: String,
    pub password: String,
}

/// Response of the single-token flow.
#[derive(Debug)]
pub struct AuthResponse {
    pub token: String,
    pub user: UserInfo,
}

#[derive(Debug)]
pub struct ChangePasswordRequest {
    pub current_password: String,
    pub new_password: String,
}

#[derive(Debug)]
pub struct ChangePasswordResponse {
    pub message: String,
}

#[derive(Debug)]
pub struct RefreshRequest {
    pub refresh_token: String,
}

#[derive(Debug)]
pub struct LogoutRequest {
    pub refresh_token: Option<String>,
}

/// Response of login and register: a token pair and the user.
#[derive(Debug)]
pub struct TokenAuthResponse {
    pub access_token: String,
    pub refresh_token: String,
    pub token_type: String,
    pub expires_in: i64,
    pub user: UserInfo,
}

/// Response of a refresh: a new token pair.
#[derive(Debug)]
pub struct TokenRefreshResponse {
    pub access_token: String,
    pub refresh_token: String,
    pub token_type: String,
    pub expires_in: i64,
}

#[derive(Debug)]
pub struct LogoutResponse {
    pub message: String,
}

#[derive(Debug)]
pub struct LogoutAllResponse {
    pub message: String,
    pub revoked_count: i64,
}

/// An API-key-scoped bucket of files, owned by one user.
#[derive(Debug)]
pub struct Project {
    pub id: u128,
    pub user_id: u128,
    pub name: String,
    pub api_key: u128,
    pub is_public: bool,
    pub created_at: i64,
}

#[derive(Debug)]
pub struct CreateProjectRequest {
    pub name: String,
    pub is_public: Option<bool>,
}

#[derive(Debug)]
pub struct UpdateProjectRequest {
    pub name: Option<String>,
    pub is_public: Option<bool>,
}

#[derive(Debug)]
pub struct ProjectResponse {
    pub id: u128,
    pub name: String,
    pub api_key: u128,
    pub is_public: bool,
    pub created_at: i64,
    pub file_count: Option<i64>,
    pub total_size: Option<i64>,
}

/// A folder of a project, with its own visibility.
#[derive(Debug)]
pub struct Folder {
    pub id: u128,
    pub project_id: u128,
    pub path: String,
    pub is_public: bool,
    pub created_at: i64,
}

#[derive(Debug)]
pub struct CreateFolderRequest {
    pub project_id: u128,
    pub path: String,
    pub is_public: Option<bool>,
}

#[derive(Debug)]
pub struct UpdateFolderVisibilityRequest {
    pub is_public: bool,
}

#[derive(Debug)]
pub struct ListFoldersQuery {
    pub project_id: u128,
}

#[derive(Debug)]
pub struct FolderResponse {
    pub id: u128,
    pub project_id: u128,
    pub path: String,
    pub is_public: bool,
    pub created_at: i64,
    pub file_count: Option<i64>,
    pub total_size: Option<i64>,
}

/// A stored file of a project, in at most one folder.
#[derive(Debug)]
pub struct File {
    pub id: u128,
    pub project_id: u128,
    pub folder_id: Option<u128>,
    pub original_name: String,
    pub stored_name: String,
    pub file_path: String,
    pub size: i64,
    pub mime_type: String,
    pub upload_date: i64,
}

#[derive(Debug)]
pub struct FileMetadata {
    pub id: u128,
    pub project_id: u128,
    pub folder_id: Option<u128>,
    pub folder_path: Option<String>,
    pub original_name: String,
    pub size: i64,
    pub mime_type: String,
    pub upload_date: i64,
    pub download_url: String,
}

#[derive(Debug)]
pub struct UploadResponse {
    pub file_id: u128,
    pub original_name: String,
    pub size: i64,
    pub mime_type: String,
    pub download_url: String,
    pub folder_path: Option<String>,
}

#[derive(Debug)]
pub struct DownloadQuery {
    pub api_key: Option<String>,
    pub download: Option<bool>,
}

#[derive(Debug)]
pub struct DeleteFolderFilesRequest {
    pub folder_path: String,
}

#[derive(Debug)]
pub struct BulkDeleteRequest {
    pub file_ids: Vec<u128>,
}

} // verus!
