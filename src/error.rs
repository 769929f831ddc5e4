use vstd::prelude::*;

verus! {

/// Every failure the authentication and authorization core can report.
#[derive(Debug, Clone)]
pub enum AppError {
    Database(String),
    Unauthorized,
    InvalidCredentials,
    TokenError(String),
    TokenNotFound,
    RefreshTokenExpired,
    TokenReuseDetected,
    NotFound(String),
    BadRequest(String),
    InternalError(String),
    FileError(String),
    ValidationError(String),
    SignupDisabled,
}

/// The HTTP status family each error maps to at the boundary.
pub open spec fn status_of(e: AppError) -> u16 {
    match e {
        AppError::Database(_) => 500,
        AppError::Unauthorized => 401,
        AppError::InvalidCredentials => 401,
        AppError::TokenError(_) => 401,
        AppError::TokenNotFound => 401,
        AppError::RefreshTokenExpired => 401,
        AppError::TokenReuseDetected => 401,
        AppError::NotFound(_) => 404,
        AppError::BadRequest(_) => 400,
        AppError::InternalError(_) => 500,
        AppError::FileError(_) => 500,
        AppError::ValidationError(_) => 400,
        AppError::SignupDisabled => 403,
    }
}

/// Errors whose detail is shown to the client as it stands.
pub open spec fn shows_detail(e: AppError) -> bool {
    match e {
        AppError::NotFound(_) | AppError::BadRequest(_) | AppError::FileError(_)
        | AppError::ValidationError(_) => true,
        _ => false,
    }
}

pub open spec fn detail_of(e: AppError) -> Seq<char> {
    match e {
        AppError::NotFound(m) | AppError::BadRequest(m) | AppError::FileError(m)
        | AppError::ValidationError(m) => m@,
        _ => Seq::empty(),
    }
}

impl AppError {
    /// HTTP status code for this error.
    pub fn status_code(&self) -> (r: u16)
        ensures
            r == status_of(*self),
    {
        match self {
            AppError::Database(_) => 500,
            AppError::Unauthorized => 401,
            AppError::InvalidCredentials => 401,
            AppError::TokenError(_) => 401,
            AppError::TokenNotFound => 401,
            AppError::RefreshTokenExpired => 401,
            AppError::TokenReuseDetected => 401,
            AppError::NotFound(_) => 404,
            AppError::BadRequest(_) => 400,
            AppError::InternalError(_) => 500,
            AppError::FileError(_) => 500,
            AppError::ValidationError(_) => 400,
            AppError::SignupDisabled => 403,
        }
    }

    /// The message put in the `{error: ...}` body. Database, token and internal
    /// failures get a fixed generic text; validation, not-found, bad-request and
    /// file failures carry their own detail.
    pub fn client_message(&self) -> (r: String)
        ensures
            shows_detail(*self) ==> r@ == detail_of(*self),
            *self is Database ==> r@ == "Database error"@,
            *self is Unauthorized ==> r@ == "Authentication failed"@,
            *self is InvalidCredentials ==> r@ == "Invalid credentials"@,
            *self is TokenError ==> r@ == "Invalid token"@,
            *self is TokenNotFound ==> r@ == "Token not found"@,
            *self is RefreshTokenExpired ==> r@ == "Refresh token expired"@,
            *self is TokenReuseDetected ==> r@ == "Token reuse detected"@,
            *self is InternalError ==> r@ == "Internal server error"@,
            *self is SignupDisabled ==> r@ == "Signup is disabled"@,
    {
        match self {
            AppError::Database(_) => String::from_str("Database error"),
            AppError::Unauthorized => String::from_str("Authentication failed"),
            AppError::InvalidCredentials => String::from_str("Invalid credentials"),
            AppError::TokenError(_) => String::from_str("Invalid token"),
            AppError::TokenNotFound => String::from_str("Token not found"),
            AppError::RefreshTokenExpired => String::from_str("Refresh token expired"),
            AppError::TokenReuseDetected => String::from_str("Token reuse detected"),
            AppError::NotFound(m) => m.clone(),
            AppError::BadRequest(m) => m.clone(),
            AppError::InternalError(_) => String::from_str("Internal server error"),
            AppError::FileError(m) => m.clone(),
            AppError::ValidationError(m) => m.clone(),
            AppError::SignupDisabled => String::from_str("Signup is disabled"),
        }
    }
}

} // verus!
