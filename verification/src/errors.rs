use vstd::prelude::*;

verus! {

/// The error taxonomy of the service. Every failure path of the library
/// produces exactly one of these values; the HTTP layer maps each to a
/// status code and a stable, generic message via `status_code` and
/// `error_message`, so no internal detail ever leaks to a caller.
#[derive(Debug, Clone, Copy, PartialEq, Eq, Structural)]
pub enum AppError {
    AuthenticationFailed,
    InvalidCredentials,
    UserAlreadyExists,
    UserNotFound,
    TaskNotFound,
    Unauthorized,
    ValidationError,
    DatabaseError,
    JwtError,
    InternalServerError,
}

impl AppError {
    /// The HTTP status code the surrounding layer should answer with.
    pub fn status_code(&self) -> (r: u16)
        ensures
            r == self.spec_status_code(),
    {
        match self {
            AppError::AuthenticationFailed => 401,
            AppError::InvalidCredentials => 401,
            AppError::UserAlreadyExists => 409,
            AppError::UserNotFound => 404,
            AppError::TaskNotFound => 404,
            AppError::Unauthorized => 403,
            AppError::ValidationError => 400,
            AppError::DatabaseError => 500,
            AppError::JwtError => 401,
            AppError::InternalServerError => 500,
        }
    }

    pub open spec fn spec_status_code(&self) -> u16 {
        match self {
            AppError::AuthenticationFailed => 401,
            AppError::InvalidCredentials => 401,
            AppError::UserAlreadyExists => 409,
            AppError::UserNotFound => 404,
            AppError::TaskNotFound => 404,
            AppError::Unauthorized => 403,
            AppError::ValidationError => 400,
            AppError::DatabaseError => 500,
            AppError::JwtError => 401,
            AppError::InternalServerError => 500,
        }
    }

    /// The generic, stable message for the response body.
    pub fn error_message(&self) -> (r: String)
        ensures
            r@ == self.spec_error_message(),
    {
        match self {
            AppError::AuthenticationFailed => "Authentication failed".to_owned(),
            AppError::InvalidCredentials => "Invalid credentials".to_owned(),
            AppError::UserAlreadyExists => "User already exists".to_owned(),
            AppError::UserNotFound => "User not found".to_owned(),
            AppError::TaskNotFound => "Task not found".to_owned(),
            AppError::Unauthorized => "Unauthorized access".to_owned(),
            AppError::ValidationError => "Validation failed".to_owned(),
            AppError::DatabaseError => "Database error".to_owned(),
            AppError::JwtError => "Token error".to_owned(),
            AppError::InternalServerError => "Internal server error".to_owned(),
        }
    }

    pub open spec fn spec_error_message(&self) -> Seq<char> {
        match self {
            AppError::AuthenticationFailed => "Authentication failed"@,
            AppError::InvalidCredentials => "Invalid credentials"@,
            AppError::UserAlreadyExists => "User already exists"@,
            AppError::UserNotFound => "User not found"@,
            AppError::TaskNotFound => "Task not found"@,
            AppError::Unauthorized => "Unauthorized access"@,
            AppError::ValidationError => "Validation failed"@,
            AppError::DatabaseError => "Database error"@,
            AppError::JwtError => "Token error"@,
            AppError::InternalServerError => "Internal server error"@,
        }
    }
}

} // verus!
