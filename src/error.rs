use vstd::prelude::*;

verus! {

/// The error kinds that the services report to the request boundary.
#[derive(Debug, Clone, Copy, PartialEq, Eq, Structural)]
pub enum AppError {
    /// Malformed or duplicate input, or a weak password.
    Validation,
    /// Wrong password or a malformed credential claim.
    Authentication,
    /// The actor lacks permission for the requested action.
    Authorization,
    /// The account or token is absent or soft-deleted.
    NotFound,
    /// A single-use token could not be redeemed.
    InvalidToken,
    /// A cryptographic or infrastructure fault.
    Internal,
}

/// Why a token could not be redeemed.
#[derive(Debug, Clone, Copy, PartialEq, Eq, Structural)]
pub enum TokenFailure {
    NotFound,
    Expired,
    AlreadyUsed,
    TypeMismatch,
}

pub open spec fn status_of(e: AppError) -> u16 {
    match e {
        AppError::Validation => 400,
        AppError::InvalidToken => 400,
        AppError::Authentication => 401,
        AppError::Authorization => 403,
        AppError::NotFound => 404,
        AppError::Internal => 500,
    }
}

/// The message shown to a client for each kind; internal details never leak.
pub open spec fn message_of(e: AppError) -> Seq<char> {
    match e {
        AppError::Validation => "Invalid input"@,
        AppError::InvalidToken => "Invalid token"@,
        AppError::Authentication => "Authentication failed"@,
        AppError::Authorization => "Access denied"@,
        AppError::NotFound => "Not found"@,
        AppError::Internal => "Internal server error"@,
    }
}

impl AppError {
    /// The HTTP status code that the request boundary reports for this error.
    pub fn status_code(&self) -> (r: u16)
        ensures
            r == status_of(*self),
    {
        match self {
            AppError::Validation => 400,
            AppError::InvalidToken => 400,
            AppError::Authentication => 401,
            AppError::Authorization => 403,
            AppError::NotFound => 404,
            AppError::Internal => 500,
        }
    }

    /// A message safe to show to the client; internal details never leak.
    pub fn public_message(&self) -> (r: &'static str)
        ensures
            r@ == message_of(*self),
    {
        match self {
            AppError::Validation => "Invalid input",
            AppError::InvalidToken => "Invalid token",
            AppError::Authentication => "Authentication failed",
            AppError::Authorization => "Access denied",
            AppError::NotFound => "Not found",
            AppError::Internal => "Internal server error",
        }
    }
}

impl TokenFailure {
    /// Every token failure is reported alike, so that callers cannot tell
    /// which case applied.
    pub fn to_app_error(&self) -> (r: AppError)
        ensures
            r == AppError::InvalidToken,
    {
        AppError::InvalidToken
    }
}

} // verus!
