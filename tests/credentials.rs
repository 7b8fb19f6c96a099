use user_accounts::credential::{check_strength, hash, verify};
use user_accounts::error::{AppError, TokenFailure};

#[test]
fn hash_twice_differs_and_both_verify() {
    let h1 = hash("Secret123").unwrap();
    let h2 = hash("Secret123").unwrap();
    assert_ne!(h1, h2);
    assert!(h1.starts_with("$argon2id$"));
    assert!(h2.starts_with("$argon2id$"));
    assert_eq!(verify("Secret123", &h1), Ok(()));
    assert_eq!(verify("Secret123", &h2), Ok(()));
    assert_eq!(verify("Secret124", &h1), Err(AppError::Authentication));
}

#[test]
fn verify_malformed_hash_is_internal() {
    assert_eq!(verify("Secret123", "not a hash"), Err(AppError::Internal));
    assert_eq!(verify("Secret123", ""), Err(AppError::Internal));
}

#[test]
fn strength_policy() {
    assert_eq!(check_strength("Abcdef12"), Ok(()));
    assert_eq!(check_strength("Abcde12"), Err(AppError::Validation));
    assert_eq!(check_strength("abcdefg12"), Err(AppError::Validation));
    assert_eq!(check_strength("ABCDEFG12"), Err(AppError::Validation));
    assert_eq!(check_strength("Abcdefghi"), Err(AppError::Validation));
    assert_eq!(check_strength(""), Err(AppError::Validation));
}

#[test]
fn status_codes() {
    assert_eq!(AppError::Validation.status_code(), 400);
    assert_eq!(AppError::InvalidToken.status_code(), 400);
    assert_eq!(AppError::Authentication.status_code(), 401);
    assert_eq!(AppError::Authorization.status_code(), 403);
    assert_eq!(AppError::NotFound.status_code(), 404);
    assert_eq!(AppError::Internal.status_code(), 500);
    assert_eq!(AppError::Internal.public_message(), "Internal server error");
    assert_eq!(TokenFailure::Expired.to_app_error(), AppError::InvalidToken);
}

#[test]
fn public_messages_per_kind() {
    assert_eq!(AppError::Validation.public_message(), "Invalid input");
    assert_eq!(AppError::InvalidToken.public_message(), "Invalid token");
    assert_eq!(AppError::Authentication.public_message(), "Authentication failed");
    assert_eq!(AppError::Authorization.public_message(), "Access denied");
    assert_eq!(AppError::NotFound.public_message(), "Not found");
}
