use user_accounts::error::TokenFailure;
use user_accounts::token::{TokenRecord, TokenStore, TokenType, TOKEN_LEN};

#[test]
fn issued_token_is_long_and_alphanumeric() {
    let mut store = TokenStore::new();
    let t = store.issue(Some(7), TokenType::EmailVerification, 100, 1000).unwrap();
    assert_eq!(t.len(), TOKEN_LEN);
    assert!(t.chars().all(|c| c.is_ascii_alphanumeric()));
    assert_eq!(store.records.len(), 1);
    assert_eq!(store.records[0].expires_at, 1100);
    assert_eq!(store.records[0].created_at, 1000);
    assert!(!store.records[0].consumed);
    let t2 = store.issue(Some(7), TokenType::EmailVerification, 100, 1000).unwrap();
    assert_ne!(t, t2);
}

#[test]
fn token_is_single_use() {
    let mut store = TokenStore::new();
    let t = store.issue(Some(42), TokenType::PasswordReset, 3600, 1000).unwrap();
    assert_eq!(store.validate_and_consume(&t, TokenType::PasswordReset, 1001), Ok(Some(42)));
    assert_eq!(
        store.validate_and_consume(&t, TokenType::PasswordReset, 1002),
        Err(TokenFailure::AlreadyUsed)
    );
    assert_eq!(
        store.validate_and_consume(&t, TokenType::EmailVerification, 1002),
        Err(TokenFailure::AlreadyUsed)
    );
}

#[test]
fn token_expires_whatever_its_state() {
    let mut store = TokenStore::new();
    let t = store.issue(Some(1), TokenType::EmailVerification, 10, 100).unwrap();
    assert_eq!(
        store.validate_and_consume(&t, TokenType::EmailVerification, 111),
        Err(TokenFailure::Expired)
    );
    assert_eq!(store.validate_and_consume(&t, TokenType::EmailVerification, 110), Ok(Some(1)));
    assert_eq!(
        store.validate_and_consume(&t, TokenType::EmailVerification, 111),
        Err(TokenFailure::Expired)
    );
}

#[test]
fn token_wrong_type_and_unknown() {
    let mut store = TokenStore::new();
    let t = store.issue(None, TokenType::EmailVerification, 10, 100).unwrap();
    assert_eq!(
        store.validate_and_consume(&t, TokenType::PasswordReset, 100),
        Err(TokenFailure::TypeMismatch)
    );
    assert_eq!(
        store.validate_and_consume("nope", TokenType::PasswordReset, 100),
        Err(TokenFailure::NotFound)
    );
    assert_eq!(store.validate_and_consume(&t, TokenType::EmailVerification, 100), Ok(None));
}

#[test]
fn duplicate_token_not_inserted() {
    let mut store = TokenStore::new();
    let rec = |s: &str| TokenRecord {
        token: s.to_string(),
        user_id: None,
        token_type: TokenType::PasswordReset,
        created_at: 0,
        expires_at: 5,
        consumed: false,
    };
    assert!(store.insert(rec("abc")));
    assert!(!store.insert(rec("abc")));
    assert!(store.insert(rec("abd")));
    assert_eq!(store.find("abd"), Some(1));
    assert_eq!(store.find("zzz"), None);
}
