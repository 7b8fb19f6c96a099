use user_accounts::account::{AccountDirectory, CreateUserDto, UpdatePasswordDto, UpdateUserDto};
use user_accounts::error::AppError;
use user_accounts::handlers::{self, total_pages, Claims};
use user_accounts::policy::{can_act, Action, Actor, Role};
use user_accounts::token::{TokenStore, TokenType};
use user_accounts::user_management::UserManagementService;

const FAKE_HASH: &str = "$argon2id$v=19$m=19456,t=2,p=1$c2FsdHNhbHQ$aGFzaGhhc2hoYXNoaGFzaA";

fn dto(name: &str, email: &str, password: &str) -> CreateUserDto {
    CreateUserDto {
        username: name.to_string(),
        email: email.to_string(),
        password: password.to_string(),
    }
}

fn directory_with(n: u128) -> AccountDirectory {
    let mut dir = AccountDirectory::new();
    for i in 1..=n {
        let d = dto(&format!("user{}", i), &format!("u{}@example.com", i), "Password1");
        dir.create(i, d, FAKE_HASH.to_string(), 10).unwrap();
    }
    dir
}

fn claims(id: u128, role: Role) -> Claims {
    Claims { sub: uuid::Uuid::from_u128(id).to_string(), role }
}

fn no_change() -> UpdateUserDto {
    UpdateUserDto { username: None, email: None, is_active: None }
}

#[test]
fn pagination_second_page() {
    let svc = UserManagementService::new(directory_with(25));
    let (page, total) = svc.get_all_users(2, 10).unwrap();
    assert_eq!(total, 25);
    let ids: Vec<u128> = page.iter().map(|u| u.id).collect();
    assert_eq!(ids, (11..=20).collect::<Vec<u128>>());
    assert_eq!(total_pages(total, 10), 3);
    let admin = claims(1, Role::Administrator);
    let listed = handlers::list_users(&admin, &svc, 3, 10).unwrap();
    assert_eq!(listed.data.len(), 5);
    assert_eq!(listed.total, 25);
    assert_eq!(listed.total_pages, 3);
    assert_eq!(listed.page, 3);
    assert!(svc.get_all_users(4, 10).unwrap().0.is_empty());
    assert_eq!(svc.get_all_users(0, 10).err(), Some(AppError::Validation));
    assert_eq!(svc.get_all_users(1, 0).err(), Some(AppError::Validation));
}

#[test]
fn pagination_skips_deleted_and_pages_exact() {
    let mut svc = UserManagementService::new(directory_with(3));
    svc.delete_user(2, 20).unwrap();
    let (page, total) = svc.get_all_users(1, 10).unwrap();
    assert_eq!(total, 2);
    assert_eq!(page.iter().map(|u| u.id).collect::<Vec<_>>(), vec![1, 3]);
    assert_eq!(total_pages(0, 10), 0);
    assert_eq!(total_pages(20, 10), 2);
    assert_eq!(total_pages(21, 10), 3);
    assert_eq!(total_pages(u64::MAX, 1), u64::MAX);
}

#[test]
fn listing_needs_administrator() {
    let svc = UserManagementService::new(directory_with(2));
    let user = claims(1, Role::Ordinary);
    assert_eq!(handlers::list_users(&user, &svc, 1, 10).err(), Some(AppError::Authorization));
    let bad = Claims { sub: "not-a-uuid".to_string(), role: Role::Administrator };
    assert_eq!(handlers::list_users(&bad, &svc, 1, 10).err(), Some(AppError::Authentication));
}

#[test]
fn current_user_from_claims() {
    let svc = UserManagementService::new(directory_with(3));
    let me = handlers::get_current_user(&claims(2, Role::Ordinary), &svc).unwrap();
    assert_eq!(me.id, 2);
    assert_eq!(me.email, "u2@example.com");
    assert_eq!(
        handlers::get_current_user(&claims(9, Role::Ordinary), &svc).err(),
        Some(AppError::NotFound)
    );
    assert_eq!(
        handlers::get_user(&claims(2, Role::Ordinary), &svc, 3).err(),
        Some(AppError::Authorization)
    );
    assert_eq!(handlers::get_user(&claims(1, Role::Administrator), &svc, 3).unwrap().id, 3);
}

#[test]
fn policy_table() {
    let user = Actor { id: 5, role: Role::Ordinary };
    let admin = Actor { id: 6, role: Role::Administrator };
    assert!(can_act(&user, Action::ReadSelf, 5));
    assert!(!can_act(&user, Action::ReadSelf, 6));
    assert!(!can_act(&user, Action::ReadAny, 5));
    assert!(!can_act(&user, Action::UpdateActiveFlag, 5));
    assert!(!can_act(&user, Action::ListAll, 5));
    assert!(!can_act(&user, Action::DeleteAny, 5));
    assert!(can_act(&user, Action::ChangeOwnPassword, 5));
    assert!(!can_act(&user, Action::ChangeAnyPassword, 7));
    assert!(can_act(&admin, Action::UpdateActiveFlag, 6));
    assert!(can_act(&admin, Action::DeleteAny, 1));
    assert!(can_act(&admin, Action::Create, 1));
}

#[test]
fn update_authorization() {
    let mut svc = UserManagementService::new(directory_with(2));
    let a = claims(1, Role::Ordinary);
    let rename = UpdateUserDto { username: Some("renamed".to_string()), email: None, is_active: None };
    let u = handlers::update_user(&a, &mut svc, 1, rename, 30).unwrap();
    assert_eq!(u.username, "renamed");
    assert_eq!(u.updated_at, 30);
    assert_eq!(handlers::update_user(&a, &mut svc, 2, no_change(), 30).err(), Some(AppError::Authorization));
    let deactivate = || UpdateUserDto { username: None, email: None, is_active: Some(false) };
    assert_eq!(
        handlers::update_user(&a, &mut svc, 1, deactivate(), 30).err(),
        Some(AppError::Authorization)
    );
    assert_eq!(
        handlers::update_current_user(&a, &mut svc, deactivate(), 30).err(),
        Some(AppError::Authorization)
    );
    assert!(svc.get_user_by_id(1).unwrap().is_active);
    let admin = claims(2, Role::Administrator);
    let u = handlers::update_user(&admin, &mut svc, 1, deactivate(), 31).unwrap();
    assert!(!u.is_active);
}

#[test]
fn update_validation_and_conflicts() {
    let mut svc = UserManagementService::new(directory_with(2));
    let taken = UpdateUserDto { username: None, email: Some("u2@example.com".to_string()), is_active: None };
    assert_eq!(svc.update_user(1, taken, 5).err(), Some(AppError::Validation));
    let bad_email = UpdateUserDto { username: None, email: Some("nope".to_string()), is_active: None };
    assert_eq!(svc.update_user(1, bad_email, 5).err(), Some(AppError::Validation));
    let short = UpdateUserDto { username: Some("ab".to_string()), email: None, is_active: None };
    assert_eq!(svc.update_user(1, short, 5).err(), Some(AppError::Validation));
    assert_eq!(svc.update_user(9, no_change(), 5).err(), Some(AppError::NotFound));
    let own = UpdateUserDto { username: None, email: Some("u1@example.com".to_string()), is_active: None };
    assert_eq!(svc.update_user(1, own, 5).unwrap().email, "u1@example.com");
}

#[test]
fn register_validation() {
    let mut svc = UserManagementService::new(directory_with(1));
    assert_eq!(svc.register_user(dto("bob", "not-an-email", "Password1"), 1).err(), Some(AppError::Validation));
    assert_eq!(svc.register_user(dto("bo", "bob@example.com", "Password1"), 1).err(), Some(AppError::Validation));
    assert_eq!(svc.register_user(dto("bob", "bob@example.com", "weak"), 1).err(), Some(AppError::Validation));
    assert_eq!(svc.register_user(dto("bob", "u1@example.com", "Password1"), 1).err(), Some(AppError::Validation));
    assert_eq!(svc.user_repo.accounts.len(), 1);
}

#[test]
fn soft_delete_frees_email() {
    let mut svc = UserManagementService::new(directory_with(2));
    assert_eq!(svc.delete_user(1, 50), Ok(()));
    assert_eq!(svc.get_user_by_id(1).err(), Some(AppError::NotFound));
    assert_eq!(svc.get_user_by_email("u1@example.com").err(), Some(AppError::NotFound));
    assert_eq!(svc.delete_user(1, 51), Err(AppError::NotFound));
    assert_eq!(svc.user_repo.accounts.len(), 2);
    assert!(svc.user_repo.accounts[0].deleted);
    let a = svc.register_user(dto("again", "u1@example.com", "Password1"), 60).unwrap();
    assert_ne!(a.id, 1);
    assert_eq!(svc.get_user_by_email("u1@example.com").unwrap().id, a.id);
    assert_eq!(a.role, Role::Ordinary);
    assert!(a.is_active && !a.email_verified && !a.deleted);
    assert_eq!(svc.verify_password("Password1", &a.password_hash), Ok(()));
}

#[test]
fn delete_needs_administrator() {
    let mut svc = UserManagementService::new(directory_with(2));
    assert_eq!(handlers::delete_user(&claims(1, Role::Ordinary), &mut svc, 1, 5), Err(AppError::Authorization));
    assert_eq!(handlers::delete_user(&claims(2, Role::Administrator), &mut svc, 1, 5), Ok(()));
}

#[test]
fn own_password_change() {
    let mut svc = UserManagementService::new(AccountDirectory::new());
    let a = svc.register_user(dto("carol", "carol@example.com", "OldPass1"), 1).unwrap();
    let before = svc.user_repo.accounts[0].password_hash.clone();
    assert_eq!(svc.update_password(a.id, "WrongPass1", "NewPass12", 2), Err(AppError::Authentication));
    assert_eq!(svc.user_repo.accounts[0].password_hash, before);
    assert_eq!(svc.update_password(a.id, "OldPass1", "weak", 2), Err(AppError::Validation));
    assert_eq!(svc.update_password(a.id, "OldPass1", "NewPass12", 3), Ok(()));
    let after = svc.user_repo.accounts[0].password_hash.clone();
    assert_eq!(svc.verify_password("NewPass12", &after), Ok(()));
    assert_eq!(svc.verify_password("OldPass1", &after), Err(AppError::Authentication));
    assert_eq!(svc.user_repo.accounts[0].updated_at, 3);
}

#[test]
fn password_routes() {
    let mut svc = UserManagementService::new(directory_with(2));
    let pw = UpdatePasswordDto { current_password: String::new(), new_password: "Brandnew1".to_string() };
    assert_eq!(
        handlers::update_user_password(&claims(1, Role::Ordinary), &mut svc, 2, &pw, 5),
        Err(AppError::Authorization)
    );
    assert_eq!(handlers::update_user_password(&claims(1, Role::Administrator), &mut svc, 2, &pw, 5), Ok(()));
    let h = svc.user_repo.accounts[1].password_hash.clone();
    assert_eq!(svc.verify_password("Brandnew1", &h), Ok(()));
    assert_eq!(svc.update_user_password(9, "Brandnew1", 5), Err(AppError::NotFound));
    assert_eq!(svc.update_user_password(1, "short", 5), Err(AppError::Validation));
    let own = UpdatePasswordDto { current_password: "Brandnew1".to_string(), new_password: "Brandnew2".to_string() };
    assert_eq!(handlers::update_current_user_password(&claims(2, Role::Ordinary), &mut svc, &own, 6), Ok(()));
}

#[test]
fn email_verification_is_idempotent_and_token_bound() {
    let mut svc = UserManagementService::new(directory_with(2));
    let mut tokens = TokenStore::new();
    let t = tokens.issue(Some(1), TokenType::EmailVerification, 100, 0).unwrap();
    assert!(svc.confirm_email(&mut tokens, &t, 5).unwrap().email_verified);
    assert_eq!(svc.confirm_email(&mut tokens, &t, 6).err(), Some(AppError::InvalidToken));
    assert!(svc.verify_email(1).unwrap().email_verified);
    let t2 = tokens.issue(Some(2), TokenType::EmailVerification, 100, 0).unwrap();
    svc.delete_user(2, 7).unwrap();
    assert_eq!(svc.confirm_email(&mut tokens, &t2, 8).err(), Some(AppError::NotFound));
    assert_eq!(svc.verify_email(2).err(), Some(AppError::NotFound));
}

#[test]
fn reset_password_with_token_flow() {
    let mut svc = UserManagementService::new(directory_with(1));
    let mut tokens = TokenStore::new();
    let t = tokens.issue(Some(1), TokenType::PasswordReset, 100, 0).unwrap();
    assert_eq!(svc.reset_password_with_token(&mut tokens, &t, "weak", 1), Err(AppError::Validation));
    assert_eq!(svc.reset_password_with_token(&mut tokens, &t, "Fresh1234", 1), Ok(()));
    let h = svc.user_repo.accounts[0].password_hash.clone();
    assert_eq!(svc.verify_password("Fresh1234", &h), Ok(()));
    assert_eq!(svc.reset_password_with_token(&mut tokens, &t, "Fresh1234", 2), Err(AppError::InvalidToken));
}

#[test]
fn role_claims() {
    assert_eq!(Role::from_claim("admin"), Role::Administrator);
    assert_eq!(Role::from_claim("user"), Role::Ordinary);
    assert_eq!(Role::from_claim("Admin"), Role::Ordinary);
    assert_eq!(Role::from_claim(""), Role::Ordinary);
}

#[test]
fn admin_creates_account() {
    let mut svc = UserManagementService::new(directory_with(1));
    let d = dto("frank", "frank@example.com", "Password9");
    assert_eq!(
        handlers::create_user(&claims(1, Role::Ordinary), &mut svc, dto("frank", "frank@example.com", "Password9"), 5).err(),
        Some(AppError::Authorization)
    );
    let u = handlers::create_user(&claims(1, Role::Administrator), &mut svc, d, 5).unwrap();
    assert_eq!(u.email, "frank@example.com");
    assert_eq!(u.username, "frank");
    assert_eq!(u.role, Role::Ordinary);
    assert_eq!(u.created_at, 5);
    assert_eq!(svc.user_repo.accounts.len(), 2);
    let stored = &svc.user_repo.accounts[1];
    assert_eq!(stored.id, u.id);
    assert!(stored.password_hash.starts_with("$argon2id$"));
    assert_eq!(svc.verify_password("Password9", &stored.password_hash), Ok(()));
}
