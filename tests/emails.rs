use user_accounts::email::{build_link, compose, EmailConfig, EmailService, Template};
use user_accounts::token::{TokenStore, TokenType};

fn config() -> EmailConfig {
    EmailConfig {
        smtp_host: "smtp.example.com".to_string(),
        smtp_port: 587,
        smtp_username: "mailer".to_string(),
        smtp_password: "SECRET-REDACTED".to_string(),
        sender_name: "Accounts".to_string(),
        sender_email: "noreply@example.com".to_string(),
        frontend_url: "https://app.example.com".to_string(),
    }
}

#[test]
fn verification_email_carries_fresh_token() {
    let mut svc = EmailService::new(config(), TokenStore::new());
    let m = svc.send_verification_email(7, "dan@example.com", "dan", 1000).unwrap();
    assert_eq!(svc.token_repo.records.len(), 1);
    let rec = &svc.token_repo.records[0];
    assert_eq!(rec.user_id, Some(7));
    assert_eq!(rec.token_type, TokenType::EmailVerification);
    assert_eq!(rec.expires_at, 1000 + 86400);
    assert_eq!(rec.token.len(), 32);
    assert!(rec.token.chars().all(|c| c.is_ascii_alphanumeric()));
    assert!(!rec.consumed);
    let link = format!("https://app.example.com/auth/verify-email/{}", rec.token);
    assert_eq!(m.to, "dan@example.com");
    assert_eq!(m.subject, "Verify Your Email Address");
    assert!(m.text_content.contains(&link));
    assert!(m.html_content.contains(&format!("<a href=\"{}\">", link)));
    assert!(m.text_content.starts_with("Hello dan,"));
}

#[test]
fn reset_email_text_exact() {
    let svc = EmailService::new(config(), TokenStore::new());
    let m = svc.send_password_reset_email("eve@example.com", "eve", "tok123").unwrap();
    assert_eq!(m.subject, "Reset Your Password");
    assert_eq!(
        m.text_content,
        "Hello eve,\n\nA password reset was requested for your account. Open this link to choose a new password:\nhttps://app.example.com/auth/reset-password/tok123\n\nIf you did not ask for this, you can ignore this message.\n"
    );
    assert_eq!(
        m.html_content,
        "<p>Hello eve,</p><p>A password reset was requested for your account. Open this link to choose a new password:</p><p><a href=\"https://app.example.com/auth/reset-password/tok123\">https://app.example.com/auth/reset-password/tok123</a></p><p>If you did not ask for this, you can ignore this message.</p>"
    );
}

#[test]
fn compose_and_link() {
    assert_eq!(build_link("a", "/b/", "c"), "a/b/c");
    let m = compose(Template::Verification, "x@y.z", "x", "u");
    assert_eq!(m.text_content, "Hello x,\n\nPlease verify your email address by opening this link:\nu\n\nThe link is valid for 24 hours.\n");
}
