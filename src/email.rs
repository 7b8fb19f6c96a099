use vstd::prelude::*;
use vstd::string::StringExecFns;
use crate::error::AppError;
use crate::token::{fresh_record, is_alphanumeric, no_token_of_len, TokenStore, TokenType, TOKEN_LEN};

verus! {

/// How long an email-verification token stays valid: 24 hours.
pub const VERIFICATION_TTL_SECONDS: u64 = 86400;

/// Mail transport settings and the base URL that links point to.
#[derive(Clone)]
pub struct EmailConfig {
    pub smtp_host: String,
    pub smtp_port: u16,
    pub smtp_username: String,
    pub smtp_password: String,
    pub sender_name: String,
    pub sender_email: String,
    pub frontend_url: String,
}

/// A composed message, ready to be handed to the mail transport.
pub struct OutgoingEmail {
    pub to: String,
    pub subject: String,
    pub html_content: String,
    pub text_content: String,
}

/// The messages that are sent.
#[derive(Debug, Clone, Copy, PartialEq, Eq, Structural)]
pub enum Template {
    Verification,
    PasswordReset,
}

pub open spec fn subject_of(t: Template) -> Seq<char> {
    match t {
        Template::Verification => "Verify Your Email Address"@,
        Template::PasswordReset => "Reset Your Password"@,
    }
}

pub open spec fn intro_of(t: Template) -> Seq<char> {
    match t {
        Template::Verification => "Please verify your email address by opening this link:"@,
        Template::PasswordReset =>
            "A password reset was requested for your account. Open this link to choose a new password:"@,
    }
}

pub open spec fn outro_of(t: Template) -> Seq<char> {
    match t {
        Template::Verification => "The link is valid for 24 hours."@,
        Template::PasswordReset => "If you did not ask for this, you can ignore this message."@,
    }
}

/// The plain-text body of `t` for `username`, with the link `url`.
pub open spec fn text_of(t: Template, username: Seq<char>, url: Seq<char>) -> Seq<char> {
    "Hello "@ + username + ",\n\n"@ + intro_of(t) + "\n"@ + url + "\n\n"@ + outro_of(t) + "\n"@
}

/// The HTML body of `t` for `username`, with the link `url`.
pub open spec fn html_of(t: Template, username: Seq<char>, url: Seq<char>) -> Seq<char> {
    "<p>Hello "@ + username + ",</p><p>"@ + intro_of(t) + "</p><p><a href=\""@ + url + "\">"@ + url
        + "</a></p><p>"@ + outro_of(t) + "</p>"@
}

/// The link that carries `token`: the frontend base URL, then `path`.
pub open spec fn link_of(base: Seq<char>, path: Seq<char>, token: Seq<char>) -> Seq<char> {
    base + path + token
}

/// `m` is the message `t` to `to`, for `username`, with the link `url`.
pub open spec fn composes(
    m: OutgoingEmail,
    t: Template,
    to: Seq<char>,
    username: Seq<char>,
    url: Seq<char>,
) -> bool {
    &&& m.to@ == to
    &&& m.subject@ == subject_of(t)
    &&& m.text_content@ == text_of(t, username, url)
    &&& m.html_content@ == html_of(t, username, url)
}

impl Template {
    pub fn subject(&self) -> (r: &'static str)
        ensures
            r@ == subject_of(*self),
    {
        match self {
            Template::Verification => "Verify Your Email Address",
            Template::PasswordReset => "Reset Your Password",
        }
    }

    fn intro(&self) -> (r: &'static str)
        ensures
            r@ == intro_of(*self),
    {
        match self {
            Template::Verification => "Please verify your email address by opening this link:",
            Template::PasswordReset =>
                "A password reset was requested for your account. Open this link to choose a new password:",
        }
    }

    fn outro(&self) -> (r: &'static str)
        ensures
            r@ == outro_of(*self),
    {
        match self {
            Template::Verification => "The link is valid for 24 hours.",
            Template::PasswordReset => "If you did not ask for this, you can ignore this message.",
        }
    }

    /// Renders the plain-text body.
    pub fn render_text(&self, username: &str, url: &str) -> (r: String)
        ensures
            r@ == text_of(*self, username@, url@),
    {
        let mut s = String::new();
        s.append("Hello ");
        s.append(username);
        s.append(",\n\n");
        s.append(self.intro());
        s.append("\n");
        s.append(url);
        s.append("\n\n");
        s.append(self.outro());
        s.append("\n");
        s
    }

    /// Renders the HTML body.
    pub fn render_html(&self, username: &str, url: &str) -> (r: String)
        ensures
            r@ == html_of(*self, username@, url@),
    {
        let mut s = String::new();
        s.append("<p>Hello ");
        s.append(username);
        s.append(",</p><p>");
        s.append(self.intro());
        s.append("</p><p><a href=\"");
        s.append(url);
        s.append("\">");
        s.append(url);
        s.append("</a></p><p>");
        s.append(self.outro());
        s.append("</p>");
        s
    }
}

/// Composes the message `t` to `to` for `username` with the link `url`.
pub fn compose(t: Template, to: &str, username: &str, url: &str) -> (r: OutgoingEmail)
    ensures
        composes(r, t, to@, username@, url@),
{
    OutgoingEmail {
        to: String::from_str(to),
        subject: String::from_str(t.subject()),
        html_content: t.render_html(username, url),
        text_content: t.render_text(username, url),
    }
}

/// Builds the link `base` + `path` + `token`.
pub fn build_link(base: &str, path: &str, token: &str) -> (r: String)
    ensures
        r@ == link_of(base@, path@, token@),
{
    let mut s = String::from_str(base);
    s.append(path);
    s.append(token);
    s
}

/// Composes verification and password-reset messages; the verification
/// token is issued here.
pub struct EmailService {
    pub email_config: EmailConfig,
    pub token_repo: TokenStore,
}

impl EmailService {
    pub fn new(email_config: EmailConfig, token_repo: TokenStore) -> (r: Self)
        ensures
            r.email_config == email_config,
            r.token_repo == token_repo,
    {
        Self { email_config, token_repo }
    }

    /// Issues an email-verification token for `user_id`, valid for 24 hours.
    fn generate_verification_token(&mut self, user_id: u128, now: u64) -> (r: Result<
        String,
        AppError,
    >)
        requires
            old(self).token_repo.wf(),
            now + VERIFICATION_TTL_SECONDS <= u64::MAX,
        ensures
            final(self).token_repo.wf(),
            final(self).email_config == old(self).email_config,
            no_token_of_len(old(self).token_repo.records@, TOKEN_LEN as int) ==> r is Ok,
            r matches Ok(t) ==> t@.len() == TOKEN_LEN && (forall|i: int|
                0 <= i < t@.len() ==> is_alphanumeric(#[trigger] t@[i])) && final(self).token_repo.records@ == old(self).token_repo.records@.push(
                fresh_record(
                    t,
                    Some(user_id),
                    TokenType::EmailVerification,
                    now,
                    VERIFICATION_TTL_SECONDS,
                ),
            ),
            r matches Err(e) ==> e == AppError::Internal && final(self).token_repo.records@ == old(
                self,
            ).token_repo.records@,
    {
        self.token_repo.issue(
            Some(user_id),
            TokenType::EmailVerification,
            VERIFICATION_TTL_SECONDS,
            now,
        )
    }

    /// Issues a verification token for `user_id` and composes the message
    /// that carries its link to `email`. Sending it is left to the caller,
    /// which does not wait for delivery.
    pub fn send_verification_email(
        &mut self,
        user_id: u128,
        email: &str,
        username: &str,
        now: u64,
    ) -> (r: Result<OutgoingEmail, AppError>)
        requires
            old(self).token_repo.wf(),
            now + VERIFICATION_TTL_SECONDS <= u64::MAX,
        ensures
            final(self).token_repo.wf(),
            final(self).email_config == old(self).email_config,
            no_token_of_len(old(self).token_repo.records@, TOKEN_LEN as int) ==> r is Ok,
            r matches Ok(m) ==> {
                let t = final(self).token_repo.records@.last().token;
                &&& t@.len() == TOKEN_LEN
                &&& forall|i: int| 0 <= i < t@.len() ==> is_alphanumeric(#[trigger] t@[i])
                &&& final(self).token_repo.records@ == old(self).token_repo.records@.push(
                    fresh_record(
                        t,
                        Some(user_id),
                        TokenType::EmailVerification,
                        now,
                        VERIFICATION_TTL_SECONDS,
                    ),
                )
                &&& composes(
                    m,
                    Template::Verification,
                    email@,
                    username@,
                    link_of(old(self).email_config.frontend_url@, "/auth/verify-email/"@, t@),
                )
            },
            r matches Err(e) ==> e == AppError::Internal && final(self).token_repo.records@ == old(
                self,
            ).token_repo.records@,
    {
        let token = match self.generate_verification_token(user_id, now) {
            Ok(t) => t,
            Err(e) => return Err(e),
        };
        let url = build_link(
            self.email_config.frontend_url.as_str(),
            "/auth/verify-email/",
            token.as_str(),
        );
        Ok(compose(Template::Verification, email, username, url.as_str()))
    }

    /// Composes the message that carries the password-reset link for the
    /// already issued `token` to `email`.
    pub fn send_password_reset_email(&self, email: &str, username: &str, token: &str) -> (r:
        Result<OutgoingEmail, AppError>)
        ensures
            r matches Ok(m) && composes(
                m,
                Template::PasswordReset,
                email@,
                username@,
                link_of(self.email_config.frontend_url@, "/auth/reset-password/"@, token@),
            ),
    {
        let url = build_link(
            self.email_config.frontend_url.as_str(),
            "/auth/reset-password/",
            token,
        );
        Ok(compose(Template::PasswordReset, email, username, url.as_str()))
    }
}

} // verus!
