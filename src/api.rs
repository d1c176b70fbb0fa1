use crate::email::Email;
use vstd::prelude::*;

verus! {

/// A signup request as the client sends it.
pub struct SignupRequest {
    pub email: String,
    pub password: String,
    pub requires_2fa: bool,
}

/// The body of a successful signup.
pub struct SignupResponse {
    pub message: String,
}

/// A login request as the client sends it.
pub struct LoginRequest {
    pub email: String,
    pub password: String,
}

/// The body of a login that needs a second factor.
pub struct TwoFactorAuthResponse {
    pub message: String,
    pub login_attempt_id: String,
}

/// The two bodies of a successful login.
pub enum LoginResponse {
    RegularAuth,
    TwoFactorAuth(TwoFactorAuthResponse),
}

/// A second-factor redemption request.
pub struct Verify2FARequest {
    pub email: String,
    pub login_attempt_id: String,
    pub two_fa_code: String,
}

/// A token check request.
pub struct VerifyTokenRequest {
    pub token: String,
}

/// A message for the out-of-band channel.
pub struct Notification {
    pub recipient: Email,
    pub subject: String,
    pub content: String,
}

/// An e-mail client that delivers nothing; a stand-in for tests and local
/// runs.
pub struct MockEmailClient;

impl MockEmailClient {
    pub fn send_email(&self, recipient: &Email, subject: &str, content: &str) -> (r: Result<(), ()>)
        ensures
            r is Ok,
    {
        Ok(())
    }
}

} // verus!
