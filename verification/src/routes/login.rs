//! Logging in. The caller checks the submitted credentials and reports how the check
//! went; a valid login renews the session and stores the user's id in it.

use super::{redirects_with_flash, redirects_without_flash, see_other, see_other_with_flash, FlashLevel, Redirect};
use vstd::prelude::*;

verus! {

#[verifier::external_type_specification]
#[verifier::external_body]
pub struct ExAnyhowError(anyhow::Error);

/// Why a login failed, with the error that caused it.
pub enum LoginError {
    /// The credentials were not right.
    AuthError(anyhow::Error),
    /// Something else went wrong.
    UnexpectedError(anyhow::Error),
}

/// The text that a login error displays.
pub open spec fn login_error_text(error: LoginError) -> Seq<char> {
    match error {
        LoginError::AuthError(_) => "Authentication failed."@,
        LoginError::UnexpectedError(_) => "Something went wrong"@,
    }
}

impl LoginError {
    /// The text that the error displays.
    pub fn message(&self) -> (r: String)
        ensures
            r@ == login_error_text(*self),
    {
        match self {
            LoginError::AuthError(_) => String::from_str("Authentication failed."),
            LoginError::UnexpectedError(_) => String::from_str("Something went wrong"),
        }
    }
}

/// How the check of the submitted credentials went.
pub enum CredentialCheck {
    /// The credentials belong to a user.
    Valid,
    /// The credentials are not right.
    Invalid(anyhow::Error),
    /// The check itself failed.
    Failed(anyhow::Error),
}

/// A refused login: back to the login page, with the error's text as a flash error.
pub struct LoginRedirect {
    pub redirect: Redirect,
    pub error: LoginError,
}

/// What a login does after the credentials were checked.
pub enum LoginStep {
    /// Renew the session and store the user's id in it.
    StartSession,
    /// Refuse the login.
    Refuse(LoginRedirect),
}

/// The refusal of a login for `error`: a redirect to `/login` whose flash error is the
/// error's text.
pub fn login_redirect(error: LoginError) -> (r: LoginRedirect)
    ensures
        r.error == error,
        redirects_with_flash(r.redirect, "/login"@, FlashLevel::Error, login_error_text(error)),
{
    let text = error.message();
    let redirect = see_other_with_flash("/login", FlashLevel::Error, text.as_str());
    LoginRedirect { redirect, error }
}

/// What follows the check of the credentials: a session for valid credentials; otherwise
/// a refusal, as an authentication error for wrong credentials and as an unexpected
/// error when the check failed.
pub fn after_credential_check(check: CredentialCheck) -> (r: LoginStep)
    ensures
        r is StartSession <==> check is Valid,
        r matches LoginStep::Refuse(refusal) ==> {
            &&& redirects_with_flash(refusal.redirect, "/login"@, FlashLevel::Error, login_error_text(refusal.error))
            &&& (check matches CredentialCheck::Invalid(e) ==> refusal.error == LoginError::AuthError(e))
            &&& (check matches CredentialCheck::Failed(e) ==> refusal.error == LoginError::UnexpectedError(e))
        },
{
    match check {
        CredentialCheck::Valid => LoginStep::StartSession,
        CredentialCheck::Invalid(e) => LoginStep::Refuse(login_redirect(LoginError::AuthError(e))),
        CredentialCheck::Failed(e) => LoginStep::Refuse(login_redirect(LoginError::UnexpectedError(e))),
    }
}

/// The answer to a login whose credentials were valid: the admin dashboard. When the
/// user's id could not be stored in the session, an unexpected-error flash message is
/// left, and the answer is still the dashboard.
pub fn after_session_start(stored: Result<(), anyhow::Error>) -> (r: Redirect)
    ensures
        stored is Ok ==> redirects_without_flash(r, "/admin/dashboard"@),
        stored is Err ==> redirects_with_flash(r, "/admin/dashboard"@, FlashLevel::Error, "Something went wrong"@),
{
    match stored {
        Ok(()) => see_other("/admin/dashboard"),
        Err(e) => {
            let refusal = login_redirect(LoginError::UnexpectedError(e));
            let flash = refusal.redirect.flash;
            Redirect { location: String::from_str("/admin/dashboard"), flash }
        },
    }
}

} // verus!
