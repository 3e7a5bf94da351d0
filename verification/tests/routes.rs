use newsletter::routes::change_password::{
    response, start, step, PasswordChangeAction, PasswordChangeEvent, PasswordChangeOutcome, PasswordChangeState,
};
use newsletter::routes::login::{after_credential_check, after_session_start, login_redirect, CredentialCheck, LoginError, LoginStep};
use newsletter::routes::logout::log_out_redirect;
use newsletter::routes::newsletter_form::{newsletter_form_html, NEWSLETTER_FORM_HEAD, NEWSLETTER_FORM_TAIL};
use newsletter::routes::{FlashLevel, Redirect};

fn flash_of(redirect: &Redirect) -> (FlashLevel, String) {
    let flash = redirect.flash.as_ref().expect("a flash message");
    (flash.level, flash.content.clone())
}

#[test]
fn logging_out_goes_back_to_the_login_page() {
    let r = log_out_redirect();
    assert_eq!(r.location, "/login");
    assert_eq!(flash_of(&r), (FlashLevel::Info, "You have successfully logged out.".to_string()));
}

#[test]
fn the_newsletter_form_shows_the_flash_messages() {
    let page = newsletter_form_html(&vec!["Published".to_string(), "Twice".to_string()]);
    let expected = format!(
        "{}<p><i>Published</i></p>\n<p><i>Twice</i></p>\n{}",
        NEWSLETTER_FORM_HEAD, NEWSLETTER_FORM_TAIL
    );
    assert_eq!(page, expected);
    assert!(page.contains("<form action=\"/admin/newsletters\" method=\"post\">"));
    assert!(page.contains("<title>Publish Newsletters Issue</title>"));
}

#[test]
fn the_newsletter_form_without_messages() {
    let page = newsletter_form_html(&vec![]);
    assert_eq!(page, format!("{}{}", NEWSLETTER_FORM_HEAD, NEWSLETTER_FORM_TAIL));
    assert!(!page.contains("<p><i>"));
}

fn outcome_of(state: PasswordChangeState) -> PasswordChangeOutcome {
    match state {
        PasswordChangeState::Done { outcome } => outcome,
        other => panic!("not done: {:?}", other),
    }
}

#[test]
fn different_new_passwords_are_refused() {
    let (state, action) = start("a long new password", "a long new passw0rd");
    assert_eq!(outcome_of(state), PasswordChangeOutcome::PasswordsDiffer);
    assert_eq!(action, PasswordChangeAction::Respond);
    let r = response(PasswordChangeOutcome::PasswordsDiffer).unwrap();
    assert_eq!(r.location, "/admin/password");
    assert_eq!(
        flash_of(&r),
        (FlashLevel::Error, "You entered two different new passwords - the field values must match.".to_string())
    );
}

#[test]
fn new_passwords_outside_the_length_rules_are_refused() {
    let long = "x".repeat(130);
    assert_eq!(outcome_of(start(&long, &long).0), PasswordChangeOutcome::TooLong);
    let short = "x".repeat(11);
    assert_eq!(outcome_of(start(&short, &short).0), PasswordChangeOutcome::TooShort);
    assert_eq!(
        flash_of(&response(PasswordChangeOutcome::TooLong).unwrap()).1,
        "Password must be at most 129 characters."
    );
    assert_eq!(
        flash_of(&response(PasswordChangeOutcome::TooShort).unwrap()).1,
        "Password must be at least 12 characters."
    );
}

#[test]
fn a_password_change_that_succeeds() {
    let new = "x".repeat(12);
    let (state, action) = start(&new, &new);
    assert_eq!((state, action), (PasswordChangeState::FetchingUsername, PasswordChangeAction::FetchUsername));
    let (state, action) = step(state, PasswordChangeEvent::UsernameFetched);
    assert_eq!(action, PasswordChangeAction::CheckCredentials);
    let (state, action) = step(state, PasswordChangeEvent::CredentialsValid);
    assert_eq!(action, PasswordChangeAction::UpdatePassword);
    let (state, action) = step(state, PasswordChangeEvent::PasswordUpdated);
    assert_eq!(action, PasswordChangeAction::Respond);
    assert_eq!(outcome_of(state), PasswordChangeOutcome::Changed);
    let r = response(PasswordChangeOutcome::Changed).unwrap();
    assert_eq!(flash_of(&r), (FlashLevel::Error, "Your password has been changed.".to_string()));
}

#[test]
fn a_wrong_current_password_is_reported() {
    let (state, _) = step(PasswordChangeState::CheckingCredentials, PasswordChangeEvent::CredentialsInvalid);
    assert_eq!(outcome_of(state), PasswordChangeOutcome::WrongCurrentPassword);
    assert_eq!(
        flash_of(&response(PasswordChangeOutcome::WrongCurrentPassword).unwrap()).1,
        "The current password is incorrect."
    );
}

#[test]
fn failures_during_a_password_change_answer_500() {
    for (state, event) in [
        (PasswordChangeState::FetchingUsername, PasswordChangeEvent::UsernameFetchFailed),
        (PasswordChangeState::CheckingCredentials, PasswordChangeEvent::CredentialsCheckFailed),
        (PasswordChangeState::Updating, PasswordChangeEvent::PasswordUpdateFailed),
    ] {
        assert_eq!(outcome_of(step(state, event).0), PasswordChangeOutcome::InternalError);
    }
    assert!(response(PasswordChangeOutcome::InternalError).is_none());
}

#[test]
fn login_errors_display_their_text() {
    assert_eq!(LoginError::AuthError(anyhow::Error::msg("x")).message(), "Authentication failed.");
    assert_eq!(LoginError::UnexpectedError(anyhow::Error::msg("x")).message(), "Something went wrong");
}

#[test]
fn valid_credentials_start_a_session() {
    assert!(matches!(after_credential_check(CredentialCheck::Valid), LoginStep::StartSession));
    let r = after_session_start(Ok(()));
    assert_eq!(r.location, "/admin/dashboard");
    assert!(r.flash.is_none());
}

#[test]
fn a_session_that_could_not_be_stored_still_reaches_the_dashboard() {
    let r = after_session_start(Err(anyhow::Error::msg("session store down")));
    assert_eq!(r.location, "/admin/dashboard");
    assert_eq!(flash_of(&r), (FlashLevel::Error, "Something went wrong".to_string()));
}

#[test]
fn wrong_credentials_are_refused_as_an_authentication_error() {
    match after_credential_check(CredentialCheck::Invalid(anyhow::Error::msg("unknown user"))) {
        LoginStep::Refuse(refusal) => {
            assert_eq!(refusal.redirect.location, "/login");
            assert_eq!(flash_of(&refusal.redirect), (FlashLevel::Error, "Authentication failed.".to_string()));
            match refusal.error {
                LoginError::AuthError(e) => assert_eq!(e.to_string(), "unknown user"),
                LoginError::UnexpectedError(_) => panic!("wrong variant"),
            }
        }
        LoginStep::StartSession => panic!("the login was accepted"),
    }
}

#[test]
fn a_failed_check_is_refused_as_an_unexpected_error() {
    match after_credential_check(CredentialCheck::Failed(anyhow::Error::msg("database down"))) {
        LoginStep::Refuse(refusal) => {
            assert_eq!(flash_of(&refusal.redirect), (FlashLevel::Error, "Something went wrong".to_string()));
            assert!(matches!(refusal.error, LoginError::UnexpectedError(_)));
        }
        LoginStep::StartSession => panic!("the login was accepted"),
    }
}

#[test]
fn the_login_redirect_carries_the_error() {
    let refusal = login_redirect(LoginError::AuthError(anyhow::Error::msg("bad password")));
    assert_eq!(refusal.redirect.location, "/login");
    assert_eq!(flash_of(&refusal.redirect).1, "Authentication failed.");
}
