//! Changing the password of the logged-in user. The new password is checked first;
//! then the caller reads the user's name, checks the current password and stores the
//! new one, reporting each outcome to `step`.

use super::{redirects_with_flash, see_other_with_flash, FlashLevel, Redirect};
use crate::text::{extended_grapheme_count, grapheme_count};
use vstd::prelude::*;

verus! {

/// The fewest grapheme clusters a new password may have.
pub const MIN_NEW_PASSWORD_GRAPHEMES: usize = 12;

/// The most grapheme clusters a new password may have.
pub const MAX_NEW_PASSWORD_GRAPHEMES: usize = 129;

/// How a password change ended.
#[derive(Debug, Clone, Copy, PartialEq, Eq)]
pub enum PasswordChangeOutcome {
    /// The new password and its confirmation differ.
    PasswordsDiffer,
    /// The new password has more than 129 grapheme clusters.
    TooLong,
    /// The new password has fewer than 12 grapheme clusters.
    TooShort,
    /// The current password was not right.
    WrongCurrentPassword,
    /// The new password is stored.
    Changed,
    /// Something failed on the way; the answer is `500 Internal Server Error`.
    InternalError,
}

/// Where a password change stands.
#[derive(Debug, Clone, Copy, PartialEq, Eq)]
pub enum PasswordChangeState {
    /// The user's name is being read.
    FetchingUsername,
    /// The current password is being checked against the stored credentials.
    CheckingCredentials,
    /// The new password is being stored.
    Updating,
    /// The change is over.
    Done { outcome: PasswordChangeOutcome },
}

/// How the action that was last handed out went.
#[derive(Debug, Clone, Copy, PartialEq, Eq)]
pub enum PasswordChangeEvent {
    UsernameFetched,
    UsernameFetchFailed,
    CredentialsValid,
    CredentialsInvalid,
    CredentialsCheckFailed,
    PasswordUpdated,
    PasswordUpdateFailed,
}

/// What the caller does next.
#[derive(Debug, Clone, Copy, PartialEq, Eq)]
pub enum PasswordChangeAction {
    FetchUsername,
    CheckCredentials,
    UpdatePassword,
    /// Answer the request as `response` says for the outcome in the state.
    Respond,
}

/// What is wrong with a new password and its confirmation, if anything: a mismatch is
/// reported first, then a length above the maximum, then a length below the minimum.
pub open spec fn new_password_problem(new_password: Seq<char>, new_password_check: Seq<char>) -> Option<PasswordChangeOutcome> {
    if new_password != new_password_check {
        Some(PasswordChangeOutcome::PasswordsDiffer)
    } else if extended_grapheme_count(new_password) > MAX_NEW_PASSWORD_GRAPHEMES {
        Some(PasswordChangeOutcome::TooLong)
    } else if extended_grapheme_count(new_password) < MIN_NEW_PASSWORD_GRAPHEMES {
        Some(PasswordChangeOutcome::TooShort)
    } else {
        None
    }
}

/// The state in which a change starts.
pub open spec fn initial_state(new_password: Seq<char>, new_password_check: Seq<char>) -> PasswordChangeState {
    match new_password_problem(new_password, new_password_check) {
        Some(outcome) => PasswordChangeState::Done { outcome },
        None => PasswordChangeState::FetchingUsername,
    }
}

/// The events that each state expects.
pub open spec fn accepts(state: PasswordChangeState, event: PasswordChangeEvent) -> bool {
    match state {
        PasswordChangeState::FetchingUsername => event is UsernameFetched || event is UsernameFetchFailed,
        PasswordChangeState::CheckingCredentials => {
            event is CredentialsValid || event is CredentialsInvalid || event is CredentialsCheckFailed
        },
        PasswordChangeState::Updating => event is PasswordUpdated || event is PasswordUpdateFailed,
        PasswordChangeState::Done { .. } => false,
    }
}

/// The state that follows `state` on `event`.
pub open spec fn next_state(state: PasswordChangeState, event: PasswordChangeEvent) -> PasswordChangeState {
    match (state, event) {
        (PasswordChangeState::FetchingUsername, PasswordChangeEvent::UsernameFetched) =>
            PasswordChangeState::CheckingCredentials,
        (PasswordChangeState::CheckingCredentials, PasswordChangeEvent::CredentialsValid) =>
            PasswordChangeState::Updating,
        (PasswordChangeState::CheckingCredentials, PasswordChangeEvent::CredentialsInvalid) =>
            PasswordChangeState::Done { outcome: PasswordChangeOutcome::WrongCurrentPassword },
        (PasswordChangeState::Updating, PasswordChangeEvent::PasswordUpdated) =>
            PasswordChangeState::Done { outcome: PasswordChangeOutcome::Changed },
        (PasswordChangeState::Done { .. }, _) => state,
        _ => PasswordChangeState::Done { outcome: PasswordChangeOutcome::InternalError },
    }
}

/// The action that a state calls for.
pub open spec fn action_for(state: PasswordChangeState) -> PasswordChangeAction {
    match state {
        PasswordChangeState::FetchingUsername => PasswordChangeAction::FetchUsername,
        PasswordChangeState::CheckingCredentials => PasswordChangeAction::CheckCredentials,
        PasswordChangeState::Updating => PasswordChangeAction::UpdatePassword,
        PasswordChangeState::Done { .. } => PasswordChangeAction::Respond,
    }
}

fn action_of(state: PasswordChangeState) -> (r: PasswordChangeAction)
    ensures
        r == action_for(state),
{
    match state {
        PasswordChangeState::FetchingUsername => PasswordChangeAction::FetchUsername,
        PasswordChangeState::CheckingCredentials => PasswordChangeAction::CheckCredentials,
        PasswordChangeState::Updating => PasswordChangeAction::UpdatePassword,
        PasswordChangeState::Done { .. } => PasswordChangeAction::Respond,
    }
}

/// Starts a change: checks that the new password matches its confirmation and has from
/// 12 to 129 grapheme clusters, before anything is read or written.
pub fn start(new_password: &str, new_password_check: &str) -> (r: (PasswordChangeState, PasswordChangeAction))
    ensures
        r.0 == initial_state(new_password@, new_password_check@),
        r.1 == action_for(r.0),
        new_password@.len() < MIN_NEW_PASSWORD_GRAPHEMES ==> r.0 is Done,
        new_password@ != new_password_check@ ==> r.0 == (PasswordChangeState::Done {
            outcome: PasswordChangeOutcome::PasswordsDiffer,
        }),
        r.0 == (PasswordChangeState::Done { outcome: PasswordChangeOutcome::TooLong }) ==> new_password@
            == new_password_check@ && extended_grapheme_count(new_password@) > 129,
        r.0 == (PasswordChangeState::Done { outcome: PasswordChangeOutcome::TooShort }) ==> new_password@
            == new_password_check@ && extended_grapheme_count(new_password@) < 12,
        r.0 == PasswordChangeState::FetchingUsername <==> (new_password@ == new_password_check@
            && 12 <= extended_grapheme_count(new_password@) <= 129),
{
    let same = String::from_str(new_password) == String::from_str(new_password_check);
    let state = if !same {
        PasswordChangeState::Done { outcome: PasswordChangeOutcome::PasswordsDiffer }
    } else {
        let graphemes = grapheme_count(new_password);
        if graphemes > MAX_NEW_PASSWORD_GRAPHEMES {
            PasswordChangeState::Done { outcome: PasswordChangeOutcome::TooLong }
        } else if graphemes < MIN_NEW_PASSWORD_GRAPHEMES {
            PasswordChangeState::Done { outcome: PasswordChangeOutcome::TooShort }
        } else {
            PasswordChangeState::FetchingUsername
        }
    };
    (state, action_of(state))
}

/// The next state of a change and the action that it calls for.
pub fn step(state: PasswordChangeState, event: PasswordChangeEvent) -> (r: (PasswordChangeState, PasswordChangeAction))
    requires
        accepts(state, event),
    ensures
        r.0 == next_state(state, event),
        r.1 == action_for(r.0),
{
    let next = match (state, event) {
        (PasswordChangeState::FetchingUsername, PasswordChangeEvent::UsernameFetched) =>
            PasswordChangeState::CheckingCredentials,
        (PasswordChangeState::CheckingCredentials, PasswordChangeEvent::CredentialsValid) =>
            PasswordChangeState::Updating,
        (PasswordChangeState::CheckingCredentials, PasswordChangeEvent::CredentialsInvalid) =>
            PasswordChangeState::Done { outcome: PasswordChangeOutcome::WrongCurrentPassword },
        (PasswordChangeState::Updating, PasswordChangeEvent::PasswordUpdated) =>
            PasswordChangeState::Done { outcome: PasswordChangeOutcome::Changed },
        (PasswordChangeState::Done { .. }, _) => state,
        _ => PasswordChangeState::Done { outcome: PasswordChangeOutcome::InternalError },
    };
    (next, action_of(next))
}

/// The answer for an outcome: a redirect back to the password page with a flash error,
/// or `None` for `500 Internal Server Error`.
pub fn response(outcome: PasswordChangeOutcome) -> (r: Option<Redirect>)
    ensures
        outcome == PasswordChangeOutcome::InternalError <==> r is None,
        r matches Some(redirect) ==> redirects_with_flash(
            redirect,
            "/admin/password"@,
            FlashLevel::Error,
            outcome_message(outcome),
        ),
{
    match outcome {
        PasswordChangeOutcome::PasswordsDiffer => Some(see_other_with_flash(
            "/admin/password",
            FlashLevel::Error,
            "You entered two different new passwords - the field values must match.",
        )),
        PasswordChangeOutcome::TooLong => Some(see_other_with_flash(
            "/admin/password",
            FlashLevel::Error,
            "Password must be at most 129 characters.",
        )),
        PasswordChangeOutcome::TooShort => Some(see_other_with_flash(
            "/admin/password",
            FlashLevel::Error,
            "Password must be at least 12 characters.",
        )),
        PasswordChangeOutcome::WrongCurrentPassword => Some(see_other_with_flash(
            "/admin/password",
            FlashLevel::Error,
            "The current password is incorrect.",
        )),
        PasswordChangeOutcome::Changed => Some(see_other_with_flash(
            "/admin/password",
            FlashLevel::Error,
            "Your password has been changed.",
        )),
        PasswordChangeOutcome::InternalError => None,
    }
}

/// The flash message that an outcome leaves.
pub open spec fn outcome_message(outcome: PasswordChangeOutcome) -> Seq<char> {
    match outcome {
        PasswordChangeOutcome::PasswordsDiffer => "You entered two different new passwords - the field values must match."@,
        PasswordChangeOutcome::TooLong => "Password must be at most 129 characters."@,
        PasswordChangeOutcome::TooShort => "Password must be at least 12 characters."@,
        PasswordChangeOutcome::WrongCurrentPassword => "The current password is incorrect."@,
        PasswordChangeOutcome::Changed => "Your password has been changed."@,
        PasswordChangeOutcome::InternalError => Seq::empty(),
    }
}

/// Whether `events` can be reported, one after another, to a change that stands at `state`.
pub open spec fn is_run(state: PasswordChangeState, events: Seq<PasswordChangeEvent>) -> bool
    decreases events.len(),
{
    events.len() == 0 || (accepts(state, events[0]) && is_run(next_state(state, events[0]), events.drop_first()))
}

/// The state that a change reaches from `state` after `events`.
pub open spec fn run_from(state: PasswordChangeState, events: Seq<PasswordChangeEvent>) -> PasswordChangeState
    decreases events.len(),
{
    if events.len() == 0 {
        state
    } else {
        run_from(next_state(state, events[0]), events.drop_first())
    }
}

/// A change reaches the point where the new password is stored, or reports it stored,
/// only if the new password matched its confirmation, had from 12 to 129 grapheme
/// clusters, and the current password was found right.
pub proof fn lemma_password_changes_only_when_allowed(
    new_password: Seq<char>,
    new_password_check: Seq<char>,
    events: Seq<PasswordChangeEvent>,
)
    requires
        is_run(initial_state(new_password, new_password_check), events),
        ({
            let end = run_from(initial_state(new_password, new_password_check), events);
            end == PasswordChangeState::Updating || end == (PasswordChangeState::Done { outcome: PasswordChangeOutcome::Changed })
        }),
    ensures
        new_password == new_password_check,
        MIN_NEW_PASSWORD_GRAPHEMES <= extended_grapheme_count(new_password) <= MAX_NEW_PASSWORD_GRAPHEMES,
        events.contains(PasswordChangeEvent::CredentialsValid),
{
    let init = initial_state(new_password, new_password_check);
    if new_password_problem(new_password, new_password_check) is Some {
        lemma_done_stays(init, events);
    } else {
        lemma_change_needs_valid_credentials(init, events);
    }
}

proof fn lemma_done_stays(state: PasswordChangeState, events: Seq<PasswordChangeEvent>)
    requires
        state is Done,
        is_run(state, events),
    ensures
        run_from(state, events) == state,
{
    if events.len() > 0 {
        assert(!accepts(state, events[0]));
    }
}

proof fn lemma_change_needs_valid_credentials(state: PasswordChangeState, events: Seq<PasswordChangeEvent>)
    requires
        state == PasswordChangeState::FetchingUsername || state == PasswordChangeState::CheckingCredentials
            || state is Done,
        state != (PasswordChangeState::Done { outcome: PasswordChangeOutcome::Changed }),
        is_run(state, events),
        ({
            let end = run_from(state, events);
            end == PasswordChangeState::Updating || end == (PasswordChangeState::Done { outcome: PasswordChangeOutcome::Changed })
        }),
    ensures
        events.contains(PasswordChangeEvent::CredentialsValid),
    decreases events.len(),
{
    if state is Done {
        lemma_done_stays(state, events);
    } else {
        let next = next_state(state, events[0]);
        if events[0] != PasswordChangeEvent::CredentialsValid {
            lemma_change_needs_valid_credentials(next, events.drop_first());
            let i = choose|i: int| 0 <= i < events.drop_first().len() && events.drop_first()[i] == PasswordChangeEvent::CredentialsValid;
            assert(events[i + 1] == events.drop_first()[i]);
        }
    }
}

/// A new password that differs from its confirmation ends the change at once as
/// `PasswordsDiffer`, whatever the lengths of the two; a length is reported only for a
/// new password that matches its confirmation.
pub proof fn lemma_mismatch_is_reported_first(new_password: Seq<char>, new_password_check: Seq<char>)
    ensures
        new_password != new_password_check ==> initial_state(new_password, new_password_check)
            == (PasswordChangeState::Done { outcome: PasswordChangeOutcome::PasswordsDiffer }),
        initial_state(new_password, new_password_check) == (PasswordChangeState::Done {
            outcome: PasswordChangeOutcome::TooLong,
        }) ==> new_password == new_password_check && extended_grapheme_count(new_password) > 129,
        initial_state(new_password, new_password_check) == (PasswordChangeState::Done {
            outcome: PasswordChangeOutcome::TooShort,
        }) ==> new_password == new_password_check && extended_grapheme_count(new_password) < 12,
        initial_state(new_password, new_password_check) == PasswordChangeState::FetchingUsername
            <==> (new_password == new_password_check && 12 <= extended_grapheme_count(new_password) <= 129),
{
}

} // verus!
