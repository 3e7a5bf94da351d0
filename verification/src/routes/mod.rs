//! The decisions of the HTTP handlers: what each answers and which flash message it
//! leaves for the next page.

pub mod change_password;
pub mod login;
pub mod logout;
pub mod newsletter_form;

use vstd::prelude::*;

verus! {

/// The level of a flash message.
#[derive(Debug, Clone, Copy, PartialEq, Eq)]
pub enum FlashLevel {
    Info,
    Error,
}

/// A message shown once, on the next page the user sees.
#[derive(Debug)]
pub struct FlashMessage {
    pub level: FlashLevel,
    pub content: String,
}

/// A `303 See Other` response, with the flash message it leaves, if any.
#[derive(Debug)]
pub struct Redirect {
    pub location: String,
    pub flash: Option<FlashMessage>,
}

/// `r` redirects to `location` and leaves a flash message of `level` with `content`.
pub open spec fn redirects_with_flash(r: Redirect, location: Seq<char>, level: FlashLevel, content: Seq<char>) -> bool {
    &&& r.location@ == location
    &&& r.flash matches Some(f) && f.level == level && f.content@ == content
}

/// `r` redirects to `location` and leaves no flash message.
pub open spec fn redirects_without_flash(r: Redirect, location: Seq<char>) -> bool {
    &&& r.location@ == location
    &&& r.flash is None
}

/// A redirect to `location` with a flash message.
pub fn see_other_with_flash(location: &str, level: FlashLevel, content: &str) -> (r: Redirect)
    ensures
        redirects_with_flash(r, location@, level, content@),
{
    Redirect {
        location: String::from_str(location),
        flash: Some(FlashMessage { level, content: String::from_str(content) }),
    }
}

/// A redirect to `location` without a flash message.
pub fn see_other(location: &str) -> (r: Redirect)
    ensures
        redirects_without_flash(r, location@),
{
    Redirect { location: String::from_str(location), flash: None }
}

} // verus!
