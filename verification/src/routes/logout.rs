//! Logging out.

use super::{redirects_with_flash, see_other_with_flash, FlashLevel, Redirect};
use vstd::prelude::*;

verus! {

/// The answer to a logout, once the session is cleared: back to the login page, with a
/// note that the logout worked.
pub fn log_out_redirect() -> (r: Redirect)
    ensures
        redirects_with_flash(r, "/login"@, FlashLevel::Info, "You have successfully logged out."@),
{
    see_other_with_flash("/login", FlashLevel::Info, "You have successfully logged out.")
}

} // verus!
