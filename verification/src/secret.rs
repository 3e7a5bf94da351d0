//! Secret text kept in a `secrecy::SecretString`: it is read only through
//! `expose_secret`, its `Debug` output is redacted, and it is wiped when dropped.

use secrecy::{ExposeSecret, SecretString};
use vstd::prelude::*;

verus! {

/// A text held in a `secrecy::SecretString`.
#[derive(Debug)]
#[verifier::external_body]
pub struct SecretText {
    inner: SecretString,
}

/// The text that a `SecretText` holds.
pub uninterp spec fn secret_text(secret: SecretText) -> Seq<char>;

impl SecretText {
    /// `SecretString::from` (`Secret::new`): the secret holds the string it was made from.
    #[verifier::external_body]
    pub(crate) fn from_string(s: String) -> (r: SecretText)
        ensures
            secret_text(r) == s@,
    {
        SecretText { inner: SecretString::from(s) }
    }

    /// `ExposeSecret::expose_secret`: a reference to the string that the secret holds.
    #[verifier::external_body]
    fn exposed(&self) -> (r: &str)
        ensures
            r@ == secret_text(*self),
    {
        self.inner.expose_secret().as_str()
    }

    /// The text that the secret holds.
    pub fn expose_secret(&self) -> (r: &str)
        ensures
            r@ == secret_text(*self),
    {
        self.exposed()
    }
}

} // verus!
