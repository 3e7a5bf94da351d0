use crate::secret::{secret_text, SecretText};
use crate::text::{extended_grapheme_count, grapheme_count, is_blank, is_blank_str, is_white_space};
use vstd::prelude::*;

verus! {

/// The fewest grapheme clusters a password may have: a password of 12 clusters is
/// still too short.
pub const MIN_PASSWORD_GRAPHEMES: usize = 13;

/// The most grapheme clusters a password may have: a password of 130 clusters is
/// still accepted.
pub const MAX_PASSWORD_GRAPHEMES: usize = 130;

/// A password that passed the rules of `Password::parse`, kept as a secret.
#[derive(Debug)]
pub struct Password(SecretText);

impl View for Password {
    type V = Seq<char>;

    closed spec fn view(&self) -> Seq<char> {
        secret_text(self.0)
    }
}

/// A password is accepted when it is not blank and has from 13 to 130 grapheme clusters.
pub open spec fn password_accepted(s: Seq<char>) -> bool {
    &&& !is_blank(s)
    &&& MIN_PASSWORD_GRAPHEMES <= extended_grapheme_count(s) <= MAX_PASSWORD_GRAPHEMES
}

/// The message that a rejected password gets: blankness is reported first, then a
/// length above the maximum, then a length below the minimum.
pub open spec fn password_rejection(s: Seq<char>) -> Seq<char> {
    if is_blank(s) {
        "Password requried."@
    } else if extended_grapheme_count(s) > MAX_PASSWORD_GRAPHEMES {
        "Password must be at most 129 character long."@
    } else {
        "Password must be at least 12 character long."@
    }
}

impl Password {
    /// Accepts `s` as a password when it is not blank and has from 13 to 130 grapheme
    /// clusters; otherwise returns the message that says which rule failed. The messages
    /// keep their wording ("at most 129", "at least 12"), though 130 clusters pass and
    /// 12 do not.
    pub fn parse(s: String) -> (r: Result<Password, String>)
        ensures
            r is Ok <==> password_accepted(s@),
            r matches Ok(p) ==> p@ == s@,
            r matches Err(e) ==> e@ == password_rejection(s@),
            s@.len() < MIN_PASSWORD_GRAPHEMES ==> r is Err,
            (exists|i: int| 0 <= i < s@.len() && !is_white_space(#[trigger] s@[i]))
                && 13 <= extended_grapheme_count(s@) <= 130 ==> (r matches Ok(p) && p@ == s@),
            (forall|i: int| 0 <= i < s@.len() ==> is_white_space(#[trigger] s@[i]))
                ==> (r matches Err(e) && e@ == "Password requried."@),
            (exists|i: int| 0 <= i < s@.len() && !is_white_space(#[trigger] s@[i]))
                && extended_grapheme_count(s@) > 130 ==> (r matches Err(e) && e@
                == "Password must be at most 129 character long."@),
            (exists|i: int| 0 <= i < s@.len() && !is_white_space(#[trigger] s@[i]))
                && extended_grapheme_count(s@) < 13 ==> (r matches Err(e) && e@
                == "Password must be at least 12 character long."@),
    {
        let is_empty_or_whitespace = is_blank_str(s.as_str());
        let graphemes = grapheme_count(s.as_str());
        let is_too_long = graphemes > MAX_PASSWORD_GRAPHEMES;
        let is_too_short = graphemes < MIN_PASSWORD_GRAPHEMES;

        if is_empty_or_whitespace {
            Err(String::from_str("Password requried."))
        } else if is_too_long {
            Err(String::from_str("Password must be at most 129 character long."))
        } else if is_too_short {
            Err(String::from_str("Password must be at least 12 character long."))
        } else {
            Ok(Password(SecretText::from_string(s)))
        }
    }
}

impl Password {
    /// The secret that holds the password.
    pub fn as_ref(&self) -> (r: &SecretText)
        ensures
            secret_text(*r) == self@,
    {
        &self.0
    }
}

/// A password is accepted exactly when it holds a char that is not white space, wherever
/// that char stands, and has from 13 to 130 grapheme clusters; a text of white space only
/// is refused as missing, whatever its length.
pub proof fn lemma_password_acceptance(s: Seq<char>)
    ensures
        password_accepted(s) <==> ((exists|i: int| 0 <= i < s.len() && !is_white_space(#[trigger] s[i]))
            && 13 <= extended_grapheme_count(s) <= 130),
        (forall|i: int| 0 <= i < s.len() ==> is_white_space(#[trigger] s[i])) ==> password_rejection(s)
            == "Password requried."@,
        (exists|i: int| 0 <= i < s.len() && !is_white_space(#[trigger] s[i])) && extended_grapheme_count(s)
            > 130 ==> password_rejection(s) == "Password must be at most 129 character long."@,
        (exists|i: int| 0 <= i < s.len() && !is_white_space(#[trigger] s[i])) && extended_grapheme_count(s)
            < 13 ==> password_rejection(s) == "Password must be at least 12 character long."@,
{
}

} // verus!
