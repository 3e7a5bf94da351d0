//! Text measures that the validation rules use: white space and grapheme clusters.

use unicode_segmentation::UnicodeSegmentation;
use vstd::prelude::*;

verus! {

/// The code points that carry the Unicode `White_Space` property.
pub open spec fn is_white_space(c: char) -> bool {
    let n = c as int;
    ||| 0x09 <= n <= 0x0d
    ||| n == 0x20
    ||| n == 0x85
    ||| n == 0xa0
    ||| n == 0x1680
    ||| 0x2000 <= n <= 0x200a
    ||| n == 0x2028
    ||| n == 0x2029
    ||| n == 0x202f
    ||| n == 0x205f
    ||| n == 0x3000
}

/// A text is blank when trimming its white space leaves nothing: every char is white space.
pub open spec fn is_blank(s: Seq<char>) -> bool {
    forall|i: int| 0 <= i < s.len() ==> is_white_space(#[trigger] s[i])
}

/// The number of extended grapheme clusters in a text, as Unicode's segmentation rules count them.
pub uninterp spec fn extended_grapheme_count(s: Seq<char>) -> nat;

/// Whether `c` has the Unicode `White_Space` property, as `char::is_whitespace` answers.
pub fn char_is_whitespace(c: char) -> (r: bool)
    ensures
        r == is_white_space(c),
{
    let n = c as u32;
    (0x09 <= n && n <= 0x0d) || n == 0x20 || n == 0x85 || n == 0xa0 || n == 0x1680
        || (0x2000 <= n && n <= 0x200a) || n == 0x2028 || n == 0x2029 || n == 0x202f
        || n == 0x205f || n == 0x3000
}

/// `UnicodeSegmentation::graphemes(s, true)`, counted. The result is named by
/// `extended_grapheme_count`; each cluster holds at least one char, and the clusters
/// cover the whole text, so there are no more clusters than chars and none only for
/// the empty text.
#[verifier::external_body]
pub(crate) fn grapheme_count(s: &str) -> (r: usize)
    ensures
        r == extended_grapheme_count(s@),
        r <= s@.len(),
        (r == 0) == (s@.len() == 0),
{
    s.graphemes(true).count()
}

/// Whether `s.trim()` is empty, that is whether every char of `s` is white space.
pub fn is_blank_str(s: &str) -> (r: bool)
    ensures
        r == is_blank(s@),
        r <==> (forall|i: int| 0 <= i < s@.len() ==> is_white_space(#[trigger] s@[i])),
        !r <==> (exists|i: int| 0 <= i < s@.len() && !is_white_space(#[trigger] s@[i])),
{
    broadcast use vstd::string::group_string_axioms;

    for c in it: s.chars()
        invariant
            it.seq() == s@,
            forall|j: int| 0 <= j < it.index() ==> is_white_space(#[trigger] s@[j]),
    {
        if !char_is_whitespace(c) {
            return false;
        }
    }
    true
}

/// A text is blank exactly when none of its chars is visible: one char that is not white
/// space, wherever it stands, makes the text not blank.
pub proof fn lemma_blank_means_every_char_is_white_space(s: Seq<char>)
    ensures
        is_blank(s) <==> (forall|i: int| 0 <= i < s.len() ==> is_white_space(#[trigger] s[i])),
        !is_blank(s) <==> (exists|i: int| 0 <= i < s.len() && !is_white_space(#[trigger] s[i])),
{
}

/// A text with a visible char anywhere in it is not blank; a text of white space only is.
pub proof fn lemma_visible_char_makes_text_not_blank(s: Seq<char>, i: int)
    requires
        0 <= i < s.len(),
        !is_white_space(s[i]),
    ensures
        !is_blank(s),
        is_blank(s.take(i)) ==> !is_blank(s),
{
}

/// Letters, digits and the common punctuation of ASCII are never white space; the ASCII
/// space, tab and line breaks are.
pub proof fn lemma_ascii_white_space(c: char)
    ensures
        ('a' <= c <= 'z' || 'A' <= c <= 'Z' || '0' <= c <= '9' || '!' <= c <= '~') ==> !is_white_space(c),
        (c == ' ' || c == '\t' || c == '\n' || c == '\r') ==> is_white_space(c),
{
}

} // verus!
