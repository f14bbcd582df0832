//! What this library takes from the standard library's Unicode tables.
//!
//! Classifying and case-mapping characters is the standard library's work. The
//! items here give each of those functions a contract, which the verifier takes
//! on trust; everything else in the library is proved against them.

use vstd::prelude::*;

verus! {

/// The answer of `char::is_alphanumeric`: whether `c` is a letter or a number
/// as Unicode's tables have it.
pub uninterp spec fn is_alphanumeric_char(c: char) -> bool;

/// Whether `c` has Unicode's `White_Space` property, by which `str::trim`
/// tells what to remove.
pub uninterp spec fn is_whitespace_char(c: char) -> bool;

/// The text that `str::to_lowercase` makes of `s`.
pub uninterp spec fn lowercase_of(s: Seq<char>) -> Seq<char>;

/// `s` without the white space at its front.
pub open spec fn without_leading_whitespace(s: Seq<char>) -> Seq<char>
    decreases s.len(),
{
    if s.len() > 0 && is_whitespace_char(s.first()) {
        without_leading_whitespace(s.drop_first())
    } else {
        s
    }
}

/// `s` without the white space at its end.
pub open spec fn without_trailing_whitespace(s: Seq<char>) -> Seq<char>
    decreases s.len(),
{
    if s.len() > 0 && is_whitespace_char(s.last()) {
        without_trailing_whitespace(s.drop_last())
    } else {
        s
    }
}

/// `s` without the white space at either end.
pub open spec fn trimmed(s: Seq<char>) -> Seq<char> {
    without_trailing_whitespace(without_leading_whitespace(s))
}

/// What is left of a text without its leading white space is the end of that
/// text, and does not start with white space.
pub proof fn lemma_without_leading_whitespace(s: Seq<char>)
    ensures
        without_leading_whitespace(s).len() <= s.len(),
        without_leading_whitespace(s) == s.skip(
            s.len() - without_leading_whitespace(s).len(),
        ),
        without_leading_whitespace(s).len() > 0 ==> !is_whitespace_char(
            without_leading_whitespace(s).first(),
        ),
    decreases s.len(),
{
    if s.len() > 0 && is_whitespace_char(s.first()) {
        let rest = s.drop_first();
        lemma_without_leading_whitespace(rest);
        let kept = without_leading_whitespace(rest);
        assert(rest.skip(rest.len() - kept.len()) =~= s.skip(s.len() - kept.len()));
    } else {
        assert(s.skip(0) =~= s);
    }
}

/// What is left of a text without its trailing white space is the start of
/// that text, and does not end with white space.
pub proof fn lemma_without_trailing_whitespace(s: Seq<char>)
    ensures
        without_trailing_whitespace(s).len() <= s.len(),
        without_trailing_whitespace(s) == s.take(without_trailing_whitespace(s).len() as int),
        without_trailing_whitespace(s).len() > 0 ==> !is_whitespace_char(
            without_trailing_whitespace(s).last(),
        ),
    decreases s.len(),
{
    if s.len() > 0 && is_whitespace_char(s.last()) {
        let rest = s.drop_last();
        lemma_without_trailing_whitespace(rest);
        let kept = without_trailing_whitespace(rest);
        assert(rest.take(kept.len() as int) =~= s.take(kept.len() as int));
    } else {
        assert(s.take(s.len() as int) =~= s);
    }
}

/// A trimmed text that is not empty neither starts nor ends with white space.
pub proof fn lemma_trimmed_ends(s: Seq<char>)
    ensures
        trimmed(s).len() > 0 ==> !is_whitespace_char(trimmed(s).first()) && !is_whitespace_char(
            trimmed(s).last(),
        ),
{
    let inner = without_leading_whitespace(s);
    lemma_without_leading_whitespace(s);
    lemma_without_trailing_whitespace(inner);
}

/// `char::is_alphanumeric` is a function of the character alone; its answer is
/// the one that `is_alphanumeric_char` names. Nothing is claimed of which
/// characters it accepts.
pub assume_specification[ char::is_alphanumeric ](c: char) -> (b: bool)
    ensures
        b == is_alphanumeric_char(c),
;

/// `str::trim` returns the slice of `s` that is left when the leading and the
/// trailing white space are removed, white space being the characters with
/// Unicode's `White_Space` property. What is left neither starts nor ends with
/// such a character, which `lemma_trimmed_ends` shows to follow from the first
/// clause.
pub assume_specification[ str::trim ](s: &str) -> (t: &str)
    ensures
        t@ == trimmed(s@),
        t@.len() > 0 ==> !is_whitespace_char(t@.first()) && !is_whitespace_char(t@.last()),
;

/// `str::to_lowercase` is a function of the text alone; its result is the one
/// that `lowercase_of` names. Nothing is claimed of the mapping itself.
pub assume_specification[ str::to_lowercase ](s: &str) -> (l: String)
    ensures
        l@ == lowercase_of(s@),
;

/// `String::push` appends the one character to the end of the string.
pub assume_specification[ String::push ](s: &mut String, c: char)
    ensures
        final(s)@ == old(s)@.push(c),
;

} // verus!
