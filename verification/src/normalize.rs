//! Canonical names: the form in which a name is put to the registry.

use crate::text::{is_alphanumeric_char, lowercase_of, trimmed};
use vstd::prelude::*;

verus! {

/// The test by which a character stays in a canonical name.
pub open spec fn keeps() -> spec_fn(char) -> bool {
    |c: char| is_alphanumeric_char(c)
}

/// The letters and numbers of `s`, in the order in which they stand in `s`.
pub open spec fn alphanumeric_part(s: Seq<char>) -> Seq<char> {
    s.filter(keeps())
}

/// Whether `s` holds letters and numbers only. The empty text does.
pub open spec fn is_alphanumeric_text(s: Seq<char>) -> bool {
    forall|i: int| 0 <= i < s.len() ==> is_alphanumeric_char(#[trigger] s[i])
}

/// The canonical name of a raw text: the text is trimmed, then put in lower
/// case, and of the result the letters and numbers are kept.
pub open spec fn canonical(raw: Seq<char>) -> Seq<char> {
    alphanumeric_part(lowercase_of(trimmed(raw)))
}

/// Nothing is kept of the empty text.
pub proof fn lemma_alphanumeric_part_empty()
    ensures
        alphanumeric_part(Seq::<char>::empty()) == Seq::<char>::empty(),
{
    reveal(Seq::filter);
}

/// A character added at the end is kept, at the end, if it is a letter or a
/// number, and dropped otherwise.
pub proof fn lemma_alphanumeric_part_push(s: Seq<char>, c: char)
    ensures
        alphanumeric_part(s.push(c)) == if is_alphanumeric_char(c) {
            alphanumeric_part(s).push(c)
        } else {
            alphanumeric_part(s)
        },
{
    s.lemma_filter_push(c, keeps());
}

/// What is kept holds letters and numbers only.
pub proof fn lemma_alphanumeric_part_is_alphanumeric(s: Seq<char>)
    ensures
        is_alphanumeric_text(alphanumeric_part(s)),
{
    let kept = alphanumeric_part(s);
    assert forall|i: int| 0 <= i < kept.len() implies is_alphanumeric_char(#[trigger] kept[i]) by {
        s.lemma_filter_pred(keeps(), i);
    }
}

/// Of a text that holds letters and numbers only, everything is kept.
pub proof fn lemma_alphanumeric_text_is_kept(s: Seq<char>)
    requires
        is_alphanumeric_text(s),
    ensures
        alphanumeric_part(s) == s,
    decreases s.len(),
{
    if s.len() == 0 {
        lemma_alphanumeric_part_empty();
        assert(s =~= Seq::<char>::empty());
    } else {
        let front = s.drop_last();
        assert(forall|i: int| 0 <= i < front.len() ==> front[i] == s[i]);
        lemma_alphanumeric_text_is_kept(front);
        lemma_alphanumeric_part_push(front, s.last());
        assert(s =~= front.push(s.last()));
    }
}

/// Keeping letters and numbers twice keeps what keeping them once does.
pub proof fn lemma_alphanumeric_part_idempotent(s: Seq<char>)
    ensures
        alphanumeric_part(alphanumeric_part(s)) == alphanumeric_part(s),
{
    lemma_alphanumeric_part_is_alphanumeric(s);
    lemma_alphanumeric_text_is_kept(alphanumeric_part(s));
}

/// A canonical name holds letters and numbers only, whatever the raw text.
pub proof fn lemma_canonical_is_alphanumeric(raw: Seq<char>)
    ensures
        is_alphanumeric_text(canonical(raw)),
{
    lemma_alphanumeric_part_is_alphanumeric(lowercase_of(trimmed(raw)));
}

/// Whether trimming and lower-casing both leave `name` as it is.
pub open spec fn is_settled(name: Seq<char>) -> bool {
    trimmed(name) == name && lowercase_of(name) == name
}

/// A text of letters and numbers that trimming and lower-casing leave as it
/// is, is its own canonical name.
pub proof fn lemma_settled_name_is_canonical(name: Seq<char>)
    ensures
        is_alphanumeric_text(name) && is_settled(name) ==> canonical(name) == name,
{
    if is_alphanumeric_text(name) && is_settled(name) {
        lemma_alphanumeric_text_is_kept(name);
    }
}

/// The canonical name of a canonical name is that name, wherever trimming and
/// lower-casing leave the canonical name as it is.
pub proof fn lemma_canonical_idempotent_where_settled(raw: Seq<char>)
    ensures
        is_settled(canonical(raw)) ==> canonical(canonical(raw)) == canonical(raw),
{
    lemma_canonical_is_alphanumeric(raw);
    lemma_settled_name_is_canonical(canonical(raw));
}

/// Copies the letters and numbers of `s`, leaving everything else out.
fn keep_alphanumeric(s: &str) -> (kept: String)
    ensures
        kept@ == alphanumeric_part(s@),
{
    let mut kept = String::new();
    proof {
        lemma_alphanumeric_part_empty();
        assert(s@.take(0) =~= Seq::<char>::empty());
    }
    for c in it: s.chars()
        invariant
            it.seq() == s@,
            kept@ == alphanumeric_part(s@.take(it.index())),
    {
        proof {
            let seen = s@.take(it.index());
            assert(s@.take(it.index() + 1) =~= seen.push(c));
            lemma_alphanumeric_part_push(seen, c);
        }
        if c.is_alphanumeric() {
            kept.push(c);
        }
    }
    assert(s@.take(s@.len() as int) =~= s@);
    kept
}

/// Turns a raw line or argument into the canonical name it stands for.
pub fn clean_name(s: &str) -> (name: String)
    ensures
        name@ == canonical(s@),
        is_alphanumeric_text(name@),
{
    let lowered = s.trim().to_lowercase();
    proof {
        lemma_canonical_is_alphanumeric(s@);
    }
    keep_alphanumeric(lowered.as_str())
}

} // verus!
