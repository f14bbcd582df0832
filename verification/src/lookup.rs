//! The rule that stands between a name and the oracle: the registry keeps
//! names under a minimum length for itself, so such a name is unavailable and
//! the oracle is never asked about it.

use crate::normalize::{canonical, clean_name, is_alphanumeric_text};
use vstd::prelude::*;

verus! {

/// The least number of characters that a canonical name needs for the oracle to
/// be asked about it.
pub const MIN_NAME_LENGTH: usize = 3;

/// What is to be done about one name.
#[derive(Clone, Debug, PartialEq, Eq)]
pub enum Lookup {
    /// The name is unavailable and the oracle is not asked: its canonical form
    /// is shorter than `MIN_NAME_LENGTH`.
    Unavailable,
    /// The oracle decides; it is asked about this canonical name.
    Ask(String),
}

/// A `Lookup` with its name as a sequence of characters.
pub enum LookupView {
    Unavailable,
    Ask(Seq<char>),
}

impl View for Lookup {
    type V = LookupView;

    open spec fn view(&self) -> LookupView {
        match self {
            Lookup::Unavailable => LookupView::Unavailable,
            Lookup::Ask(name) => LookupView::Ask(name@),
        }
    }
}

/// Whether the oracle is to be asked about the canonical name `name`.
pub open spec fn needs_oracle(name: Seq<char>) -> bool {
    name.len() >= MIN_NAME_LENGTH
}

/// What is to be done about the raw text `raw`.
pub open spec fn lookup_of(raw: Seq<char>) -> LookupView {
    if needs_oracle(canonical(raw)) {
        LookupView::Ask(canonical(raw))
    } else {
        LookupView::Unavailable
    }
}

/// Decides what is to be done about a raw name: it is put in canonical form,
/// and the oracle is to be asked about that form unless it is too short, in
/// which case the name is unavailable.
pub fn plan_lookup(raw: &str) -> (lookup: Lookup)
    ensures
        lookup@ == lookup_of(raw@),
        lookup is Unavailable <==> canonical(raw@).len() < MIN_NAME_LENGTH,
        lookup matches Lookup::Ask(name) ==> is_alphanumeric_text(name@),
{
    let name = clean_name(raw);
    if name.as_str().unicode_len() < MIN_NAME_LENGTH {
        Lookup::Unavailable
    } else {
        Lookup::Ask(name)
    }
}

/// The sentence that reports the outcome of a single lookup of `name`.
pub open spec fn sentence_of(name: Seq<char>, available: bool) -> Seq<char> {
    if available {
        name + ".eth is available"@
    } else {
        name + ".eth is not available"@
    }
}

/// Words the outcome of a single lookup. The name stands in the sentence as
/// it was given, not in its canonical form.
pub fn availability_sentence(name: &str, available: bool) -> (sentence: String)
    ensures
        sentence@ == sentence_of(name@, available),
{
    let mut sentence = name.to_owned();
    if available {
        sentence.append(".eth is available");
    } else {
        sentence.append(".eth is not available");
    }
    sentence
}

} // verus!
