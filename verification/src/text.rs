//! Substring containment and case folding on text.

use vstd::prelude::*;

verus! {

/// `needle` stands in `hay` at position `at`.
pub open spec fn occurs_at(hay: Seq<char>, needle: Seq<char>, at: int) -> bool {
    &&& 0 <= at
    &&& at + needle.len() <= hay.len()
    &&& hay.subrange(at, at + needle.len()) =~= needle
}

/// `needle` is a contiguous part of `hay`. The empty text is part of every
/// text.
pub open spec fn has_substring(hay: Seq<char>, needle: Seq<char>) -> bool {
    exists|at: int| occurs_at(hay, needle, at)
}

/// The lower-case form of a text, as `str::to_lowercase` computes it by
/// Unicode's rules. It is a function of the text alone, and it need not have
/// the text's length. Nothing more is known of it here.
pub uninterp spec fn lowercase_of(text: Seq<char>) -> Seq<char>;

/// Calls `str::to_lowercase`. Not proved: that the string returned is the
/// lower-case form of the argument, and so depends on nothing else.
#[verifier::external_body]
pub(crate) fn to_lowercase(text: &str) -> (folded: String)
    ensures
        folded@ == lowercase_of(text@),
{
    text.to_lowercase()
}

/// Calls `str::contains` with a string for its pattern. Not proved: that it
/// returns `true` exactly when the pattern matches a sub-slice of the text,
/// which for two strings is to say that the characters of the pattern stand
/// somewhere in the text, one after the other.
#[verifier::external_body]
fn str_contains(hay: &str, needle: &str) -> (found: bool)
    ensures
        found == has_substring(hay@, needle@),
{
    hay.contains(needle)
}

/// Whether `needle` is a contiguous part of `hay`, letter case respected.
pub fn contains_text(hay: &str, needle: &str) -> (found: bool)
    ensures
        found == has_substring(hay@, needle@),
{
    str_contains(hay, needle)
}

/// The empty text is part of every text.
pub proof fn lemma_empty_is_substring(hay: Seq<char>)
    ensures
        has_substring(hay, Seq::<char>::empty()),
{
    assert(occurs_at(hay, Seq::<char>::empty(), 0));
}

} // verus!
