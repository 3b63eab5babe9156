//! Case-insensitive text matching.

use vstd::prelude::*;

verus! {

/// The lower-case form of a text, as `str::to_lowercase` computes it.
pub uninterp spec fn lowercase(text: Seq<char>) -> Seq<char>;

/// What is left of a text once leading and trailing white space is removed,
/// as `str::trim` computes it.
pub uninterp spec fn trimmed(text: Seq<char>) -> Seq<char>;

/// `needle` stands in `haystack` starting at position `at`.
pub open spec fn occurs_at(needle: Seq<char>, haystack: Seq<char>, at: int) -> bool {
    &&& 0 <= at
    &&& at + needle.len() <= haystack.len()
    &&& haystack.subrange(at, at + needle.len()) == needle
}

/// `needle` stands somewhere in `haystack`.
pub open spec fn is_substring(needle: Seq<char>, haystack: Seq<char>) -> bool {
    exists|at: int| occurs_at(needle, haystack, at)
}

/// `target` is found in `candidate` once the case of both is ignored.
pub open spec fn loosely_matches(candidate: Seq<char>, target: Seq<char>) -> bool {
    is_substring(lowercase(target), lowercase(candidate))
}

/// Calls `str::to_lowercase`. Trusted: the result is the lower-case form of
/// the argument, which depends on the argument alone.
#[verifier::external_body]
pub(crate) fn to_lower(text: &str) -> (r: String)
    ensures
        r@ == lowercase(text@),
{
    text.to_lowercase()
}

/// Calls `str::contains` with a string pattern. Trusted: the result tells
/// whether the pattern occurs as a contiguous run of characters.
#[verifier::external_body]
pub(crate) fn contains(haystack: &str, needle: &str) -> (r: bool)
    ensures
        r == is_substring(needle@, haystack@),
{
    haystack.contains(needle)
}

/// Calls `str::trim`. Trusted: the result is the argument without its
/// leading and trailing white space, which depends on the argument alone.
#[verifier::external_body]
pub(crate) fn trim(text: &str) -> (r: &str)
    ensures
        r@ == trimmed(text@),
{
    text.trim()
}

/// A text occurs in itself, so equality is a case of containment.
pub proof fn lemma_equal_texts_match(text: Seq<char>)
    ensures
        is_substring(text, text),
{
    assert(text.subrange(0, text.len() as int) == text);
    assert(occurs_at(text, text, 0));
}

/// Tells whether a text holds nothing but white space.
pub fn is_blank(text: &str) -> (r: bool)
    ensures
        r == (trimmed(text@).len() == 0),
{
    trim(text).is_empty()
}

/// Compares two texts that are already in lower case: equality and
/// containment both count as a match.
pub fn lowered_match(candidate_lower: &str, target_lower: &str) -> (r: bool)
    ensures
        r == (candidate_lower@ == target_lower@ || is_substring(
            target_lower@,
            candidate_lower@,
        )),
{
    proof {
        lemma_equal_texts_match(target_lower@);
    }
    contains(candidate_lower, target_lower)
}

/// Tells whether `target` is found in `candidate`, ignoring case.
pub fn loose_match(candidate: &str, target: &str) -> (r: bool)
    ensures
        r == loosely_matches(candidate@, target@),
{
    let candidate_lower = to_lower(candidate);
    let target_lower = to_lower(target);
    proof {
        lemma_equal_texts_match(target_lower@);
    }
    lowered_match(candidate_lower.as_str(), target_lower.as_str())
}

} // verus!
