//! Slugs: the lower-case, hyphen-separated form of a title.

use vstd::prelude::*;

verus! {

/// The slug that `slugify::slugify` makes of `text`, with the given stop
/// words, separator and length limit.
pub uninterp spec fn slug_with(
    text: Seq<char>,
    stop_words: Seq<char>,
    separator: Seq<char>,
    max_length: Option<usize>,
) -> Seq<char>;

/// The slug of `text` with the usual settings: no stop words, a hyphen
/// between the words, no length limit.
pub open spec fn slug_of(text: Seq<char>) -> Seq<char> {
    slug_with(text, ""@, "-"@, None)
}

/// Whether `separator` can separate the words of a slug: its first character
/// exists and is ASCII.
pub open spec fn separates(separator: Seq<char>) -> bool {
    separator.len() > 0 && (separator[0] as u32) < 128
}

/// `slugify::slugify`. Not proved: that the result is a function of the four
/// arguments, which `slug_with` names. The call indexes the first character of
/// the separator and writes it as one byte, so an empty or non-ASCII
/// separator is kept out.
#[verifier::external_body]
fn slugify_with(text: &str, stop_words: &str, separator: &str, max_length: Option<usize>) -> (s:
    String)
    requires
        separates(separator@),
    ensures
        s@ == slug_with(text@, stop_words@, separator@, max_length),
{
    slugify::slugify(text, stop_words, separator, max_length)
}

/// The slug of `text`.
pub fn slugify(text: &str) -> (s: String)
    ensures
        s@ == slug_of(text@),
{
    proof {
        reveal_strlit("-");
    }
    slugify_with(text, "", "-", None)
}

} // verus!
