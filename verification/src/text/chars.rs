use vstd::prelude::*;

verus! {

/// Whether a character is alphabetic, as `char::is_alphabetic` tells.
pub uninterp spec fn spec_is_alphabetic(c: char) -> bool;

/// Whether a character is alphabetic or numeric, as `char::is_alphanumeric`
/// tells.
pub uninterp spec fn spec_is_alphanumeric(c: char) -> bool;

/// Whether a character is white space, as `char::is_whitespace` tells.
pub uninterp spec fn spec_is_whitespace(c: char) -> bool;

/// The upper-case form of a text, as `str::to_uppercase` gives it.
pub uninterp spec fn spec_to_uppercase(text: Seq<char>) -> Seq<char>;

/// The lower-case form of a text, as `str::to_lowercase` gives it.
pub uninterp spec fn spec_to_lowercase(text: Seq<char>) -> Seq<char>;

/// `str::to_lowercase` of std: the result depends on the text alone and is
/// named by `spec_to_lowercase`.
#[verifier::external_body]
pub(crate) fn to_lowercase(text: &str) -> (lower: String)
    ensures
        lower@ == spec_to_lowercase(text@),
{
    text.to_lowercase()
}

/// `char::is_alphabetic` of std: the answer depends on the character alone and
/// is named by `spec_is_alphabetic`.
#[verifier::external_body]
pub(crate) fn is_alphabetic(c: char) -> (answer: bool)
    ensures
        answer == spec_is_alphabetic(c),
{
    c.is_alphabetic()
}

/// `char::is_alphanumeric` of std: the answer depends on the character alone
/// and is named by `spec_is_alphanumeric`.
#[verifier::external_body]
pub(crate) fn is_alphanumeric(c: char) -> (answer: bool)
    ensures
        answer == spec_is_alphanumeric(c),
{
    c.is_alphanumeric()
}

/// `char::is_whitespace` of std: the answer depends on the character alone and
/// is named by `spec_is_whitespace`.
#[verifier::external_body]
pub(crate) fn is_whitespace(c: char) -> (answer: bool)
    ensures
        answer == spec_is_whitespace(c),
{
    c.is_whitespace()
}

/// `str::to_uppercase` of std: the result depends on the text alone and is
/// named by `spec_to_uppercase`.
#[verifier::external_body]
pub(crate) fn to_uppercase(text: &str) -> (upper: String)
    ensures
        upper@ == spec_to_uppercase(text@),
{
    text.to_uppercase()
}

/// Each text of a list as a sequence of characters.
pub open spec fn texts_view(texts: Seq<String>) -> Seq<Seq<char>> {
    Seq::new(texts.len(), |i: int| texts[i]@)
}

/// The characters of a text, in order.
pub fn str_to_chars(text: &str) -> (chars: Vec<char>)
    ensures
        chars@ == text@,
{
    let mut chars: Vec<char> = Vec::new();
    for c in it: text.chars()
        invariant
            chars@ == it.seq().take(it.index()),
            it.seq() == text@,
    {
        chars.push(c);
    }
    chars
}

} // verus!
