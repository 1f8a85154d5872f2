use vstd::prelude::*;
use vstd::string::*;
use crate::text::chars::{
    is_alphabetic, is_alphanumeric, is_whitespace, spec_is_alphabetic, spec_is_alphanumeric,
    spec_is_whitespace, str_to_chars,
};

verus! {

/// The sets of characters that the grammar scans runs of.
#[derive(Debug, Clone, Copy, PartialEq, Eq, Structural)]
pub enum CharClass {
    /// `0` to `9`.
    Digit,
    /// `0` to `9`, `a` to `f`, `A` to `F`.
    HexDigit,
    /// A letter or `_`.
    IdentifierStart,
    /// A letter, a number or `_`.
    IdentifierPart,
    /// A space or a tab.
    Blank,
    /// White space of any kind.
    Whitespace,
    /// Anything but a comma.
    NotComma,
    /// Anything but a space or a comma.
    NotSpaceOrComma,
    /// Anything but a double quote or a backslash.
    StringBody,
    /// Anything but a semicolon.
    NotSemicolon,
    /// An ASCII letter, a digit or `_`.
    AsciiIdentifier,
    /// Anything but a space or a tab.
    NotBlank,
    /// Anything but a space, a tab or a semicolon.
    NotBlankOrSemicolon,
    /// Anything but a double quote.
    NotQuote,
    /// Anything but a percent sign or a double quote.
    NotPercentOrQuote,
    /// Anything but a line feed.
    NotLineFeed,
}

/// Whether a character belongs to a class.
pub open spec fn spec_in_class(class: CharClass, c: char) -> bool {
    match class {
        CharClass::Digit => '0' <= c <= '9',
        CharClass::HexDigit => '0' <= c <= '9' || 'a' <= c <= 'f' || 'A' <= c <= 'F',
        CharClass::IdentifierStart => spec_is_alphabetic(c) || c == '_',
        CharClass::IdentifierPart => spec_is_alphanumeric(c) || c == '_',
        CharClass::Blank => c == ' ' || c == '\t',
        CharClass::Whitespace => spec_is_whitespace(c),
        CharClass::NotComma => c != ',',
        CharClass::NotSpaceOrComma => c != ' ' && c != ',',
        CharClass::StringBody => c != '"' && c != '\\',
        CharClass::NotSemicolon => c != ';',
        CharClass::AsciiIdentifier => 'a' <= c <= 'z' || 'A' <= c <= 'Z' || '0' <= c <= '9' || c
            == '_',
        CharClass::NotBlank => c != ' ' && c != '\t',
        CharClass::NotBlankOrSemicolon => c != ' ' && c != '\t' && c != ';',
        CharClass::NotQuote => c != '"',
        CharClass::NotPercentOrQuote => c != '%' && c != '"',
        CharClass::NotLineFeed => c != '\n',
    }
}

/// Tells whether a character belongs to a class.
pub fn in_class(class: CharClass, c: char) -> (member: bool)
    ensures
        member == spec_in_class(class, c),
{
    match class {
        CharClass::Digit => '0' <= c && c <= '9',
        CharClass::HexDigit => ('0' <= c && c <= '9') || ('a' <= c && c <= 'f') || ('A' <= c && c
            <= 'F'),
        CharClass::IdentifierStart => is_alphabetic(c) || c == '_',
        CharClass::IdentifierPart => is_alphanumeric(c) || c == '_',
        CharClass::Blank => c == ' ' || c == '\t',
        CharClass::Whitespace => is_whitespace(c),
        CharClass::NotComma => c != ',',
        CharClass::NotSpaceOrComma => c != ' ' && c != ',',
        CharClass::StringBody => c != '"' && c != '\\',
        CharClass::NotSemicolon => c != ';',
        CharClass::AsciiIdentifier => ('a' <= c && c <= 'z') || ('A' <= c && c <= 'Z') || ('0' <= c
            && c <= '9') || c == '_',
        CharClass::NotBlank => c != ' ' && c != '\t',
        CharClass::NotBlankOrSemicolon => c != ' ' && c != '\t' && c != ';',
        CharClass::NotQuote => c != '"',
        CharClass::NotPercentOrQuote => c != '%' && c != '"',
        CharClass::NotLineFeed => c != '\n',
    }
}

/// End of the longest run of characters of a class that starts at `pos`.
pub open spec fn spec_scan(s: Seq<char>, pos: int, class: CharClass) -> int
    decreases s.len() - pos,
{
    if 0 <= pos < s.len() && spec_in_class(class, s[pos]) {
        spec_scan(s, pos + 1, class)
    } else {
        pos
    }
}

/// Start of the longest run of characters of a class that ends at `end`.
pub open spec fn spec_scan_back(s: Seq<char>, end: int, floor: int, class: CharClass) -> int
    decreases end,
{
    if floor < end <= s.len() && 0 <= floor && spec_in_class(class, s[end - 1]) {
        spec_scan_back(s, end - 1, floor, class)
    } else {
        end
    }
}

/// A run ends inside the text, holds only characters of the class, and is not
/// followed by one.
pub proof fn lemma_scan(s: Seq<char>, pos: int, class: CharClass)
    requires
        0 <= pos <= s.len(),
    ensures
        pos <= spec_scan(s, pos, class) <= s.len(),
        forall|i: int| pos <= i < spec_scan(s, pos, class) ==> spec_in_class(class, s[i]),
        spec_scan(s, pos, class) < s.len() ==> !spec_in_class(
            class,
            s[spec_scan(s, pos, class)],
        ),
    decreases s.len() - pos,
{
    if pos < s.len() && spec_in_class(class, s[pos]) {
        lemma_scan(s, pos + 1, class);
    }
}

/// A text together with its characters, so that a parser can look at any
/// position and cut any range out of it.
pub struct Source<'a> {
    text: &'a str,
    chars: Vec<char>,
}

impl<'a> View for Source<'a> {
    type V = Seq<char>;

    closed spec fn view(&self) -> Seq<char> {
        self.text@
    }
}

impl<'a> Source<'a> {
    #[verifier::type_invariant]
    spec fn well_formed(&self) -> bool {
        self.chars@ == self.text@
    }

    /// Takes a text apart into its characters.
    pub fn new(text: &'a str) -> (source: Source<'a>)
        ensures
            source@ == text@,
    {
        Source { text, chars: str_to_chars(text) }
    }

    /// Number of characters.
    pub fn len(&self) -> (n: usize)
        ensures
            n == self@.len(),
    {
        proof {
            use_type_invariant(self);
        }
        self.chars.len()
    }

    /// The character at a position.
    pub fn at(&self, pos: usize) -> (c: char)
        requires
            pos < self@.len(),
        ensures
            c == self@[pos as int],
    {
        proof {
            use_type_invariant(self);
        }
        self.chars[pos]
    }

    /// Whether the character at a position is there and is `c`.
    pub fn is_at(&self, pos: usize, c: char) -> (found: bool)
        ensures
            found == spec_is_at(self@, pos as int, c),
            found ==> pos < self@.len() <= usize::MAX,
    {
        pos < self.len() && self.at(pos) == c
    }

    /// The characters from `from` up to `to`, as a slice of the text.
    pub fn slice(&self, from: usize, to: usize) -> (part: &'a str)
        requires
            from <= to <= self@.len(),
        ensures
            part@ == self@.subrange(from as int, to as int),
    {
        self.text.substring_char(from, to)
    }

    /// The characters from `from` up to `to`, as a text of its own.
    pub fn owned(&self, from: usize, to: usize) -> (part: String)
        requires
            from <= to <= self@.len(),
        ensures
            part@ == self@.subrange(from as int, to as int),
    {
        String::from_str(self.text.substring_char(from, to))
    }

    /// End of the longest run of characters of a class that starts at `pos`.
    pub fn scan(&self, pos: usize, class: CharClass) -> (end: usize)
        requires
            pos <= self@.len(),
        ensures
            end == spec_scan(self@, pos as int, class),
            pos <= end <= self@.len() <= usize::MAX,
    {
        let n = self.len();
        let mut end = pos;
        while end < n && in_class(class, self.at(end))
            invariant
                n == self@.len(),
                pos <= end <= n,
                spec_scan(self@, pos as int, class) == spec_scan(self@, end as int, class),
            decreases n - end,
        {
            end = end + 1;
        }
        end
    }

    /// Start of the longest run of characters of a class that ends at `end` and
    /// does not reach below `floor`.
    pub fn scan_back(&self, end: usize, floor: usize, class: CharClass) -> (start: usize)
        requires
            floor <= end <= self@.len(),
        ensures
            start == spec_scan_back(self@, end as int, floor as int, class),
            floor <= start <= end,
    {
        let mut start = end;
        while start > floor && in_class(class, self.at(start - 1))
            invariant
                floor <= start <= end <= self@.len(),
                spec_scan_back(self@, end as int, floor as int, class) == spec_scan_back(
                    self@,
                    start as int,
                    floor as int,
                    class,
                ),
            decreases start,
        {
            start = start - 1;
        }
        start
    }
}

/// Whether an outcome is the expected one: the same value, the same end, and
/// an end that lies after the start and inside the text.
pub open spec fn parsed_as<T>(
    parsed: Option<(T, usize)>,
    expected: Option<(T, int)>,
    pos: usize,
    len: nat,
) -> bool {
    match expected {
        Some((value, end)) => parsed is Some && parsed->Some_0.0 == value && parsed->Some_0.1
            == end && pos < end <= len,
        None => parsed is None,
    }
}

/// Whether an outcome is the expected one: a value with the same model, the
/// same end, and an end that lies after the start and inside the text.
pub open spec fn parsed_view_as<T: View>(
    parsed: Option<(T, usize)>,
    expected: Option<(T::V, int)>,
    pos: usize,
    len: nat,
) -> bool {
    match expected {
        Some((value, end)) => parsed is Some && parsed->Some_0.0@ == value && parsed->Some_0.1
            == end && pos < end <= len,
        None => parsed is None,
    }
}

/// Whether the character at a position is there and is `c`.
pub open spec fn spec_is_at(s: Seq<char>, pos: int, c: char) -> bool {
    0 <= pos < s.len() && s[pos] == c
}

/// A text without the white space at its two ends.
pub open spec fn spec_trim(s: Seq<char>) -> Seq<char> {
    let start = spec_scan(s, 0, CharClass::Whitespace);
    let end = spec_scan_back(s, s.len() as int, start, CharClass::Whitespace);
    s.subrange(start, end)
}

/// Removes the white space at the two ends of a text.
pub fn trim<'a>(text: &'a str) -> (trimmed: &'a str)
    ensures
        trimmed@ == spec_trim(text@),
{
    let source = Source::new(text);
    let start = source.scan(0, CharClass::Whitespace);
    let end = source.scan_back(source.len(), start, CharClass::Whitespace);
    source.slice(start, end)
}

} // verus!
