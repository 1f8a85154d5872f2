use vstd::prelude::*;
use vstd::string::*;
use crate::assembler::parsers::numbers::spec_rest;
use crate::text::scan::{
    lemma_scan, spec_in_class, spec_is_at, spec_scan, spec_trim, trim, CharClass, Source,
};
use crate::logging::{PreprocessorErrorKind, PreprocessorErrorKindView};
use crate::text::strings::{spec_parse_escaped_string, string_end_at};
use crate::preprocessor::{
    chunks_view, divide_comment, spec_divide_comment, DefinitionChunk, DefinitionChunkView,
    SourceLineBody, SourceLineBodyView,
};

verus! {

/// Whether `c` is the letter `letter`, in either case, or the same character
/// where `letter` is no lower-case letter.
pub open spec fn spec_same_letter(c: char, letter: char) -> bool {
    c == letter || ('a' <= letter <= 'z' && c as int + 32 == letter as int)
}

/// Whether a keyword, given in lower case, stands at `pos`, in any case.
pub open spec fn spec_keyword_at(s: Seq<char>, pos: int, keyword: Seq<char>) -> bool {
    &&& 0 <= pos
    &&& pos + keyword.len() <= s.len()
    &&& forall|i: int| 0 <= i < keyword.len() ==> spec_same_letter(s[pos + i], #[trigger] keyword[i])
}

fn same_letter(c: char, letter: char) -> (same: bool)
    ensures
        same == spec_same_letter(c, letter),
{
    c == letter || ('a' <= letter && letter <= 'z' && c as u32 + 32 == letter as u32)
}

fn keyword_at(src: &Source, pos: usize, keyword: &str) -> (found: bool)
    requires
        pos <= src@.len(),
    ensures
        found == spec_keyword_at(src@, pos as int, keyword@),
        found ==> pos + keyword@.len() <= src@.len(),
{
    let n = keyword.unicode_len();
    let total = src.len();
    if n > total - pos {
        return false;
    }
    let mut i: usize = 0;
    while i < n
        invariant
            n == keyword@.len(),
            total == src@.len(),
            pos + n <= total,
            i <= n,
            forall|k: int| 0 <= k < i ==> spec_same_letter(src@[pos + k], #[trigger] keyword@[k]),
        decreases n - i,
    {
        if !same_letter(src.at(pos + i), keyword.get_char(i)) {
            return false;
        }
        i = i + 1;
    }
    true
}

/// A string without escapes at `pos`: a double quote, any characters but a
/// double quote, a double quote. The outcome is what stands between the
/// quotes.
pub open spec fn spec_parse_string_literal(s: Seq<char>, pos: int) -> Option<(Seq<char>, int)> {
    if spec_is_at(s, pos, '"') {
        let end = spec_scan(s, pos + 1, CharClass::NotQuote);
        if spec_is_at(s, end, '"') {
            Some((s.subrange(pos + 1, end), end + 1))
        } else {
            None
        }
    } else {
        None
    }
}

/// A string with escapes at `pos`, as it is written, quotes and backslashes
/// included.
pub open spec fn spec_parse_string_literal_block(s: Seq<char>, pos: int) -> Option<
    (Seq<char>, int),
> {
    match spec_parse_escaped_string(s, pos) {
        Some((_, end)) => Some((s.subrange(pos, end), end)),
        None => None,
    }
}

/// An identifier of the preprocessor at `pos`: ASCII letters, digits and `_`,
/// at least one.
pub open spec fn spec_parse_identifier(s: Seq<char>, pos: int) -> Option<(Seq<char>, int)> {
    let end = spec_scan(s, pos, CharClass::AsciiIdentifier);
    if end <= pos {
        None
    } else {
        Some((s.subrange(pos, end), end))
    }
}

/// A definition at `pos`: blanks, `%define`, blanks, an identifier, `=` with
/// blanks around it, and a value that ends at a semicolon or at the end.
///
/// The outcome is `None` where the keyword is not there. With the keyword
/// there, a missing identifier or a missing value is a fault. The value is
/// kept without the white space around it.
pub open spec fn spec_parse_define_line_body(s: Seq<char>, pos: int) -> Result<
    Option<(SourceLineBodyView, int)>,
    PreprocessorErrorKindView,
> {
    let start = spec_scan(s, pos, CharClass::Blank);
    if !spec_keyword_at(s, start, "%define"@) {
        Ok(None)
    } else {
        let after_keyword = start + "%define"@.len();
        let identifier_start = spec_scan(s, after_keyword, CharClass::Blank);
        if identifier_start <= after_keyword {
            Err(PreprocessorErrorKindView::DefineMissingIdentifier)
        } else {
            match spec_parse_identifier(s, identifier_start) {
                None => Err(PreprocessorErrorKindView::DefineMissingIdentifier),
                Some((identifier, identifier_end)) => {
                    let equals = spec_scan(s, identifier_end, CharClass::Blank);
                    if !spec_is_at(s, equals, '=') {
                        Err(PreprocessorErrorKindView::DefineMissingValue(identifier))
                    } else {
                        let value_start = spec_scan(s, equals + 1, CharClass::Blank);
                        let value_end = spec_scan(s, value_start, CharClass::NotSemicolon);
                        if value_end <= value_start {
                            Err(PreprocessorErrorKindView::DefineMissingValue(identifier))
                        } else {
                            Ok(
                                Some(
                                    (
                                        SourceLineBodyView::Define(
                                            identifier,
                                            spec_trim(s.subrange(value_start, value_end)),
                                        ),
                                        value_end,
                                    ),
                                ),
                            )
                        }
                    }
                },
            }
        }
    }
}

/// The path of an include at `pos`: a string without escapes, or else any
/// characters but blanks and semicolons, at least one.
pub open spec fn spec_parse_include_path(s: Seq<char>, pos: int) -> Option<(Seq<char>, int)> {
    match spec_parse_string_literal(s, pos) {
        Some(found) => Some(found),
        None => {
            let end = spec_scan(s, pos, CharClass::NotBlankOrSemicolon);
            if end <= pos {
                None
            } else {
                Some((s.subrange(pos, end), end))
            }
        },
    }
}

/// An include at `pos`: blanks, `%include`, blanks, a path, blanks.
///
/// The outcome is `None` where the keyword is not there. With the keyword
/// there, a missing path is a fault.
pub open spec fn spec_parse_include_line_body(s: Seq<char>, pos: int) -> Result<
    Option<(SourceLineBodyView, int)>,
    PreprocessorErrorKindView,
> {
    let start = spec_scan(s, pos, CharClass::Blank);
    if !spec_keyword_at(s, start, "%include"@) {
        Ok(None)
    } else {
        let after_keyword = start + "%include"@.len();
        let path_start = spec_scan(s, after_keyword, CharClass::Blank);
        if path_start <= after_keyword {
            Err(PreprocessorErrorKindView::IncludeMissingFilePath)
        } else {
            match spec_parse_include_path(s, path_start) {
                None => Err(PreprocessorErrorKindView::IncludeMissingFilePath),
                Some((path, path_end)) => Ok(
                    Some(
                        (
                            SourceLineBodyView::Include(path),
                            spec_scan(s, path_end, CharClass::Blank),
                        ),
                    ),
                ),
            }
        }
    }
}

/// A line of code from `pos` on with its blanks brought to order: a string
/// stays as it is, every run of blanks outside a string becomes one space,
/// any other run of characters stays as it is.
pub open spec fn spec_normalized(s: Seq<char>, pos: int) -> Seq<char>
    decreases s.len() - pos,
{
    if pos < 0 || pos >= s.len() {
        Seq::empty()
    } else {
        match spec_parse_escaped_string(s, pos) {
            Some((_, end)) => if pos < end <= s.len() {
                s.subrange(pos, end) + spec_normalized(s, end)
            } else {
                Seq::empty()
            },
            None => if spec_in_class(CharClass::Blank, s[pos]) {
                let end = spec_scan(s, pos, CharClass::Blank);
                if pos < end <= s.len() {
                    seq![' '] + spec_normalized(s, end)
                } else {
                    Seq::empty()
                }
            } else {
                let end = spec_scan(s, pos, CharClass::NotBlank);
                if pos < end <= s.len() {
                    s.subrange(pos, end) + spec_normalized(s, end)
                } else {
                    Seq::empty()
                }
            },
        }
    }
}

/// A line of code: the whole text from `pos` on, with its blanks brought to
/// order and without the white space around it.
pub open spec fn spec_parse_code_line_body(s: Seq<char>, pos: int) -> (SourceLineBodyView, int) {
    (SourceLineBodyView::Code(spec_trim(spec_normalized(s, pos))), s.len() as int)
}

/// What the body of a line holds, and where the reading stopped: a
/// definition, an include, or else code.
pub open spec fn spec_parse_source_line_body(s: Seq<char>) -> Result<
    (SourceLineBodyView, int),
    PreprocessorErrorKindView,
> {
    match spec_parse_define_line_body(s, 0) {
        Err(e) => Err(e),
        Ok(Some(found)) => Ok(found),
        Ok(None) => match spec_parse_include_line_body(s, 0) {
            Err(e) => Err(e),
            Ok(Some(found)) => Ok(found),
            Ok(None) => Ok(spec_parse_code_line_body(s, 0)),
        },
    }
}

/// What a line of source text holds: its body, its comment, and what stood
/// after the body and was not understood. A line without code before its
/// comment is empty.
pub open spec fn spec_parse_source_line(s: Seq<char>) -> Result<
    (SourceLineBodyView, Seq<char>, Seq<char>),
    PreprocessorErrorKindView,
> {
    let (body, comment) = spec_divide_comment(s);
    if body.len() < 1 {
        Ok((SourceLineBodyView::Empty, comment, Seq::empty()))
    } else {
        match spec_parse_source_line_body(body) {
            Err(e) => Err(e),
            Ok((parsed, end)) => Ok((parsed, comment, spec_rest(body, end))),
        }
    }
}

/// One piece of a line of code at `pos`: `%` and an identifier name a
/// definition; any characters but `%` and a double quote, or else a string,
/// are code.
pub open spec fn spec_parse_definition_chunk(s: Seq<char>, pos: int) -> Option<
    (DefinitionChunkView, int),
> {
    match (if spec_is_at(s, pos, '%') {
        spec_parse_identifier(s, pos + 1)
    } else {
        None
    }) {
        Some((identifier, end)) => Some((DefinitionChunkView::DefinitionReference(identifier), end)),
        None => {
            let end = spec_scan(s, pos, CharClass::NotPercentOrQuote);
            if end > pos {
                Some((DefinitionChunkView::Code(s.subrange(pos, end)), end))
            } else {
                match spec_parse_string_literal_block(s, pos) {
                    Some((text, string_end)) => Some((DefinitionChunkView::Code(text), string_end)),
                    None => None,
                }
            }
        },
    }
}

/// The pieces of a line of code from `pos` on, as far as pieces follow each
/// other, and the position where they end.
pub open spec fn spec_parse_definitions_chunks(s: Seq<char>, pos: int) -> (
    Seq<DefinitionChunkView>,
    int,
)
    decreases s.len() - pos,
{
    match spec_parse_definition_chunk(s, pos) {
        Some((chunk, end)) => if pos < end <= s.len() {
            let (rest, last) = spec_parse_definitions_chunks(s, end);
            (seq![chunk] + rest, last)
        } else {
            (Seq::empty(), pos)
        },
        None => (Seq::empty(), pos),
    }
}

/// Reads a string without escapes at `pos`.
pub fn string_literal_at(src: &Source, pos: usize) -> (parsed: Option<(usize, usize, usize)>)
    requires
        pos <= src@.len(),
    ensures
        match spec_parse_string_literal(src@, pos as int) {
            Some((text, end)) => parsed is Some && parsed->Some_0.2 == end && pos
                < parsed->Some_0.0 <= parsed->Some_0.1 < end <= src@.len() && text
                == src@.subrange(parsed->Some_0.0 as int, parsed->Some_0.1 as int),
            None => parsed is None,
        },
{
    if src.is_at(pos, '"') {
        let end = src.scan(pos + 1, CharClass::NotQuote);
        if src.is_at(end, '"') {
            return Some((pos + 1, end, end + 1));
        }
    }
    None
}

/// Reads an identifier of the preprocessor at `pos`.
pub fn identifier_at(src: &Source, pos: usize) -> (end: Option<usize>)
    requires
        pos <= src@.len(),
    ensures
        match spec_parse_identifier(src@, pos as int) {
            Some((text, expected)) => end is Some && end->Some_0 == expected && pos < expected
                <= src@.len() && text == src@.subrange(pos as int, expected),
            None => end is None,
        },
{
    let end = src.scan(pos, CharClass::AsciiIdentifier);
    if end == pos {
        None
    } else {
        Some(end)
    }
}

/// The model of an outcome that tells a body and where the reading stopped.
pub open spec fn body_outcome_view(
    parsed: Result<Option<(SourceLineBody, usize)>, PreprocessorErrorKind>,
) -> Result<Option<(SourceLineBodyView, int)>, PreprocessorErrorKindView> {
    match parsed {
        Ok(Some((body, end))) => Ok(Some((body@, end as int))),
        Ok(None) => Ok(None),
        Err(e) => Err(e@),
    }
}

/// Reads a definition at `pos`.
pub fn define_line_body_at(src: &Source, pos: usize) -> (parsed: Result<
    Option<(SourceLineBody, usize)>,
    PreprocessorErrorKind,
>)
    requires
        pos <= src@.len(),
    ensures
        body_outcome_view(parsed) == spec_parse_define_line_body(src@, pos as int),
        parsed is Ok && parsed->Ok_0 is Some ==> parsed->Ok_0->Some_0.1 <= src@.len(),
{
    // Match %define tag
    let start = src.scan(pos, CharClass::Blank);
    if !keyword_at(src, start, "%define") {
        return Ok(None);
    }
    let after_keyword = start + "%define".unicode_len();
    // Get identifier
    let identifier_start = src.scan(after_keyword, CharClass::Blank);
    if identifier_start == after_keyword {
        return Err(PreprocessorErrorKind::DefineMissingIdentifier);
    }
    let identifier_end = match identifier_at(src, identifier_start) {
        Some(end) => end,
        None => {
            return Err(PreprocessorErrorKind::DefineMissingIdentifier);
        },
    };
    // Get value
    let equals = src.scan(identifier_end, CharClass::Blank);
    if !src.is_at(equals, '=') {
        return Err(
            PreprocessorErrorKind::DefineMissingValue(src.owned(identifier_start, identifier_end)),
        );
    }
    let value_start = src.scan(equals + 1, CharClass::Blank);
    let value_end = src.scan(value_start, CharClass::NotSemicolon);
    if value_end == value_start {
        return Err(
            PreprocessorErrorKind::DefineMissingValue(src.owned(identifier_start, identifier_end)),
        );
    }
    Ok(
        Some(
            (
                SourceLineBody::Define(
                    src.owned(identifier_start, identifier_end),
                    String::from_str(trim(src.slice(value_start, value_end))),
                ),
                value_end,
            ),
        ),
    )
}

/// Reads an include at `pos`.
pub fn include_line_body_at(src: &Source, pos: usize) -> (parsed: Result<
    Option<(SourceLineBody, usize)>,
    PreprocessorErrorKind,
>)
    requires
        pos <= src@.len(),
    ensures
        body_outcome_view(parsed) == spec_parse_include_line_body(src@, pos as int),
        parsed is Ok && parsed->Ok_0 is Some ==> parsed->Ok_0->Some_0.1 <= src@.len(),
{
    // Match %include tag
    let start = src.scan(pos, CharClass::Blank);
    if !keyword_at(src, start, "%include") {
        return Ok(None);
    }
    let after_keyword = start + "%include".unicode_len();
    // Get include file path
    let path_start = src.scan(after_keyword, CharClass::Blank);
    if path_start == after_keyword {
        return Err(PreprocessorErrorKind::IncludeMissingFilePath);
    }
    let (from, to, path_end) = match string_literal_at(src, path_start) {
        Some(found) => found,
        None => {
            let end = src.scan(path_start, CharClass::NotBlankOrSemicolon);
            if end == path_start {
                return Err(PreprocessorErrorKind::IncludeMissingFilePath);
            }
            (path_start, end, end)
        },
    };
    Ok(Some((SourceLineBody::Include(src.owned(from, to)), src.scan(path_end, CharClass::Blank))))
}

/// Brings the blanks of a line of code to order, from `pos` on.
pub fn normalized_at(src: &Source, pos: usize) -> (text: String)
    requires
        pos <= src@.len(),
    ensures
        text@ == spec_normalized(src@, pos as int),
{
    proof {
        reveal_strlit(" ");
        assert(" "@ =~= seq![' ']);
    }
    let n = src.len();
    let mut text = String::new();
    let mut i = pos;
    while i < n
        invariant
            n == src@.len(),
            pos <= i <= n,
            " "@ == seq![' '],
            spec_normalized(src@, pos as int) == text@ + spec_normalized(src@, i as int),
        decreases n - i,
    {
        let ghost before = text@;
        let ghost start = i;
        let (end, blank) = match string_end_at(src, i) {
            Some(end) => (end, false),
            None => {
                let c = src.at(i);
                if c == ' ' || c == '\t' {
                    (src.scan(i, CharClass::Blank), true)
                } else {
                    (src.scan(i, CharClass::NotBlank), false)
                }
            },
        };
        proof {
            lemma_scan(src@, i as int, CharClass::Blank);
            lemma_scan(src@, i as int, CharClass::NotBlank);
        }
        assert(i < end);
        if blank {
            text.append(" ");
            assert(before + (seq![' '] + spec_normalized(src@, end as int)) =~= (before
                + seq![' ']) + spec_normalized(src@, end as int));
        } else {
            text.append(src.slice(i, end));
            assert(before + (src@.subrange(start as int, end as int) + spec_normalized(
                src@,
                end as int,
            )) =~= (before + src@.subrange(start as int, end as int)) + spec_normalized(
                src@,
                end as int,
            ));
        }
        i = end;
    }
    assert(text@ + Seq::<char>::empty() =~= text@);
    text
}

/// Reads a line of code from `pos` on.
pub fn code_line_body_at(src: &Source, pos: usize) -> (parsed: (SourceLineBody, usize))
    requires
        pos <= src@.len(),
    ensures
        (parsed.0@, parsed.1 as int) == spec_parse_code_line_body(src@, pos as int),
{
    let normalized = normalized_at(src, pos);
    (SourceLineBody::Code(String::from_str(trim(normalized.as_str()))), src.len())
}

/// The model of the body of a line with what is left of the text after it.
pub open spec fn body_with_rest_view(
    parsed: Result<Option<(&str, SourceLineBody)>, PreprocessorErrorKind>,
) -> Result<Option<(Seq<char>, SourceLineBodyView)>, PreprocessorErrorKindView> {
    match parsed {
        Ok(Some((rest, body))) => Ok(Some((rest@, body@))),
        Ok(None) => Ok(None),
        Err(e) => Err(e@),
    }
}

/// An outcome with a position, told by what is left of the text instead.
pub open spec fn spec_body_with_rest(
    s: Seq<char>,
    parsed: Result<Option<(SourceLineBodyView, int)>, PreprocessorErrorKindView>,
) -> Result<Option<(Seq<char>, SourceLineBodyView)>, PreprocessorErrorKindView> {
    match parsed {
        Ok(Some((body, end))) => Ok(Some((spec_rest(s, end), body))),
        Ok(None) => Ok(None),
        Err(e) => Err(e),
    }
}

/// Parses %define directive
pub fn parse_define_line_body<'a>(input: &'a str) -> (parsed: Result<
    Option<(&'a str, SourceLineBody)>,
    PreprocessorErrorKind,
>)
    ensures
        body_with_rest_view(parsed) == spec_body_with_rest(
            input@,
            spec_parse_define_line_body(input@, 0),
        ),
{
    let src = Source::new(input);
    match define_line_body_at(&src, 0) {
        Ok(Some((body, end))) => Ok(Some((src.slice(end, src.len()), body))),
        Ok(None) => Ok(None),
        Err(e) => Err(e),
    }
}

/// Parses %include directive
pub fn parse_include_line_body<'a>(input: &'a str) -> (parsed: Result<
    Option<(&'a str, SourceLineBody)>,
    PreprocessorErrorKind,
>)
    ensures
        body_with_rest_view(parsed) == spec_body_with_rest(
            input@,
            spec_parse_include_line_body(input@, 0),
        ),
{
    let src = Source::new(input);
    match include_line_body_at(&src, 0) {
        Ok(Some((body, end))) => Ok(Some((src.slice(end, src.len()), body))),
        Ok(None) => Ok(None),
        Err(e) => Err(e),
    }
}

/// Reads a line of code: the whole text, with its blanks brought to order.
/// Nothing is left over.
pub fn parse_code_line_body<'a>(input: &'a str) -> (parsed: (&'a str, SourceLineBody))
    ensures
        parsed.0@ == Seq::<char>::empty(),
        parsed.1@ == spec_parse_code_line_body(input@, 0).0,
{
    let src = Source::new(input);
    let (body, end) = code_line_body_at(&src, 0);
    (src.slice(end, src.len()), body)
}

/// Reads the body of a line: a definition, an include, or else code.
pub fn parse_source_line_body<'a>(input: &'a str) -> (parsed: Result<
    (&'a str, SourceLineBody),
    PreprocessorErrorKind,
>)
    ensures
        match spec_parse_source_line_body(input@) {
            Ok((body, end)) => parsed is Ok && parsed->Ok_0.1@ == body && parsed->Ok_0.0@
                == spec_rest(input@, end),
            Err(e) => parsed is Err && parsed->Err_0@ == e,
        },
{
    let src = Source::new(input);
    let (body, end) = match define_line_body_at(&src, 0) {
        Err(e) => {
            return Err(e);
        },
        Ok(Some(found)) => found,
        Ok(None) => match include_line_body_at(&src, 0) {
            Err(e) => {
                return Err(e);
            },
            Ok(Some(found)) => found,
            Ok(None) => code_line_body_at(&src, 0),
        },
    };
    Ok((src.slice(end, src.len()), body))
}

/// Reads a line of source text: its body, its comment, and what stood after
/// the body and was not understood.
pub fn parse_source_line(input: &str) -> (parsed: Result<
    (SourceLineBody, String, String),
    PreprocessorErrorKind,
>)
    ensures
        match spec_parse_source_line(input@) {
            Ok((body, comment, garbage)) => parsed is Ok && parsed->Ok_0.0@ == body
                && parsed->Ok_0.1@ == comment && parsed->Ok_0.2@ == garbage,
            Err(e) => parsed is Err && parsed->Err_0@ == e,
        },
{
    // Divide code from comment
    let (body_str, comment) = divide_comment(input);
    // Handle empty lines
    if body_str.unicode_len() < 1 {
        return Ok((SourceLineBody::Empty, String::from_str(comment), String::new()));
    }
    // Parse line body
    let (garbage, body) = match parse_source_line_body(body_str) {
        Ok(found) => found,
        Err(e) => {
            return Err(e);
        },
    };
    Ok((body, String::from_str(comment), String::from_str(garbage)))
}

/// Reads a string without escapes at the start of a text and gives what is
/// left of the text and what stands between the quotes.
pub fn parse_string_literal<'a>(input: &'a str) -> (parsed: Option<(&'a str, &'a str)>)
    ensures
        match spec_parse_string_literal(input@, 0) {
            Some((text, end)) => parsed is Some && parsed->Some_0.0@ == spec_rest(input@, end)
                && parsed->Some_0.1@ == text,
            None => parsed is None,
        },
{
    let src = Source::new(input);
    match string_literal_at(&src, 0) {
        Some((from, to, end)) => Some((src.slice(end, src.len()), src.slice(from, to))),
        None => None,
    }
}

/// Reads a string with escapes at the start of a text and gives what is left
/// of the text and the string as it is written.
pub fn parse_string_literal_block<'a>(input: &'a str) -> (parsed: Option<(&'a str, String)>)
    ensures
        match spec_parse_string_literal_block(input@, 0) {
            Some((text, end)) => parsed is Some && parsed->Some_0.0@ == spec_rest(input@, end)
                && parsed->Some_0.1@ == text,
            None => parsed is None,
        },
{
    let src = Source::new(input);
    match string_end_at(&src, 0) {
        Some(end) => Some((src.slice(end, src.len()), src.owned(0, end))),
        None => None,
    }
}

/// Parse preprocessor identifier
pub fn parse_identifier<'a>(input: &'a str) -> (parsed: Option<(&'a str, String)>)
    ensures
        match spec_parse_identifier(input@, 0) {
            Some((text, end)) => parsed is Some && parsed->Some_0.0@ == spec_rest(input@, end)
                && parsed->Some_0.1@ == text,
            None => parsed is None,
        },
{
    let src = Source::new(input);
    match identifier_at(&src, 0) {
        Some(end) => Some((src.slice(end, src.len()), src.owned(0, end))),
        None => None,
    }
}

fn definition_chunk_at(src: &Source, pos: usize) -> (parsed: Option<(DefinitionChunk, usize)>)
    requires
        pos <= src@.len(),
    ensures
        match spec_parse_definition_chunk(src@, pos as int) {
            Some((chunk, end)) => parsed is Some && parsed->Some_0.0@ == chunk
                && parsed->Some_0.1 == end && pos < end <= src@.len(),
            None => parsed is None,
        },
{
    if src.is_at(pos, '%') {
        if let Some(end) = identifier_at(src, pos + 1) {
            return Some((DefinitionChunk::DefinitionReference(src.owned(pos + 1, end)), end));
        }
    }
    let end = src.scan(pos, CharClass::NotPercentOrQuote);
    if end > pos {
        return Some((DefinitionChunk::Code(src.owned(pos, end)), end));
    }
    match string_end_at(src, pos) {
        Some(string_end) => Some((DefinitionChunk::Code(src.owned(pos, string_end)), string_end)),
        None => None,
    }
}

/// Splits a line of code into text that stays and names of definitions, as far
/// as such pieces follow each other, and gives what is left of the line.
pub fn parse_definitions_chunks<'a>(input: &'a str) -> (parsed: (&'a str, Vec<DefinitionChunk>))
    ensures
        chunks_view(parsed.1@) == spec_parse_definitions_chunks(input@, 0).0,
        parsed.0@ == spec_rest(input@, spec_parse_definitions_chunks(input@, 0).1),
{
    let src = Source::new(input);
    let mut chunks: Vec<DefinitionChunk> = Vec::new();
    let mut pos: usize = 0;
    let mut done = false;
    assert(chunks_view(chunks@) =~= Seq::<DefinitionChunkView>::empty());
    while !done
        invariant
            pos <= src@.len(),
            src@ == input@,
            spec_parse_definitions_chunks(input@, 0).0 == chunks_view(chunks@)
                + spec_parse_definitions_chunks(input@, pos as int).0,
            spec_parse_definitions_chunks(input@, 0).1 == spec_parse_definitions_chunks(
                input@,
                pos as int,
            ).1,
            done ==> spec_parse_definitions_chunks(input@, pos as int) == (
                Seq::<DefinitionChunkView>::empty(),
                pos as int,
            ),
        decreases src@.len() - pos + (if done { 0int } else { 1int }),
    {
        match definition_chunk_at(&src, pos) {
            Some((chunk, end)) => {
                let ghost before = chunks_view(chunks@);
                let ghost shown = chunk@;
                chunks.push(chunk);
                proof {
                    assert(chunks_view(chunks@) =~= before + seq![shown]);
                    assert(before + (seq![shown] + spec_parse_definitions_chunks(
                        input@,
                        end as int,
                    ).0) =~= (before + seq![shown]) + spec_parse_definitions_chunks(
                        input@,
                        end as int,
                    ).0);
                }
                pos = end;
            },
            None => {
                done = true;
            },
        }
    }
    assert(chunks_view(chunks@) + Seq::<DefinitionChunkView>::empty() =~= chunks_view(chunks@));
    (src.slice(pos, src.len()), chunks)
}

} // verus!
