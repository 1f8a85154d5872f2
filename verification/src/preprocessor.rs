use vstd::prelude::*;
use vstd::string::*;
use crate::text::scan::{spec_scan, spec_trim, trim, CharClass, Source};

pub mod definitions;
pub mod parsers;
pub mod processing;

verus! {

/// Where a line came from: its file, its 1-based number and its text as written.
#[derive(Debug, PartialEq)]
pub struct LineLocation {
    pub line_n: usize,
    pub file_name: String,
    pub raw_content: String,
}

impl Clone for LineLocation {
    fn clone(&self) -> (copy: Self)
        ensures
            copy == *self,
    {
        LineLocation {
            line_n: self.line_n,
            file_name: self.file_name.clone(),
            raw_content: self.raw_content.clone(),
        }
    }
}

/// Mathematical model of a `LineLocation`.
pub struct LineLocationView {
    pub line_n: usize,
    pub file_name: Seq<char>,
    pub raw_content: Seq<char>,
}

impl View for LineLocation {
    type V = LineLocationView;

    open spec fn view(&self) -> LineLocationView {
        LineLocationView {
            line_n: self.line_n,
            file_name: self.file_name@,
            raw_content: self.raw_content@,
        }
    }
}

/// What a line of source text holds, before includes and definitions are
/// resolved.
#[derive(Debug, Clone, PartialEq)]
pub enum SourceLineBody {
    Empty,
    Define(String, String),
    Include(String),
    Code(String),
}

/// Mathematical model of a `SourceLineBody`.
pub enum SourceLineBodyView {
    Empty,
    Define(Seq<char>, Seq<char>),
    Include(Seq<char>),
    Code(Seq<char>),
}

impl View for SourceLineBody {
    type V = SourceLineBodyView;

    open spec fn view(&self) -> SourceLineBodyView {
        match self {
            SourceLineBody::Empty => SourceLineBodyView::Empty,
            SourceLineBody::Define(identifier, value) => SourceLineBodyView::Define(
                identifier@,
                value@,
            ),
            SourceLineBody::Include(path) => SourceLineBodyView::Include(path@),
            SourceLineBody::Code(code) => SourceLineBodyView::Code(code@),
        }
    }
}

/// Mathematical model of a `SourceLine`.
pub struct SourceLineView {
    pub body: SourceLineBodyView,
    pub comment: Seq<char>,
    pub location: LineLocationView,
}

impl View for SourceLine {
    type V = SourceLineView;

    open spec fn view(&self) -> SourceLineView {
        SourceLineView { body: self.body@, comment: self.comment@, location: self.location@ }
    }
}

/// The model of each line of a list.
pub open spec fn source_lines_view(lines: Seq<SourceLine>) -> Seq<SourceLineView> {
    Seq::new(lines.len(), |i: int| lines[i]@)
}

/// One line of source text: what it holds, its comment, and where it came
/// from.
#[derive(Debug, Clone, PartialEq)]
pub struct SourceLine {
    pub body: SourceLineBody,
    pub comment: String,
    pub location: LineLocation,
}

/// One line of the program after preprocessing: the statement text, the comment
/// that followed it, and where it came from.
#[derive(Debug, PartialEq)]
pub struct CodeLine {
    pub body: String,
    pub comment: String,
    pub location: LineLocation,
}

impl Clone for CodeLine {
    fn clone(&self) -> (copy: Self)
        ensures
            copy == *self,
    {
        CodeLine {
            body: self.body.clone(),
            comment: self.comment.clone(),
            location: self.location.clone(),
        }
    }
}

/// A piece of a line of code: text that stays as it is, or the name of a
/// definition that its value replaces.
#[derive(Debug, Clone, PartialEq)]
pub enum DefinitionChunk {
    Code(String),
    DefinitionReference(String),
}

/// Mathematical model of a `DefinitionChunk`.
pub enum DefinitionChunkView {
    Code(Seq<char>),
    DefinitionReference(Seq<char>),
}

impl View for DefinitionChunk {
    type V = DefinitionChunkView;

    open spec fn view(&self) -> DefinitionChunkView {
        match self {
            DefinitionChunk::Code(code) => DefinitionChunkView::Code(code@),
            DefinitionChunk::DefinitionReference(identifier) => {
                DefinitionChunkView::DefinitionReference(identifier@)
            },
        }
    }
}

/// The model of each chunk of a list.
pub open spec fn chunks_view(chunks: Seq<DefinitionChunk>) -> Seq<DefinitionChunkView> {
    Seq::new(chunks.len(), |i: int| chunks[i]@)
}

/// A line split at its first semicolon: the code before it and the comment
/// from it on, each without the white space around it. A line without
/// semicolon is all code.
pub open spec fn spec_divide_comment(s: Seq<char>) -> (Seq<char>, Seq<char>) {
    let pos = spec_scan(s, 0, CharClass::NotSemicolon);
    if 0 <= pos < s.len() {
        (spec_trim(s.subrange(0, pos)), spec_trim(s.subrange(pos, s.len() as int)))
    } else {
        (spec_trim(s), Seq::empty())
    }
}

/// Splits a line at its first semicolon into code and comment.
pub fn divide_comment<'a>(input: &'a str) -> (parts: (&'a str, &'a str))
    ensures
        (parts.0@, parts.1@) == spec_divide_comment(input@),
{
    let src = Source::new(input);
    let pos = src.scan(0, CharClass::NotSemicolon);
    if pos < src.len() {
        // Return (code, comment)
        (trim(src.slice(0, pos)), trim(src.slice(pos, src.len())))
    } else {
        proof {
            reveal_strlit("");
            assert(""@ =~= Seq::<char>::empty());
        }
        (trim(input), "")
    }
}

/// Whether every line holds code.
pub open spec fn spec_all_code(lines: Seq<SourceLine>) -> bool {
    forall|i: int| 0 <= i < lines.len() ==> #[trigger] lines[i].body is Code
}

/// The code of a source line that holds code.
pub open spec fn spec_code_of(line: SourceLine) -> String {
    line.body->Code_0
}

/// Converts a Vec of SourceLines (containing only Code) to strings
pub fn source_lines_to_string(input: &[SourceLine]) -> (strings: Vec<String>)
    requires
        spec_all_code(input@),
    ensures
        strings@ == Seq::new(input@.len(), |i: int| spec_code_of(input@[i])),
{
    let mut strings: Vec<String> = Vec::new();
    let mut i: usize = 0;
    while i < input.len()
        invariant
            i <= input.len(),
            spec_all_code(input@),
            strings.len() == i,
            forall|k: int| 0 <= k < i ==> strings[k] == spec_code_of(input@[k]),
        decreases input.len() - i,
    {
        assert(input@[i as int].body is Code);
        match &input[i].body {
            SourceLineBody::Code(content) => {
                strings.push(content.clone());
            },
            _ => {},
        }
        i = i + 1;
    }
    assert(strings@ =~= Seq::new(input@.len(), |i: int| spec_code_of(input@[i])));
    strings
}

/// The line of code that a source line which holds code stands for.
pub open spec fn spec_code_line_of(line: SourceLine) -> CodeLine {
    CodeLine { body: line.body->Code_0, comment: line.comment, location: line.location }
}

/// Converts a Vec of SourceLines (containing only Code) to lines of code
pub fn source_lines_to_code_lines(input: &[SourceLine]) -> (lines: Vec<CodeLine>)
    requires
        spec_all_code(input@),
    ensures
        lines@ == Seq::new(input@.len(), |i: int| spec_code_line_of(input@[i])),
{
    let mut lines: Vec<CodeLine> = Vec::new();
    let mut i: usize = 0;
    while i < input.len()
        invariant
            i <= input.len(),
            spec_all_code(input@),
            lines.len() == i,
            forall|k: int| 0 <= k < i ==> lines[k] == spec_code_line_of(input@[k]),
        decreases input.len() - i,
    {
        assert(input@[i as int].body is Code);
        match &input[i].body {
            SourceLineBody::Code(content) => {
                lines.push(
                    CodeLine {
                        body: content.clone(),
                        comment: input[i].comment.clone(),
                        location: input[i].location.clone(),
                    },
                );
            },
            _ => {},
        }
        i = i + 1;
    }
    assert(lines@ =~= Seq::new(input@.len(), |i: int| spec_code_line_of(input@[i])));
    lines
}

/// The text of the first `count` lines of code: each line is its code, a
/// space, its comment and a line end.
pub open spec fn spec_preprocessor_output(lines: Seq<CodeLine>, count: int) -> Seq<char>
    decreases count,
{
    if count <= 0 || count > lines.len() {
        Seq::empty()
    } else {
        spec_preprocessor_output(lines, count - 1) + lines[count - 1].body@ + " "@ + lines[count
            - 1].comment@ + "\r\n"@
    }
}

/// Converts the preprocessor output to an string to be written to a file
pub fn convert_preprocessor_output(input: &[CodeLine]) -> (string: String)
    ensures
        string@ == spec_preprocessor_output(input@, input@.len() as int),
{
    let mut string = String::new();
    let mut i: usize = 0;
    while i < input.len()
        invariant
            i <= input.len(),
            string@ == spec_preprocessor_output(input@, i as int),
        decreases input.len() - i,
    {
        string.append(input[i].body.as_str());
        string.append(" ");
        string.append(input[i].comment.as_str());
        string.append("\r\n");
        i = i + 1;
    }
    string
}

} // verus!
