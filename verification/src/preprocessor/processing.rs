use vstd::prelude::*;
use vstd::string::*;
use crate::text::chars::{spec_to_lowercase, to_lowercase};
use crate::text::scan::{lemma_scan, spec_scan, CharClass, Source};
use crate::logging::{
    preprocessor_errors_view, warnings_view, PreprocessorError, PreprocessorErrorKind,
    PreprocessorErrorKindView, PreprocessorErrorView, PreprocessorWarning,
    PreprocessorWarningKind, PreprocessorWarningView,
};
use crate::preprocessor::definitions::DefinitionTable;
use crate::preprocessor::parsers::{
    parse_definitions_chunks, parse_source_line, spec_parse_definitions_chunks,
    spec_parse_source_line,
};
use crate::preprocessor::{
    chunks_view, source_lines_view, DefinitionChunk, DefinitionChunkView, LineLocation,
    LineLocationView, SourceLine, SourceLineBody, SourceLineBodyView, SourceLineView,
};

verus! {

/// The line that starts at `pos` and the position of the next one. A line ends
/// at a line feed; a carriage return right before that line feed belongs to
/// the line end. The last line need not end with a line feed.
pub open spec fn spec_line_at(s: Seq<char>, pos: int) -> (Seq<char>, int) {
    let end = spec_scan(s, pos, CharClass::NotLineFeed);
    if end < s.len() {
        if pos < end && s[end - 1] == '\r' {
            (s.subrange(pos, end - 1), end + 1)
        } else {
            (s.subrange(pos, end), end + 1)
        }
    } else {
        (s.subrange(pos, end), end)
    }
}

/// The lines of a text from `pos` on.
pub open spec fn spec_lines(s: Seq<char>, pos: int) -> Seq<Seq<char>>
    decreases s.len() - pos,
{
    if pos < 0 || pos >= s.len() {
        Seq::empty()
    } else {
        let (line, next) = spec_line_at(s, pos);
        if pos < next <= s.len() {
            seq![line] + spec_lines(s, next)
        } else {
            seq![line]
        }
    }
}

/// The model of each text of a list.
pub open spec fn lines_view(lines: Seq<String>) -> Seq<Seq<char>> {
    Seq::new(lines.len(), |i: int| lines[i]@)
}

/// Splits a text into its lines.
pub fn split_lines(input: &str) -> (lines: Vec<String>)
    ensures
        lines_view(lines@) == spec_lines(input@, 0),
{
    let src = Source::new(input);
    let n = src.len();
    let mut lines: Vec<String> = Vec::new();
    let mut pos: usize = 0;
    assert(lines_view(lines@) =~= Seq::<Seq<char>>::empty());
    while pos < n
        invariant
            n == src@.len(),
            src@ == input@,
            pos <= n,
            spec_lines(input@, 0) == lines_view(lines@) + spec_lines(input@, pos as int),
        decreases n - pos,
    {
        let ghost before = lines_view(lines@);
        let end = src.scan(pos, CharClass::NotLineFeed);
        let (line_end, next) = if end < n {
            if pos < end && src.at(end - 1) == '\r' {
                (end - 1, end + 1)
            } else {
                (end, end + 1)
            }
        } else {
            (end, end)
        };
        let line = src.owned(pos, line_end);
        let ghost shown = line@;
        lines.push(line);
        proof {
            lemma_scan(src@, pos as int, CharClass::NotLineFeed);
            assert(lines_view(lines@) =~= before + seq![shown]);
            assert(before + (seq![shown] + spec_lines(input@, next as int)) =~= (before
                + seq![shown]) + spec_lines(input@, next as int));
            if next >= n {
                assert(spec_lines(input@, next as int) =~= Seq::<Seq<char>>::empty());
                assert(seq![shown] + Seq::<Seq<char>>::empty() =~= seq![shown]);
            }
        }
        pos = next;
    }
    assert(lines_view(lines@) + Seq::<Seq<char>>::empty() =~= lines_view(lines@));
    lines
}

/// What the reading of a file has found after some of its lines.
pub struct SourceReading {
    pub lines: Seq<SourceLineView>,
    pub errors: Seq<PreprocessorErrorView>,
    pub warnings: Seq<PreprocessorWarningView>,
}

/// The reading of one line, which is line `index + 1` of its file: a line that
/// cannot be read is a fault and is left out; text after the body that was
/// not understood is warned of.
pub open spec fn spec_read_line(
    reading: SourceReading,
    raw: Seq<char>,
    index: int,
    file_name: Seq<char>,
) -> SourceReading {
    let location = LineLocationView { line_n: (index + 1) as usize, file_name, raw_content: raw };
    match spec_parse_source_line(raw) {
        Err(kind) => SourceReading {
            lines: reading.lines,
            errors: reading.errors.push(PreprocessorErrorView { kind, location: Some(location) }),
            warnings: reading.warnings,
        },
        Ok((body, comment, garbage)) => SourceReading {
            lines: reading.lines.push(SourceLineView { body, comment, location }),
            errors: reading.errors,
            warnings: if garbage.len() > 0 {
                reading.warnings.push(
                    PreprocessorWarningView {
                        line_n: (index + 1) as usize,
                        file_name,
                        line: raw,
                        garbage,
                    },
                )
            } else {
                reading.warnings
            },
        },
    }
}

/// The reading of the first `count` lines of a file.
pub open spec fn spec_read_lines(raw_lines: Seq<Seq<char>>, count: int, file_name: Seq<char>) -> SourceReading
    decreases count,
{
    if count <= 0 || count > raw_lines.len() {
        SourceReading { lines: Seq::empty(), errors: Seq::empty(), warnings: Seq::empty() }
    } else {
        spec_read_line(
            spec_read_lines(raw_lines, count - 1, file_name),
            raw_lines[count - 1],
            count - 1,
            file_name,
        )
    }
}

/// The reading of a file: every line that could be read, every fault, every
/// warning.
pub open spec fn spec_parse_source_string(input: Seq<char>, file_name: Seq<char>) -> SourceReading {
    spec_read_lines(spec_lines(input, 0), spec_lines(input, 0).len() as int, file_name)
}

/// Parses input source code string to a vector of `SourceLine`s
pub fn parse_source_string(input: &str, file_name: &String) -> (reading: (
    Vec<SourceLine>,
    Vec<PreprocessorError>,
    Vec<PreprocessorWarning>,
))
    ensures
        source_lines_view(reading.0@) == spec_parse_source_string(input@, file_name@).lines,
        preprocessor_errors_view(reading.1@) == spec_parse_source_string(
            input@,
            file_name@,
        ).errors,
        warnings_view(reading.2@) == spec_parse_source_string(input@, file_name@).warnings,
{
    let raw_lines = split_lines(input);
    let mut lines: Vec<SourceLine> = Vec::new();
    let mut errors: Vec<PreprocessorError> = Vec::new();
    let mut warnings: Vec<PreprocessorWarning> = Vec::new();
    let mut line_n: usize = 0;
    assert(source_lines_view(lines@) =~= Seq::<SourceLineView>::empty());
    assert(preprocessor_errors_view(errors@) =~= Seq::<PreprocessorErrorView>::empty());
    assert(warnings_view(warnings@) =~= Seq::<PreprocessorWarningView>::empty());
    while line_n < raw_lines.len()
        invariant
            line_n <= raw_lines.len(),
            source_lines_view(lines@) == spec_read_lines(
                lines_view(raw_lines@),
                line_n as int,
                file_name@,
            ).lines,
            preprocessor_errors_view(errors@) == spec_read_lines(
                lines_view(raw_lines@),
                line_n as int,
                file_name@,
            ).errors,
            warnings_view(warnings@) == spec_read_lines(
                lines_view(raw_lines@),
                line_n as int,
                file_name@,
            ).warnings,
        decreases raw_lines.len() - line_n,
    {
        let raw_line = &raw_lines[line_n];
        assert(lines_view(raw_lines@)[line_n as int] == raw_line@);
        let location = LineLocation {
            line_n: line_n + 1,
            file_name: file_name.clone(),
            raw_content: raw_line.clone(),
        };
        // Parse line
        match parse_source_line(raw_line.as_str()) {
            Err(kind) => {
                let ghost shown = preprocessor_errors_view(errors@);
                let error = PreprocessorError { kind, location: Some(location) };
                let ghost error_shown = error@;
                errors.push(error);
                assert(preprocessor_errors_view(errors@) =~= shown.push(error_shown));
            },
            Ok((body, comment, garbage)) => {
                // Check if there is still unparsed stuff
                if garbage.as_str().unicode_len() > 0 {
                    let ghost shown = warnings_view(warnings@);
                    let warning = PreprocessorWarning {
                        line_n: line_n + 1,
                        file_name: file_name.clone(),
                        line: raw_line.clone(),
                        kind: PreprocessorWarningKind::GarbageAtEndOfLine(garbage),
                    };
                    let ghost warning_shown = warning@;
                    warnings.push(warning);
                    assert(warnings_view(warnings@) =~= shown.push(warning_shown));
                }
                // Add line to list
                let ghost shown = source_lines_view(lines@);
                let line = SourceLine { body, comment, location };
                let ghost line_shown = line@;
                lines.push(line);
                assert(source_lines_view(lines@) =~= shown.push(line_shown));
            },
        }
        line_n = line_n + 1;
    }
    (lines, errors, warnings)
}

/// The text that the chunks from `from` on stand for with a table of
/// definitions: code stands for itself, a name for the value that the table
/// holds under its lower-case form. The first name without a value is a
/// fault.
pub open spec fn spec_resolve_chunks(
    chunks: Seq<DefinitionChunkView>,
    from: int,
    table: Map<Seq<char>, Seq<char>>,
) -> Result<Seq<char>, PreprocessorErrorKindView>
    decreases chunks.len() - from,
{
    if from < 0 || from >= chunks.len() {
        Ok(Seq::empty())
    } else {
        match chunks[from] {
            DefinitionChunkView::Code(code) => match spec_resolve_chunks(chunks, from + 1, table) {
                Ok(rest) => Ok(code + rest),
                Err(e) => Err(e),
            },
            DefinitionChunkView::DefinitionReference(identifier) => if table.dom().contains(
                spec_to_lowercase(identifier),
            ) {
                match spec_resolve_chunks(chunks, from + 1, table) {
                    Ok(rest) => Ok(table[spec_to_lowercase(identifier)] + rest),
                    Err(e) => Err(e),
                }
            } else {
                Err(PreprocessorErrorKindView::DefineUndefined(identifier))
            },
        }
    }
}

/// A line of code with the names of definitions replaced by their values.
/// What follows the last piece of the line that could be read is left out.
pub open spec fn spec_resolve_defines(code: Seq<char>, table: Map<Seq<char>, Seq<char>>) -> Result<
    Seq<char>,
    PreprocessorErrorKindView,
> {
    spec_resolve_chunks(spec_parse_definitions_chunks(code, 0).0, 0, table)
}

/// The model of a text or a fault.
pub open spec fn text_result_view(r: Result<String, PreprocessorErrorKind>) -> Result<
    Seq<char>,
    PreprocessorErrorKindView,
> {
    match r {
        Ok(text) => Ok(text@),
        Err(e) => Err(e@),
    }
}

/// Replaces the names of definitions in a line of code by their values.
pub fn resolve_defines(code: &str, def_table: &DefinitionTable) -> (resolved: Result<
    String,
    PreprocessorErrorKind,
>)
    ensures
        text_result_view(resolved) == spec_resolve_defines(code@, def_table@),
{
    let (_, chunks) = parse_definitions_chunks(code);
    let ghost shown = chunks_view(chunks@);
    let mut result = String::new();
    let mut i: usize = 0;
    while i < chunks.len()
        invariant
            i <= chunks.len(),
            shown == chunks_view(chunks@),
            shown == spec_parse_definitions_chunks(code@, 0).0,
            spec_resolve_chunks(shown, 0, def_table@) == (match spec_resolve_chunks(
                shown,
                i as int,
                def_table@,
            ) {
                Ok(rest) => Ok::<Seq<char>, PreprocessorErrorKindView>(result@ + rest),
                Err(e) => Err(e),
            }),
        decreases chunks.len() - i,
    {
        let ghost before = result@;
        let ghost rest = spec_resolve_chunks(shown, i + 1, def_table@);
        assert(shown[i as int] == chunks[i as int]@);
        match &chunks[i] {
            DefinitionChunk::Code(code) => {
                proof {
                    if rest is Ok {
                        assert(before + (code@ + rest->Ok_0) =~= (before + code@) + rest->Ok_0);
                    }
                }
                result.append(code.as_str());
            },
            DefinitionChunk::DefinitionReference(identifier) => {
                // Look for definition in table
                let key = to_lowercase(identifier.as_str());
                match def_table.get(&key) {
                    Some(value) => {
                        proof {
                            if rest is Ok {
                                assert(before + (value@ + rest->Ok_0) =~= (before + value@)
                                    + rest->Ok_0);
                            }
                        }
                        result.append(value.as_str());
                    },
                    None => {
                        return Err(PreprocessorErrorKind::DefineUndefined(identifier.clone()));
                    },
                }
            },
        }
        i = i + 1;
    }
    assert(result@ + Seq::<char>::empty() =~= result@);
    Ok(result)
}

/// The table of definitions after the first `count` lines, and the faults
/// found on the way. A definition enters its value under the lower-case form
/// of its name; a name that the table holds as it is written is not entered
/// again but reported.
pub open spec fn spec_definition_table(lines: Seq<SourceLineView>, count: int) -> (
    Map<Seq<char>, Seq<char>>,
    Seq<PreprocessorErrorView>,
)
    decreases count,
{
    if count <= 0 || count > lines.len() {
        (Map::empty(), Seq::empty())
    } else {
        let (table, errors) = spec_definition_table(lines, count - 1);
        match lines[count - 1].body {
            SourceLineBodyView::Define(identifier, value) => if table.dom().contains(identifier) {
                (
                    table,
                    errors.push(
                        PreprocessorErrorView {
                            kind: PreprocessorErrorKindView::DefineMultipleDefinition(identifier),
                            location: Some(lines[count - 1].location),
                        },
                    ),
                )
            } else {
                (table.insert(spec_to_lowercase(identifier), value), errors)
            },
            _ => (table, errors),
        }
    }
}

/// The lines of code among the first `count` lines, with their definitions
/// resolved, and the faults of those that could not be resolved. Lines that
/// hold no code are left out.
pub open spec fn spec_resolved_lines(
    lines: Seq<SourceLineView>,
    table: Map<Seq<char>, Seq<char>>,
    count: int,
) -> (Seq<SourceLineView>, Seq<PreprocessorErrorView>)
    decreases count,
{
    if count <= 0 || count > lines.len() {
        (Seq::empty(), Seq::empty())
    } else {
        let (resolved, errors) = spec_resolved_lines(lines, table, count - 1);
        let line = lines[count - 1];
        match line.body {
            SourceLineBodyView::Code(code) => match spec_resolve_defines(code, table) {
                Ok(text) => (
                    resolved.push(
                        SourceLineView {
                            body: SourceLineBodyView::Code(text),
                            comment: line.comment,
                            location: line.location,
                        },
                    ),
                    errors,
                ),
                Err(kind) => (
                    resolved,
                    errors.push(PreprocessorErrorView { kind, location: Some(line.location) }),
                ),
            },
            _ => (resolved, errors),
        }
    }
}

/// The lines of code of a program with every definition resolved, and every
/// fault: those of the definitions before those of the lines of code.
pub open spec fn spec_process_defines(lines: Seq<SourceLineView>) -> (
    Seq<SourceLineView>,
    Seq<PreprocessorErrorView>,
) {
    let (table, table_errors) = spec_definition_table(lines, lines.len() as int);
    let (resolved, errors) = spec_resolved_lines(lines, table, lines.len() as int);
    (resolved, table_errors + errors)
}

/// Collects the definitions of a program and resolves them in its lines of
/// code.
pub fn process_defines(input: &[SourceLine]) -> (outcome: (Vec<SourceLine>, Vec<PreprocessorError>))
    ensures
        source_lines_view(outcome.0@) == spec_process_defines(source_lines_view(input@)).0,
        preprocessor_errors_view(outcome.1@) == spec_process_defines(
            source_lines_view(input@),
        ).1,
        forall|i: int| 0 <= i < outcome.0@.len() ==> #[trigger] outcome.0@[i].body is Code,
{
    let ghost shown = source_lines_view(input@);
    let mut res: Vec<SourceLine> = Vec::new();
    let mut errors: Vec<PreprocessorError> = Vec::new();
    // Construct definition table
    let mut definition_table = DefinitionTable::new();
    let mut i: usize = 0;
    assert(preprocessor_errors_view(errors@) =~= Seq::<PreprocessorErrorView>::empty());
    while i < input.len()
        invariant
            i <= input.len(),
            shown == source_lines_view(input@),
            definition_table@ == spec_definition_table(shown, i as int).0,
            preprocessor_errors_view(errors@) == spec_definition_table(shown, i as int).1,
        decreases input.len() - i,
    {
        let line = &input[i];
        assert(shown[i as int] == line@);
        if let SourceLineBody::Define(identifier, value) = &line.body {
            match definition_table.get(identifier) {
                // Check if this identifier was already defined
                Some(_) => {
                    let ghost before = preprocessor_errors_view(errors@);
                    let error = PreprocessorError {
                        kind: PreprocessorErrorKind::DefineMultipleDefinition(identifier.clone()),
                        location: Some(line.location.clone()),
                    };
                    let ghost error_shown = error@;
                    errors.push(error);
                    assert(preprocessor_errors_view(errors@) =~= before.push(error_shown));
                },
                None => {
                    definition_table.insert(to_lowercase(identifier.as_str()), value.clone());
                },
            }
        }
        i = i + 1;
    }
    // Resolve definitions
    let ghost table = definition_table@;
    let ghost table_errors = preprocessor_errors_view(errors@);
    let mut k: usize = 0;
    assert(source_lines_view(res@) =~= Seq::<SourceLineView>::empty());
    assert(preprocessor_errors_view(errors@) =~= table_errors + Seq::<
        PreprocessorErrorView,
    >::empty());
    while k < input.len()
        invariant
            k <= input.len(),
            shown == source_lines_view(input@),
            definition_table@ == table,
            source_lines_view(res@) == spec_resolved_lines(shown, table, k as int).0,
            preprocessor_errors_view(errors@) == table_errors + spec_resolved_lines(
                shown,
                table,
                k as int,
            ).1,
            forall|j: int| 0 <= j < res@.len() ==> #[trigger] res@[j].body is Code,
        decreases input.len() - k,
    {
        let line = &input[k];
        assert(shown[k as int] == line@);
        if let SourceLineBody::Code(code) = &line.body {
            match resolve_defines(code.as_str(), &definition_table) {
                Ok(code) => {
                    let ghost before = source_lines_view(res@);
                    let resolved = SourceLine {
                        body: SourceLineBody::Code(code),
                        comment: line.comment.clone(),
                        location: line.location.clone(),
                    };
                    let ghost resolved_shown = resolved@;
                    res.push(resolved);
                    assert(source_lines_view(res@) =~= before.push(resolved_shown));
                },
                Err(kind) => {
                    let ghost before = preprocessor_errors_view(errors@);
                    let ghost second = spec_resolved_lines(shown, table, k as int).1;
                    let error = PreprocessorError { kind, location: Some(line.location.clone()) };
                    let ghost error_shown = error@;
                    errors.push(error);
                    assert(preprocessor_errors_view(errors@) =~= before.push(error_shown));
                    assert(before.push(error_shown) =~= table_errors + second.push(error_shown));
                },
            }
        }
        k = k + 1;
    }
    (res, errors)
}

} // verus!
