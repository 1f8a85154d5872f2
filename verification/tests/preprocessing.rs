use level6::logging::{
    PreprocessorError, PreprocessorErrorKind, PreprocessorWarning, PreprocessorWarningKind,
};
use level6::preprocessor::definitions::DefinitionTable;
use level6::preprocessor::parsers::{parse_definitions_chunks, parse_source_line};
use level6::preprocessor::processing::{
    parse_source_string, process_defines, resolve_defines, split_lines,
};
use level6::preprocessor::{
    convert_preprocessor_output, source_lines_to_code_lines, source_lines_to_string, CodeLine,
    DefinitionChunk, LineLocation, SourceLine, SourceLineBody,
};

fn location(line_n: usize, text: &str) -> LineLocation {
    LineLocation {
        line_n,
        file_name: "main.l6s".to_owned(),
        raw_content: text.to_owned(),
    }
}

#[test]
fn split_lines_follows_line_feeds() {
    assert_eq!(split_lines(""), Vec::<String>::new());
    assert_eq!(split_lines("ab"), vec!["ab"]);
    assert_eq!(split_lines("ab\n"), vec!["ab"]);
    assert_eq!(split_lines("ab\n\ncd"), vec!["ab", "", "cd"]);
    assert_eq!(split_lines("\n"), vec![""]);
    assert_eq!(split_lines("ab\r\ncd\r\n"), vec!["ab", "cd"]);
    assert_eq!(split_lines("ab\rcd\r"), vec!["ab\rcd\r"]);
    assert_eq!(split_lines("ab\r\r\n"), vec!["ab\r"]);
    assert_eq!(split_lines("\r\n\r\n"), vec!["", ""]);
    for text in ["", "a\nb", "a\r\nb\n\n", "x\r", "\n\n", "one\ntwo\r\nthree"] {
        let expected: Vec<String> = text.lines().map(|l| l.to_owned()).collect();
        assert_eq!(split_lines(text), expected);
    }
}

#[test]
fn parse_source_line_kinds() {
    assert_eq!(
        parse_source_line("   lda  $R1 ; load"),
        Ok((
            SourceLineBody::Code("lda $R1".to_owned()),
            "; load".to_owned(),
            "".to_owned()
        ))
    );
    assert_eq!(
        parse_source_line("; only a comment"),
        Ok((
            SourceLineBody::Empty,
            "; only a comment".to_owned(),
            "".to_owned()
        ))
    );
    assert_eq!(
        parse_source_line(""),
        Ok((SourceLineBody::Empty, "".to_owned(), "".to_owned()))
    );
    assert_eq!(
        parse_source_line("%include \"a b.l6s\" trailing"),
        Ok((
            SourceLineBody::Include("a b.l6s".to_owned()),
            "".to_owned(),
            "trailing".to_owned()
        ))
    );
    assert_eq!(
        parse_source_line("%Define Size = 0x10 ; words"),
        Ok((
            SourceLineBody::Define("Size".to_owned(), "0x10".to_owned()),
            "; words".to_owned(),
            "".to_owned()
        ))
    );
    assert_eq!(
        parse_source_line("%define"),
        Err(PreprocessorErrorKind::DefineMissingIdentifier)
    );
    assert_eq!(
        parse_source_line("%define x"),
        Err(PreprocessorErrorKind::DefineMissingValue("x".to_owned()))
    );
    assert_eq!(
        parse_source_line("%define x ="),
        Err(PreprocessorErrorKind::DefineMissingValue("x".to_owned()))
    );
    assert_eq!(
        parse_source_line("%include"),
        Err(PreprocessorErrorKind::IncludeMissingFilePath)
    );
    assert_eq!(
        parse_source_line(".DB \"a   b\",   1"),
        Ok((
            SourceLineBody::Code(".DB \"a   b\", 1".to_owned()),
            "".to_owned(),
            "".to_owned()
        ))
    );
}

#[test]
fn definition_chunks() {
    let (rest, chunks) = parse_definitions_chunks("LDV %reg, =%Value \"%not\" x");
    assert_eq!(rest, "");
    assert_eq!(
        chunks,
        vec![
            DefinitionChunk::Code("LDV ".to_owned()),
            DefinitionChunk::DefinitionReference("reg".to_owned()),
            DefinitionChunk::Code(", =".to_owned()),
            DefinitionChunk::DefinitionReference("Value".to_owned()),
            DefinitionChunk::Code(" ".to_owned()),
            DefinitionChunk::Code("\"%not\"".to_owned()),
            DefinitionChunk::Code(" x".to_owned()),
        ]
    );
    let (rest, chunks) = parse_definitions_chunks("a % b");
    assert_eq!(rest, "% b");
    assert_eq!(chunks, vec![DefinitionChunk::Code("a ".to_owned())]);
    let (rest, chunks) = parse_definitions_chunks("");
    assert_eq!(rest, "");
    assert_eq!(chunks, vec![]);
}

#[test]
fn definition_table_keeps_the_last_value() {
    let mut table = DefinitionTable::new();
    assert_eq!(table.get(&"a".to_owned()), None);
    table.insert("a".to_owned(), "1".to_owned());
    table.insert("b".to_owned(), "2".to_owned());
    assert_eq!(table.get(&"a".to_owned()), Some(&"1".to_owned()));
    table.insert("a".to_owned(), "3".to_owned());
    assert_eq!(table.get(&"a".to_owned()), Some(&"3".to_owned()));
    assert_eq!(table.get(&"b".to_owned()), Some(&"2".to_owned()));
    assert_eq!(table.get(&"A".to_owned()), None);
}

#[test]
fn resolve_defines_replaces_names() {
    let mut table = DefinitionTable::new();
    table.insert("reg".to_owned(), "$R1".to_owned());
    table.insert("value".to_owned(), "0x10".to_owned());
    assert_eq!(
        resolve_defines("LDV %REG, =%Value", &table),
        Ok("LDV $R1, =0x10".to_owned())
    );
    assert_eq!(
        resolve_defines("LDV \"%reg\"", &table),
        Ok("LDV \"%reg\"".to_owned())
    );
    assert_eq!(
        resolve_defines("LDV %reg, %Other, %more", &table),
        Err(PreprocessorErrorKind::DefineUndefined("Other".to_owned()))
    );
    assert_eq!(resolve_defines("HLT", &table), Ok("HLT".to_owned()));
    assert_eq!(resolve_defines("", &table), Ok("".to_owned()));
}

fn source(lines: &[&str]) -> Vec<SourceLine> {
    let text = lines.join("\n");
    let (parsed, errors, _) = parse_source_string(&text, &"main.l6s".to_owned());
    assert_eq!(errors, vec![]);
    parsed
}

#[test]
fn parse_source_string_numbers_the_lines() {
    let (lines, errors, warnings) = parse_source_string(
        "start: HLT ; stop\r\n%define\n\n%include other extra\n",
        &"main.l6s".to_owned(),
    );
    assert_eq!(
        lines,
        vec![
            SourceLine {
                body: SourceLineBody::Code("start: HLT".to_owned()),
                comment: "; stop".to_owned(),
                location: location(1, "start: HLT ; stop"),
            },
            SourceLine {
                body: SourceLineBody::Empty,
                comment: "".to_owned(),
                location: location(3, ""),
            },
            SourceLine {
                body: SourceLineBody::Include("other".to_owned()),
                comment: "".to_owned(),
                location: location(4, "%include other extra"),
            },
        ]
    );
    assert_eq!(
        errors,
        vec![PreprocessorError {
            kind: PreprocessorErrorKind::DefineMissingIdentifier,
            location: Some(location(2, "%define")),
        }]
    );
    assert_eq!(
        warnings,
        vec![PreprocessorWarning {
            line_n: 4,
            file_name: "main.l6s".to_owned(),
            line: "%include other extra".to_owned(),
            kind: PreprocessorWarningKind::GarbageAtEndOfLine("extra".to_owned()),
        }]
    );
    assert_eq!(
        warnings[0].message(),
        "unexpected garbage at end of line: \"extra\""
    );
}

#[test]
fn process_defines_resolves_and_reports() {
    let lines = source(&[
        "%define size = 4",
        "%define Reg = $R2",
        "LDV %reg, =%SIZE",
        "",
        "%define size = 5",
        "ADV %reg, =%missing",
        "HLT ; done",
    ]);
    let (resolved, errors) = process_defines(&lines);
    let bodies: Vec<SourceLineBody> = resolved.iter().map(|l| l.body.clone()).collect();
    assert_eq!(
        bodies,
        vec![
            SourceLineBody::Code("LDV $R2, =4".to_owned()),
            SourceLineBody::Code("HLT".to_owned()),
        ]
    );
    assert_eq!(resolved[1].comment, "; done");
    assert_eq!(resolved[1].location, location(7, "HLT ; done"));
    assert_eq!(
        errors,
        vec![
            PreprocessorError {
                kind: PreprocessorErrorKind::DefineMultipleDefinition("size".to_owned()),
                location: Some(location(5, "%define size = 5")),
            },
            PreprocessorError {
                kind: PreprocessorErrorKind::DefineUndefined("missing".to_owned()),
                location: Some(location(6, "ADV %reg, =%missing")),
            },
        ]
    );
    let code_lines = source_lines_to_code_lines(&resolved);
    assert_eq!(
        code_lines,
        vec![
            CodeLine {
                body: "LDV $R2, =4".to_owned(),
                comment: "".to_owned(),
                location: location(3, "LDV %reg, =%SIZE"),
            },
            CodeLine {
                body: "HLT".to_owned(),
                comment: "; done".to_owned(),
                location: location(7, "HLT ; done"),
            },
        ]
    );
    assert_eq!(source_lines_to_string(&resolved), vec!["LDV $R2, =4", "HLT"]);
    assert_eq!(
        convert_preprocessor_output(&code_lines),
        "LDV $R2, =4 \r\nHLT ; done\r\n"
    );
}

#[test]
fn a_name_defined_in_upper_case_is_entered_again() {
    // the table is asked for the name as written and filled under its lower case
    let lines = source(&["%define Size = 4", "%define Size = 5", "LDV $R1, =%size"]);
    let (resolved, errors) = process_defines(&lines);
    assert_eq!(errors, vec![]);
    assert_eq!(
        resolved[0].body,
        SourceLineBody::Code("LDV $R1, =5".to_owned())
    );
}

#[test]
fn preprocessor_error_messages() {
    let message = |kind: PreprocessorErrorKind| {
        PreprocessorError {
            kind,
            location: None,
        }
        .message()
    };
    assert_eq!(
        message(PreprocessorErrorKind::IncludeMissingFilePath),
        "missing file path for %include"
    );
    assert_eq!(
        message(PreprocessorErrorKind::DefineMissingIdentifier),
        "missing identifier for %define"
    );
    assert_eq!(
        message(PreprocessorErrorKind::DefineMissingValue("x".to_owned())),
        "missing value for %define \"x\""
    );
    assert_eq!(
        message(PreprocessorErrorKind::CannotOpenSourceFile("a.l6s".to_owned())),
        "unable to find source file \"a.l6s\": "
    );
    assert_eq!(
        message(PreprocessorErrorKind::DobleInclusion("a.l6s".to_owned())),
        "double %include for file \"a.l6s\""
    );
    assert_eq!(
        message(PreprocessorErrorKind::DefineUndefined("x".to_owned())),
        "no %define for identifier \"x\""
    );
    assert_eq!(
        message(PreprocessorErrorKind::DefineMultipleDefinition("x".to_owned())),
        "multiple %define for identifier \"x\""
    );
    assert_eq!(message(PreprocessorErrorKind::Unknown), "unkown error");
}
