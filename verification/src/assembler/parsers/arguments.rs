use vstd::prelude::*;
use vstd::string::*;
use crate::assembler::errors::{
    error_view, value_result_view, AssemblerErrorKind, AssemblerErrorKindView,
};
use crate::assembler::parsers::numbers::{
    bin_u64_at, dec_u64_at, hex_u64_at, immediate_value_at, immediate_value_contents_at,
    spec_parse_bin_u64, spec_parse_dec_u64, spec_parse_hex_u64,
    spec_parse_immediate_value, spec_parse_immediate_value_contents, spec_rest, spec_with_rest,
};
use crate::assembler::parsers::operands::{
    address_syllable_at, branch_location_at, sigil_base_register_at, sigil_data_register_at,
    sigil_mode_control_register_at, spec_parse_address_syllable, spec_parse_branch_location,
    spec_parse_sigil_base_register, spec_parse_sigil_data_register,
    spec_parse_sigil_mode_control_register,
};
use crate::assembler::statements::{
    AddressSyllable, AddressSyllableView, BaseRegister, BranchLocation, BranchLocationView,
    DataRegister, ModeControlRegister,
};
use crate::text::chars::str_to_chars;
use crate::text::scan::{parsed_as, spec_is_at, Source};
use crate::text::strings::{
    escaped_contents_at, escaped_string_at, spec_parse_escaped_block,
    spec_parse_escaped_string, spec_parse_escaped_string_contents, spec_unescape,
};

verus! {

/// The code of each character of a text.
pub open spec fn spec_char_codes(text: Seq<char>) -> Seq<i128> {
    Seq::new(text.len(), |i: int| text[i] as i128)
}

/// A string at `pos`, as the codes of its characters.
pub open spec fn spec_parse_string_to_i128s(s: Seq<char>, pos: int) -> Option<(Seq<i128>, int)> {
    match spec_parse_escaped_string(s, pos) {
        Some((text, end)) => Some((spec_char_codes(text), end)),
        None => None,
    }
}

/// One operand of a data definition: a number, or a string, which stands for
/// the codes of its characters.
pub open spec fn spec_parse_definition_chunk(s: Seq<char>, pos: int) -> Option<(Seq<i128>, int)> {
    match spec_parse_immediate_value_contents(s, pos) {
        Some((value, end)) => Some((seq![value], end)),
        None => spec_parse_string_to_i128s(s, pos),
    }
}

/// A shift distance: `=` and an unsigned number in any of the three notations.
pub open spec fn spec_parse_shift_distance(s: Seq<char>, pos: int) -> Option<(u64, int)> {
    if spec_is_at(s, pos, '=') {
        match spec_parse_hex_u64(s, pos + 1) {
            Some(found) => Some(found),
            None => match spec_parse_bin_u64(s, pos + 1) {
                Some(found) => Some(found),
                None => spec_parse_dec_u64(s, pos + 1),
            },
        }
    } else {
        None
    }
}

/// The code of a character.
pub fn char_code(c: char) -> (code: i128)
    ensures
        code == c as i128,
{
    c as u32 as i128
}

/// The code of each character of a text.
pub fn char_codes(text: &str) -> (codes: Vec<i128>)
    ensures
        codes@ == spec_char_codes(text@),
{
    let chars = str_to_chars(text);
    let mut codes: Vec<i128> = Vec::new();
    let mut i: usize = 0;
    while i < chars.len()
        invariant
            i <= chars.len(),
            chars@ == text@,
            codes.len() == i,
            forall|k: int| 0 <= k < i ==> codes[k] == chars[k] as i128,
        decreases chars.len() - i,
    {
        codes.push(char_code(chars[i]));
        i = i + 1;
    }
    assert(codes@ =~= spec_char_codes(text@));
    codes
}

/// Reads one operand of a data definition at `pos`.
pub fn definition_chunk_at(src: &Source, pos: usize) -> (parsed: Option<(Vec<i128>, usize)>)
    requires
        pos <= src@.len(),
    ensures
        match spec_parse_definition_chunk(src@, pos as int) {
            Some((values, end)) => parsed is Some && parsed->Some_0.0@ == values
                && parsed->Some_0.1 == end && pos < end <= src@.len(),
            None => parsed is None,
        },
{
    match immediate_value_contents_at(src, pos) {
        Some((value, end)) => {
            let values = vec![value];
            assert(values@ =~= seq![value]);
            Some((values, end))
        },
        None => match escaped_string_at(src, pos) {
            Some((text, end)) => Some((char_codes(text.as_str()), end)),
            None => None,
        },
    }
}

/// Reads a shift distance at `pos`.
pub fn shift_distance_at(src: &Source, pos: usize) -> (parsed: Option<(u64, usize)>)
    requires
        pos <= src@.len(),
    ensures
        parsed_as(parsed, spec_parse_shift_distance(src@, pos as int), pos, src@.len()),
{
    if src.is_at(pos, '=') {
        match hex_u64_at(src, pos + 1) {
            Some(found) => Some(found),
            None => match bin_u64_at(src, pos + 1) {
                Some(found) => Some(found),
                None => dec_u64_at(src, pos + 1),
            },
        }
    } else {
        None
    }
}

/// What an operand stands for when a parser is run on the whole of it: the
/// parser's value if it used every character; `invalid` if the parser failed;
/// the characters that it left, reported as unexpected, otherwise.
pub open spec fn spec_whole_argument<T>(
    s: Seq<char>,
    parsed: Option<(T, int)>,
    invalid: AssemblerErrorKindView,
) -> Result<T, AssemblerErrorKindView> {
    match parsed {
        None => Err(invalid),
        Some((value, end)) => if end < s.len() {
            Err(AssemblerErrorKindView::UnexpectedCharactersAtEndOfArgument(spec_rest(s, end)))
        } else {
            Ok(value)
        },
    }
}

/// An address operand: a hexadecimal number.
pub open spec fn spec_parse_hex_address_arg(s: Seq<char>) -> Result<u64, AssemblerErrorKindView> {
    spec_whole_argument(s, spec_parse_hex_u64(s, 0), AssemblerErrorKindView::InvalidAddress(s))
}

/// A branch location operand.
pub open spec fn spec_parse_branch_location_arg(s: Seq<char>) -> Result<
    BranchLocationView,
    AssemblerErrorKindView,
> {
    spec_whole_argument(
        s,
        spec_parse_branch_location(s, 0),
        AssemblerErrorKindView::InvalidBranchLocation(s),
    )
}

/// A data register operand, such as `$R1`.
pub open spec fn spec_parse_data_register_arg(s: Seq<char>) -> Result<
    DataRegister,
    AssemblerErrorKindView,
> {
    spec_whole_argument(
        s,
        spec_parse_sigil_data_register(s, 0),
        AssemblerErrorKindView::InvalidDataRegister(s),
    )
}

/// A base register operand, such as `$B1`.
pub open spec fn spec_parse_base_register_arg(s: Seq<char>) -> Result<
    BaseRegister,
    AssemblerErrorKindView,
> {
    spec_whole_argument(
        s,
        spec_parse_sigil_base_register(s, 0),
        AssemblerErrorKindView::InvalidBaseRegister(s),
    )
}

/// A mode-control register operand, such as `$M1`.
pub open spec fn spec_parse_mode_control_register_arg(s: Seq<char>) -> Result<
    ModeControlRegister,
    AssemblerErrorKindView,
> {
    spec_whole_argument(
        s,
        spec_parse_sigil_mode_control_register(s, 0),
        AssemblerErrorKindView::InvalidModeControlRegister(s),
    )
}

/// An immediate value operand, such as `=10`.
pub open spec fn spec_parse_immediate_value_arg(s: Seq<char>) -> Result<
    i128,
    AssemblerErrorKindView,
> {
    spec_whole_argument(
        s,
        spec_parse_immediate_value(s, 0),
        AssemblerErrorKindView::InvalidImmediateValue(s),
    )
}

/// A mask operand: a number without sigil.
pub open spec fn spec_parse_maskword_arg(s: Seq<char>) -> Result<i128, AssemblerErrorKindView> {
    spec_whole_argument(
        s,
        spec_parse_immediate_value_contents(s, 0),
        AssemblerErrorKindView::InvalidMaskWord(s),
    )
}

/// One operand of a data definition.
pub open spec fn spec_parse_definition_chunk_arg(s: Seq<char>) -> Result<
    Seq<i128>,
    AssemblerErrorKindView,
> {
    spec_whole_argument(
        s,
        spec_parse_definition_chunk(s, 0),
        AssemblerErrorKindView::InvalidDataDefinitionChunk(s),
    )
}

/// An address syllable operand.
pub open spec fn spec_parse_address_syllable_arg(s: Seq<char>) -> Result<
    AddressSyllableView,
    AssemblerErrorKindView,
> {
    spec_whole_argument(
        s,
        spec_parse_address_syllable(s, 0),
        AssemblerErrorKindView::InvalidAddressSyllable(s),
    )
}

/// A shift distance operand, such as `=3`.
pub open spec fn spec_parse_shift_distance_arg(s: Seq<char>) -> Result<
    u64,
    AssemblerErrorKindView,
> {
    spec_whole_argument(
        s,
        spec_parse_shift_distance(s, 0),
        AssemblerErrorKindView::InvalidImmediateValue(s),
    )
}

/// Reports the characters that a parser left, if it left any.
fn finish_argument(src: &Source, end: usize) -> (outcome: Result<(), AssemblerErrorKind>)
    requires
        end <= src@.len(),
    ensures
        end < src@.len() ==> outcome is Err && outcome->Err_0@
            == AssemblerErrorKindView::UnexpectedCharactersAtEndOfArgument(
            spec_rest(src@, end as int),
        ),
        end == src@.len() ==> outcome is Ok,
{
    if end < src.len() {
        Err(AssemblerErrorKind::UnexpectedCharactersAtEndOfArgument(src.owned(end, src.len())))
    } else {
        Ok(())
    }
}

/// Reads an operand that is a hexadecimal address.
pub fn parse_hex_address_arg(input: &str) -> (address: Result<u64, AssemblerErrorKind>)
    ensures
        error_view(address) == spec_parse_hex_address_arg(input@),
{
    let src = Source::new(input);
    match hex_u64_at(&src, 0) {
        None => Err(AssemblerErrorKind::InvalidAddress(String::from_str(input))),
        Some((value, end)) => match finish_argument(&src, end) {
            Err(e) => Err(e),
            Ok(()) => Ok(value),
        },
    }
}

/// Reads an operand that is a branch location.
pub fn parse_branch_location_arg(input: &str) -> (branchloc: Result<
    BranchLocation,
    AssemblerErrorKind,
>)
    ensures
        value_result_view(branchloc) == spec_parse_branch_location_arg(input@),
{
    let src = Source::new(input);
    match branch_location_at(&src, 0) {
        None => Err(AssemblerErrorKind::InvalidBranchLocation(String::from_str(input))),
        Some((value, end)) => match finish_argument(&src, end) {
            Err(e) => Err(e),
            Ok(()) => Ok(value),
        },
    }
}

/// Reads an operand that is a data register.
pub fn parse_data_register_arg(input: &str) -> (reg: Result<DataRegister, AssemblerErrorKind>)
    ensures
        error_view(reg) == spec_parse_data_register_arg(input@),
{
    let src = Source::new(input);
    match sigil_data_register_at(&src, 0) {
        None => Err(AssemblerErrorKind::InvalidDataRegister(String::from_str(input))),
        Some((value, end)) => match finish_argument(&src, end) {
            Err(e) => Err(e),
            Ok(()) => Ok(value),
        },
    }
}

/// Reads an operand that is a base register.
pub fn parse_base_register_arg(input: &str) -> (reg: Result<BaseRegister, AssemblerErrorKind>)
    ensures
        error_view(reg) == spec_parse_base_register_arg(input@),
{
    let src = Source::new(input);
    match sigil_base_register_at(&src, 0) {
        None => Err(AssemblerErrorKind::InvalidBaseRegister(String::from_str(input))),
        Some((value, end)) => match finish_argument(&src, end) {
            Err(e) => Err(e),
            Ok(()) => Ok(value),
        },
    }
}

/// Reads an operand that is a mode-control register.
pub fn parse_mode_control_register_arg(input: &str) -> (reg: Result<
    ModeControlRegister,
    AssemblerErrorKind,
>)
    ensures
        error_view(reg) == spec_parse_mode_control_register_arg(input@),
{
    let src = Source::new(input);
    match sigil_mode_control_register_at(&src, 0) {
        None => Err(AssemblerErrorKind::InvalidModeControlRegister(String::from_str(input))),
        Some((value, end)) => match finish_argument(&src, end) {
            Err(e) => Err(e),
            Ok(()) => Ok(value),
        },
    }
}

/// Reads an operand that is an immediate value.
pub fn parse_immediate_value_arg(input: &str) -> (value: Result<i128, AssemblerErrorKind>)
    ensures
        error_view(value) == spec_parse_immediate_value_arg(input@),
{
    let src = Source::new(input);
    match immediate_value_at(&src, 0) {
        None => Err(AssemblerErrorKind::InvalidImmediateValue(String::from_str(input))),
        Some((value, end)) => match finish_argument(&src, end) {
            Err(e) => Err(e),
            Ok(()) => Ok(value),
        },
    }
}

/// Reads an operand that is a mask.
pub fn parse_maskword_arg(input: &str) -> (mask: Result<i128, AssemblerErrorKind>)
    ensures
        error_view(mask) == spec_parse_maskword_arg(input@),
{
    let src = Source::new(input);
    match immediate_value_contents_at(&src, 0) {
        None => Err(AssemblerErrorKind::InvalidMaskWord(String::from_str(input))),
        Some((value, end)) => match finish_argument(&src, end) {
            Err(e) => Err(e),
            Ok(()) => Ok(value),
        },
    }
}

/// Chunk of a Data Definition statement
pub fn parse_definition_chunk_arg(input: &str) -> (values: Result<Vec<i128>, AssemblerErrorKind>)
    ensures
        value_result_view(values) == spec_parse_definition_chunk_arg(input@),
{
    let src = Source::new(input);
    match definition_chunk_at(&src, 0) {
        None => Err(AssemblerErrorKind::InvalidDataDefinitionChunk(String::from_str(input))),
        Some((value, end)) => match finish_argument(&src, end) {
            Err(e) => Err(e),
            Ok(()) => Ok(value),
        },
    }
}

/// Address syllable
pub fn parse_address_syllable_arg(input: &str) -> (addr_syl: Result<
    AddressSyllable,
    AssemblerErrorKind,
>)
    ensures
        value_result_view(addr_syl) == spec_parse_address_syllable_arg(input@),
{
    let src = Source::new(input);
    match address_syllable_at(&src, 0) {
        None => Err(AssemblerErrorKind::InvalidAddressSyllable(String::from_str(input))),
        Some((value, end)) => match finish_argument(&src, end) {
            Err(e) => Err(e),
            Ok(()) => Ok(value),
        },
    }
}

/// Reads an operand that is a shift distance.
pub fn parse_shift_distance_arg(input: &str) -> (distance: Result<u64, AssemblerErrorKind>)
    ensures
        error_view(distance) == spec_parse_shift_distance_arg(input@),
{
    let src = Source::new(input);
    match shift_distance_at(&src, 0) {
        None => Err(AssemblerErrorKind::InvalidImmediateValue(String::from_str(input))),
        Some((value, end)) => match finish_argument(&src, end) {
            Err(e) => Err(e),
            Ok(()) => Ok(value),
        },
    }
}

/// The model of an outcome that holds a slice of the text and a text.
pub open spec fn rest_text_view(parsed: Option<(&str, String)>) -> Option<(Seq<char>, Seq<char>)> {
    match parsed {
        Some((rest, text)) => Some((rest@, text@)),
        None => None,
    }
}

/// Reads a string at the start of a text and gives the text it stands for.
pub fn parse_escaped_string<'a>(input: &'a str) -> (parsed: Option<(&'a str, String)>)
    ensures
        rest_text_view(parsed) == spec_with_rest(input@, spec_parse_escaped_string(input@, 0)),
{
    let src = Source::new(input);
    match escaped_string_at(&src, 0) {
        Some((text, end)) => Some((src.slice(end, src.len()), text)),
        None => None,
    }
}

/// Reads the inside of a string at the start of a text; it ends at a double
/// quote, at a backslash that is the last character, or at the end.
pub fn parse_escaped_string_contents<'a>(input: &'a str) -> (parsed: Option<(&'a str, String)>)
    ensures
        rest_text_view(parsed) == spec_with_rest(
            input@,
            spec_parse_escaped_string_contents(input@, 0),
        ),
{
    let src = Source::new(input);
    let (text, end) = escaped_contents_at(&src, 0);
    Some((src.slice(end, src.len()), text))
}

/// Reads one escape at the start of a text: a backslash and the character it
/// escapes.
pub fn parse_escaped_block<'a>(input: &'a str) -> (parsed: Option<(&'a str, String)>)
    ensures
        rest_text_view(parsed) == spec_with_rest(input@, spec_parse_escaped_block(input@, 0)),
{
    let src = Source::new(input);
    if src.is_at(0, '\\') && 1 < src.len() {
        let c = src.at(1);
        let mut block = String::new();
        proof {
            reveal_strlit("\n");
            reveal_strlit("\r");
            reveal_strlit("\t");
            reveal_strlit("\0");
            assert(src@.subrange(1, 2) =~= seq![c]);
            assert("\n"@ =~= seq!['\n']);
            assert("\r"@ =~= seq!['\r']);
            assert("\t"@ =~= seq!['\t']);
            assert("\0"@ =~= seq!['\0']);
            assert(Seq::<char>::empty() + seq![spec_unescape(c)] =~= seq![spec_unescape(c)]);
        }
        if c == 'n' {
            block.append("\n");
        } else if c == 'r' {
            block.append("\r");
        } else if c == 't' {
            block.append("\t");
        } else if c == '0' {
            block.append("\0");
        } else {
            block.append(src.slice(1, 2));
        }
        Some((src.slice(2, src.len()), block))
    } else {
        None
    }
}

/// The model of an outcome that holds a slice of the text and a list of values.
pub open spec fn rest_values_view(parsed: Option<(&str, Vec<i128>)>) -> Option<
    (Seq<char>, Seq<i128>),
> {
    match parsed {
        Some((rest, values)) => Some((rest@, values@)),
        None => None,
    }
}

/// Reads a string at the start of a text and gives the codes of its
/// characters.
pub fn parse_string_to_i128s<'a>(input: &'a str) -> (parsed: Option<(&'a str, Vec<i128>)>)
    ensures
        rest_values_view(parsed) == spec_with_rest(input@, spec_parse_string_to_i128s(input@, 0)),
{
    let src = Source::new(input);
    match escaped_string_at(&src, 0) {
        Some((text, end)) => Some((src.slice(end, src.len()), char_codes(text.as_str()))),
        None => None,
    }
}

} // verus!
