use vstd::prelude::*;
use crate::text::scan::{parsed_as, spec_is_at, spec_scan, CharClass, Source};

verus! {

/// Value of a digit in any radix up to 16; 16 for a character that is no digit.
pub open spec fn spec_digit_value(c: char) -> int {
    if '0' <= c <= '9' {
        c as int - '0' as int
    } else if 'a' <= c <= 'f' {
        c as int - 'a' as int + 10
    } else if 'A' <= c <= 'F' {
        c as int - 'A' as int + 10
    } else {
        16
    }
}

/// Value of the digits from `from` up to `to`, read in a radix.
pub open spec fn spec_number_value(s: Seq<char>, from: int, to: int, radix: int) -> int
    decreases to - from,
{
    if to <= from || to > s.len() || from < 0 {
        0
    } else {
        spec_number_value(s, from, to - 1, radix) * radix + spec_digit_value(s[to - 1])
    }
}

/// Whether every digit from `from` up to `to` is a digit of the radix.
pub open spec fn spec_digits_valid(s: Seq<char>, from: int, to: int, radix: int) -> bool {
    forall|i: int| from <= i < to ==> spec_digit_value(#[trigger] s[i]) < radix
}

/// A number at `pos`: the longest run of characters of `class`, which must not
/// be empty, must hold only digits of the radix, and must stand for a value
/// that fits in 64 bits.
pub open spec fn spec_parse_number(s: Seq<char>, pos: int, class: CharClass, radix: int) -> Option<
    (u64, int),
> {
    let end = spec_scan(s, pos, class);
    if end <= pos {
        None
    } else if !spec_digits_valid(s, pos, end, radix) {
        None
    } else if spec_number_value(s, pos, end, radix) > u64::MAX {
        None
    } else {
        Some((spec_number_value(s, pos, end, radix) as u64, end))
    }
}

proof fn lemma_number_value_grows(s: Seq<char>, from: int, mid: int, to: int, radix: int)
    requires
        0 <= from <= mid <= to <= s.len(),
        radix >= 1,
    ensures
        0 <= spec_number_value(s, from, mid, radix) <= spec_number_value(s, from, to, radix),
    decreases to - mid,
{
    lemma_number_value_not_negative(s, from, mid, radix);
    if mid < to {
        lemma_number_value_grows(s, from, mid, to - 1, radix);
        let before = spec_number_value(s, from, to - 1, radix);
        assert(before * radix >= before) by (nonlinear_arith)
            requires
                before >= 0,
                radix >= 1,
        ;
    }
}

proof fn lemma_number_value_not_negative(s: Seq<char>, from: int, to: int, radix: int)
    requires
        0 <= from <= to <= s.len(),
        radix >= 1,
    ensures
        0 <= spec_number_value(s, from, to, radix),
    decreases to - from,
{
    if from < to {
        lemma_number_value_not_negative(s, from, to - 1, radix);
        let before = spec_number_value(s, from, to - 1, radix);
        assert(before * radix >= 0) by (nonlinear_arith)
            requires
                before >= 0,
                radix >= 1,
        ;
    }
}

fn digit_value(c: char) -> (value: u8)
    ensures
        value == spec_digit_value(c),
        value <= 16,
{
    if '0' <= c && c <= '9' {
        (c as u32 - '0' as u32) as u8
    } else if 'a' <= c && c <= 'f' {
        (c as u32 - 'a' as u32 + 10) as u8
    } else if 'A' <= c && c <= 'F' {
        (c as u32 - 'A' as u32 + 10) as u8
    } else {
        16
    }
}

/// Reads a number at `pos`.
pub fn number_at(src: &Source, pos: usize, class: CharClass, radix: u8) -> (parsed: Option<
    (u64, usize),
>)
    requires
        pos <= src@.len(),
        1 <= radix <= 16,
    ensures
        parsed_as(parsed, spec_parse_number(src@, pos as int, class, radix as int), pos, src@.len()),
{
    let end = src.scan(pos, class);
    if end == pos {
        return None;
    }
    let mut value: u64 = 0;
    let mut i = pos;
    while i < end
        invariant
            pos <= i <= end <= src@.len(),
            pos < end,
            end == spec_scan(src@, pos as int, class),
            1 <= radix <= 16,
            value == spec_number_value(src@, pos as int, i as int, radix as int),
            spec_digits_valid(src@, pos as int, i as int, radix as int),
        decreases end - i,
    {
        let digit = digit_value(src.at(i));
        if digit >= radix {
            assert(!(spec_digit_value(src@[i as int]) < radix));
            return None;
        }
        assert(value as u128 * radix as u128 <= 0xFFFF_FFFF_FFFF_FFFF * 16) by (nonlinear_arith)
            requires
                value <= 0xFFFF_FFFF_FFFF_FFFF,
                radix <= 16,
        ;
        let next: u128 = value as u128 * radix as u128 + digit as u128;
        if next > u64::MAX as u128 {
            proof {
                assert(spec_number_value(src@, pos as int, i + 1, radix as int) == next);
                lemma_number_value_grows(src@, pos as int, i + 1, end as int, radix as int);
            }
            return None;
        }
        value = next as u64;
        i = i + 1;
    }
    Some((value, end))
}

/// Whether the two characters at `pos` are `0` and the letter `lower`, in
/// either case.
pub open spec fn spec_radix_prefix(s: Seq<char>, pos: int, lower: char, upper: char) -> bool {
    spec_is_at(s, pos, '0') && (spec_is_at(s, pos + 1, lower) || spec_is_at(s, pos + 1, upper))
}

/// A hexadecimal number: `0x`, in either case, and hexadecimal digits.
pub open spec fn spec_parse_hex_u64(s: Seq<char>, pos: int) -> Option<(u64, int)> {
    if spec_radix_prefix(s, pos, 'x', 'X') {
        spec_parse_number(s, pos + 2, CharClass::HexDigit, 16)
    } else {
        None
    }
}

/// A binary number: `0b`, in either case, and decimal digits that must all be
/// 0 or 1.
pub open spec fn spec_parse_bin_u64(s: Seq<char>, pos: int) -> Option<(u64, int)> {
    if spec_radix_prefix(s, pos, 'b', 'B') {
        spec_parse_number(s, pos + 2, CharClass::Digit, 2)
    } else {
        None
    }
}

/// A decimal number without sign.
pub open spec fn spec_parse_dec_u64(s: Seq<char>, pos: int) -> Option<(u64, int)> {
    spec_parse_number(s, pos, CharClass::Digit, 10)
}

/// A decimal number with an optional sign.
pub open spec fn spec_parse_dec_i128(s: Seq<char>, pos: int) -> Option<(i128, int)> {
    if spec_is_at(s, pos, '+') {
        match spec_parse_dec_u64(s, pos + 1) {
            Some((value, end)) => Some((value as i128, end)),
            None => None,
        }
    } else if spec_is_at(s, pos, '-') {
        match spec_parse_dec_u64(s, pos + 1) {
            Some((value, end)) => Some(((-(value as int)) as i128, end)),
            None => None,
        }
    } else {
        match spec_parse_dec_u64(s, pos) {
            Some((value, end)) => Some((value as i128, end)),
            None => None,
        }
    }
}

/// A number in any of the three notations: hexadecimal, binary, then decimal.
pub open spec fn spec_parse_immediate_value_contents(s: Seq<char>, pos: int) -> Option<
    (i128, int),
> {
    match spec_parse_hex_u64(s, pos) {
        Some((value, end)) => Some((value as i128, end)),
        None => match spec_parse_bin_u64(s, pos) {
            Some((value, end)) => Some((value as i128, end)),
            None => spec_parse_dec_i128(s, pos),
        },
    }
}

/// An immediate value: `=` and a number.
pub open spec fn spec_parse_immediate_value(s: Seq<char>, pos: int) -> Option<(i128, int)> {
    if spec_is_at(s, pos, '=') {
        spec_parse_immediate_value_contents(s, pos + 1)
    } else {
        None
    }
}

/// A displacement in words: a sign, which is required, and decimal digits.
pub open spec fn spec_parse_word_displacement(s: Seq<char>, pos: int) -> Option<(i128, int)> {
    if spec_is_at(s, pos, '+') {
        match spec_parse_dec_u64(s, pos + 1) {
            Some((value, end)) => Some((value as i128, end)),
            None => None,
        }
    } else if spec_is_at(s, pos, '-') {
        match spec_parse_dec_u64(s, pos + 1) {
            Some((value, end)) => Some(((-(value as int)) as i128, end)),
            None => None,
        }
    } else {
        None
    }
}

fn radix_prefix_at(src: &Source, pos: usize, lower: char, upper: char) -> (found: bool)
    requires
        pos <= src@.len(),
    ensures
        found == spec_radix_prefix(src@, pos as int, lower, upper),
        found ==> pos + 2 <= src@.len() <= usize::MAX,
{
    src.is_at(pos, '0') && (src.is_at(pos + 1, lower) || src.is_at(pos + 1, upper))
}

/// Reads a hexadecimal number at `pos`.
pub fn hex_u64_at(src: &Source, pos: usize) -> (parsed: Option<(u64, usize)>)
    requires
        pos <= src@.len(),
    ensures
        parsed_as(parsed, spec_parse_hex_u64(src@, pos as int), pos, src@.len()),
{
    if radix_prefix_at(src, pos, 'x', 'X') {
        number_at(src, pos + 2, CharClass::HexDigit, 16)
    } else {
        None
    }
}

/// Reads a binary number at `pos`.
pub fn bin_u64_at(src: &Source, pos: usize) -> (parsed: Option<(u64, usize)>)
    requires
        pos <= src@.len(),
    ensures
        parsed_as(parsed, spec_parse_bin_u64(src@, pos as int), pos, src@.len()),
{
    if radix_prefix_at(src, pos, 'b', 'B') {
        number_at(src, pos + 2, CharClass::Digit, 2)
    } else {
        None
    }
}

/// Reads a decimal number without sign at `pos`.
pub fn dec_u64_at(src: &Source, pos: usize) -> (parsed: Option<(u64, usize)>)
    requires
        pos <= src@.len(),
    ensures
        parsed_as(parsed, spec_parse_dec_u64(src@, pos as int), pos, src@.len()),
{
    number_at(src, pos, CharClass::Digit, 10)
}

/// Reads a decimal number with an optional sign at `pos`.
pub fn dec_i128_at(src: &Source, pos: usize) -> (parsed: Option<(i128, usize)>)
    requires
        pos <= src@.len(),
    ensures
        parsed_as(parsed, spec_parse_dec_i128(src@, pos as int), pos, src@.len()),
{
    if src.is_at(pos, '+') {
        match dec_u64_at(src, pos + 1) {
            Some((value, end)) => Some((value as i128, end)),
            None => None,
        }
    } else if src.is_at(pos, '-') {
        match dec_u64_at(src, pos + 1) {
            Some((value, end)) => Some((-(value as i128), end)),
            None => None,
        }
    } else {
        match dec_u64_at(src, pos) {
            Some((value, end)) => Some((value as i128, end)),
            None => None,
        }
    }
}

/// Reads a number in any notation at `pos`.
pub fn immediate_value_contents_at(src: &Source, pos: usize) -> (parsed: Option<(i128, usize)>)
    requires
        pos <= src@.len(),
    ensures
        parsed_as(parsed, spec_parse_immediate_value_contents(src@, pos as int), pos, src@.len()),
{
    match hex_u64_at(src, pos) {
        Some((value, end)) => Some((value as i128, end)),
        None => match bin_u64_at(src, pos) {
            Some((value, end)) => Some((value as i128, end)),
            None => dec_i128_at(src, pos),
        },
    }
}

/// Reads `=` and a number at `pos`.
pub fn immediate_value_at(src: &Source, pos: usize) -> (parsed: Option<(i128, usize)>)
    requires
        pos <= src@.len(),
    ensures
        parsed_as(parsed, spec_parse_immediate_value(src@, pos as int), pos, src@.len()),
{
    if src.is_at(pos, '=') {
        immediate_value_contents_at(src, pos + 1)
    } else {
        None
    }
}

/// Reads a signed displacement at `pos`.
pub fn word_displacement_at(src: &Source, pos: usize) -> (parsed: Option<(i128, usize)>)
    requires
        pos <= src@.len(),
    ensures
        parsed_as(parsed, spec_parse_word_displacement(src@, pos as int), pos, src@.len()),
{
    if src.is_at(pos, '+') {
        match dec_u64_at(src, pos + 1) {
            Some((value, end)) => Some((value as i128, end)),
            None => None,
        }
    } else if src.is_at(pos, '-') {
        match dec_u64_at(src, pos + 1) {
            Some((value, end)) => Some((-(value as i128), end)),
            None => None,
        }
    } else {
        None
    }
}

/// What is left of a text after a parser stopped at `end`.
pub open spec fn spec_rest(s: Seq<char>, end: int) -> Seq<char> {
    s.subrange(end, s.len() as int)
}

/// The outcome of a parser of numbers on a whole text: the text that is left
/// and the number.
pub open spec fn spec_with_rest<T>(s: Seq<char>, parsed: Option<(T, int)>) -> Option<
    (Seq<char>, T),
> {
    match parsed {
        Some((value, end)) => Some((spec_rest(s, end), value)),
        None => None,
    }
}

/// The model of an outcome that holds a slice of the text.
pub open spec fn rest_view<T>(parsed: Option<(&str, T)>) -> Option<(Seq<char>, T)> {
    match parsed {
        Some((rest, value)) => Some((rest@, value)),
        None => None,
    }
}

/// Reads a hexadecimal number at the start of a text.
pub fn parse_hex_u64<'a>(input: &'a str) -> (parsed: Option<(&'a str, u64)>)
    ensures
        rest_view(parsed) == spec_with_rest(input@, spec_parse_hex_u64(input@, 0)),
{
    let src = Source::new(input);
    match hex_u64_at(&src, 0) {
        Some((value, end)) => Some((src.slice(end, src.len()), value)),
        None => None,
    }
}

/// Reads a binary number at the start of a text.
pub fn parse_bin_u64<'a>(input: &'a str) -> (parsed: Option<(&'a str, u64)>)
    ensures
        rest_view(parsed) == spec_with_rest(input@, spec_parse_bin_u64(input@, 0)),
{
    let src = Source::new(input);
    match bin_u64_at(&src, 0) {
        Some((value, end)) => Some((src.slice(end, src.len()), value)),
        None => None,
    }
}

/// Reads a decimal number without sign at the start of a text.
pub fn parse_dec_u64<'a>(input: &'a str) -> (parsed: Option<(&'a str, u64)>)
    ensures
        rest_view(parsed) == spec_with_rest(input@, spec_parse_dec_u64(input@, 0)),
{
    let src = Source::new(input);
    match dec_u64_at(&src, 0) {
        Some((value, end)) => Some((src.slice(end, src.len()), value)),
        None => None,
    }
}

/// Reads a decimal number with an optional sign at the start of a text.
pub fn parse_dec_i128<'a>(input: &'a str) -> (parsed: Option<(&'a str, i128)>)
    ensures
        rest_view(parsed) == spec_with_rest(input@, spec_parse_dec_i128(input@, 0)),
{
    let src = Source::new(input);
    match dec_i128_at(&src, 0) {
        Some((value, end)) => Some((src.slice(end, src.len()), value)),
        None => None,
    }
}

/// Reads a number in any notation at the start of a text.
pub fn parse_immediate_value_contents<'a>(input: &'a str) -> (parsed: Option<(&'a str, i128)>)
    ensures
        rest_view(parsed) == spec_with_rest(
            input@,
            spec_parse_immediate_value_contents(input@, 0),
        ),
{
    let src = Source::new(input);
    match immediate_value_contents_at(&src, 0) {
        Some((value, end)) => Some((src.slice(end, src.len()), value)),
        None => None,
    }
}

/// Reads `=` and a number at the start of a text.
pub fn parse_immediate_value<'a>(input: &'a str) -> (parsed: Option<(&'a str, i128)>)
    ensures
        rest_view(parsed) == spec_with_rest(input@, spec_parse_immediate_value(input@, 0)),
{
    let src = Source::new(input);
    match immediate_value_at(&src, 0) {
        Some((value, end)) => Some((src.slice(end, src.len()), value)),
        None => None,
    }
}

} // verus!
