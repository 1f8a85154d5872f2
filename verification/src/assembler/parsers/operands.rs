use vstd::prelude::*;
use crate::text::chars::{spec_to_uppercase, to_uppercase};
use crate::assembler::parsers::numbers::{
    hex_u64_at, immediate_value_contents_at, spec_parse_hex_u64,
    spec_parse_immediate_value_contents, spec_parse_word_displacement, word_displacement_at,
};
use crate::text::scan::{
    parsed_as, parsed_view_as, spec_is_at, spec_scan, CharClass, Source,
};
use crate::assembler::statements::{
    AddressExpression, AddressExpressionView, AddressSyllable, AddressSyllableView,
    BRelativeAddress, BRelativeAddressMode, BaseRegister, BranchLocation, BranchLocationView,
    DataRegister, ImmediateAddress, ImmediateAddressMode, ImmediateAddressModeView,
    ImmediateAddressView, IncDec, ModeControlRegister, PRelativeAddress, PRelativeAddressView,
    Register,
};

verus! {

/// The number of a register at `pos`: the family's letter, in either case, and
/// a digit from 1 to 7.
pub open spec fn spec_parse_register_number(s: Seq<char>, pos: int, lower: char, upper: char) -> Option<
    (int, int),
> {
    if (spec_is_at(s, pos, lower) || spec_is_at(s, pos, upper)) && pos + 1 < s.len() && '1' <= s[pos
        + 1] <= '7' {
        Some((s[pos + 1] as int - '0' as int, pos + 2))
    } else {
        None
    }
}

pub open spec fn spec_data_register(number: int) -> DataRegister {
    if number == 1 {
        DataRegister::R1
    } else if number == 2 {
        DataRegister::R2
    } else if number == 3 {
        DataRegister::R3
    } else if number == 4 {
        DataRegister::R4
    } else if number == 5 {
        DataRegister::R5
    } else if number == 6 {
        DataRegister::R6
    } else {
        DataRegister::R7
    }
}

pub open spec fn spec_base_register(number: int) -> BaseRegister {
    if number == 1 {
        BaseRegister::B1
    } else if number == 2 {
        BaseRegister::B2
    } else if number == 3 {
        BaseRegister::B3
    } else if number == 4 {
        BaseRegister::B4
    } else if number == 5 {
        BaseRegister::B5
    } else if number == 6 {
        BaseRegister::B6
    } else {
        BaseRegister::B7
    }
}

pub open spec fn spec_mode_control_register(number: int) -> ModeControlRegister {
    if number == 1 {
        ModeControlRegister::M1
    } else if number == 2 {
        ModeControlRegister::M2
    } else if number == 3 {
        ModeControlRegister::M3
    } else if number == 4 {
        ModeControlRegister::M4
    } else if number == 5 {
        ModeControlRegister::M5
    } else if number == 6 {
        ModeControlRegister::M6
    } else {
        ModeControlRegister::M7
    }
}

/// A data register without its sigil: `R1` to `R7`, in either case.
pub open spec fn spec_parse_data_register(s: Seq<char>, pos: int) -> Option<(DataRegister, int)> {
    match spec_parse_register_number(s, pos, 'r', 'R') {
        Some((number, end)) => Some((spec_data_register(number), end)),
        None => None,
    }
}

/// A base register without its sigil: `B1` to `B7`, in either case.
pub open spec fn spec_parse_base_register(s: Seq<char>, pos: int) -> Option<(BaseRegister, int)> {
    match spec_parse_register_number(s, pos, 'b', 'B') {
        Some((number, end)) => Some((spec_base_register(number), end)),
        None => None,
    }
}

/// A mode-control register without its sigil: `M1` to `M7`, in either case.
pub open spec fn spec_parse_mode_control_register(s: Seq<char>, pos: int) -> Option<
    (ModeControlRegister, int),
> {
    match spec_parse_register_number(s, pos, 'm', 'M') {
        Some((number, end)) => Some((spec_mode_control_register(number), end)),
        None => None,
    }
}

/// `$` and a parser's outcome after it.
pub open spec fn spec_after_sigil<T>(s: Seq<char>, pos: int, sigil: char, parsed: Option<(T, int)>) -> Option<
    (T, int),
> {
    if spec_is_at(s, pos, sigil) {
        parsed
    } else {
        None
    }
}

/// A data register with its sigil, such as `$R3`.
pub open spec fn spec_parse_sigil_data_register(s: Seq<char>, pos: int) -> Option<
    (DataRegister, int),
> {
    spec_after_sigil(s, pos, '$', spec_parse_data_register(s, pos + 1))
}

/// A base register with its sigil, such as `$B3`.
pub open spec fn spec_parse_sigil_base_register(s: Seq<char>, pos: int) -> Option<
    (BaseRegister, int),
> {
    spec_after_sigil(s, pos, '$', spec_parse_base_register(s, pos + 1))
}

/// A mode-control register with its sigil, such as `$M3`.
pub open spec fn spec_parse_sigil_mode_control_register(s: Seq<char>, pos: int) -> Option<
    (ModeControlRegister, int),
> {
    spec_after_sigil(s, pos, '$', spec_parse_mode_control_register(s, pos + 1))
}

/// A data or base register with its sigil.
pub open spec fn spec_parse_generic_register(s: Seq<char>, pos: int) -> Option<(Register, int)> {
    if spec_is_at(s, pos, '$') {
        match spec_parse_data_register(s, pos + 1) {
            Some((reg, end)) => Some((Register::Data(reg), end)),
            None => match spec_parse_base_register(s, pos + 1) {
                Some((reg, end)) => Some((Register::Base(reg), end)),
                None => None,
            },
        }
    } else {
        None
    }
}

/// An identifier: letters or `_`, then letters, numbers or `_`. The outcome is
/// the identifier as written.
pub open spec fn spec_parse_label_identifier(s: Seq<char>, pos: int) -> Option<(Seq<char>, int)> {
    let head_end = spec_scan(s, pos, CharClass::IdentifierStart);
    if head_end <= pos {
        None
    } else {
        let end = spec_scan(s, head_end, CharClass::IdentifierPart);
        Some((s.subrange(pos, end), end))
    }
}

/// An address expression: a hexadecimal address, a label, which is folded to
/// upper case, or a signed displacement, tried in this order.
pub open spec fn spec_parse_address_expression(s: Seq<char>, pos: int) -> Option<
    (AddressExpressionView, int),
> {
    match spec_parse_hex_u64(s, pos) {
        Some((addr, end)) => Some((AddressExpressionView::Immediate(addr), end)),
        None => match spec_parse_label_identifier(s, pos) {
            Some((name, end)) => Some((AddressExpressionView::Label(spec_to_uppercase(name)), end)),
            None => match spec_parse_word_displacement(s, pos) {
                Some((disp, end)) => Some((AddressExpressionView::WordDisplacement(disp), end)),
                None => None,
            },
        },
    }
}

/// A branch location: `<` and an address expression for an absolute target, a
/// bare address expression for a long displacement, `>` and an address
/// expression for a short displacement, tried in this order.
pub open spec fn spec_parse_branch_location(s: Seq<char>, pos: int) -> Option<
    (BranchLocationView, int),
> {
    match spec_after_sigil(s, pos, '<', spec_parse_address_expression(s, pos + 1)) {
        Some((ae, end)) => Some((BranchLocationView::Absolute(ae), end)),
        None => match spec_parse_address_expression(s, pos) {
            Some((ae, end)) => Some((BranchLocationView::LongDisplacement(ae), end)),
            None => match spec_after_sigil(s, pos, '>', spec_parse_address_expression(s, pos + 1)) {
                Some((ae, end)) => Some((BranchLocationView::ShortDisplacement(ae), end)),
                None => None,
            },
        },
    }
}

/// `+` for an increment, `-` for a decrement.
pub open spec fn spec_parse_incdec_sign(s: Seq<char>, pos: int) -> Option<(IncDec, int)> {
    if spec_is_at(s, pos, '+') {
        Some((IncDec::Increment, pos + 1))
    } else if spec_is_at(s, pos, '-') {
        Some((IncDec::Decrement, pos + 1))
    } else {
        None
    }
}

/// An immediate address: `<` and an address expression, indexed if `.` and a
/// data register follow.
pub open spec fn spec_parse_immediate_address(s: Seq<char>, pos: int) -> Option<
    (ImmediateAddressView, int),
> {
    if spec_is_at(s, pos, '<') {
        match spec_parse_address_expression(s, pos + 1) {
            None => None,
            Some((ae, end)) => match spec_after_sigil(
                s,
                end,
                '.',
                spec_parse_sigil_data_register(s, end + 1),
            ) {
                Some((reg, indexed_end)) => Some((ImmediateAddressView::Indexed(ae, reg), indexed_end)),
                None => Some((ImmediateAddressView::Simple(ae), end)),
            },
        }
    } else {
        None
    }
}

/// An address relative to a base register: the register with `.` and a data
/// register, with `.` and a signed displacement, or alone, tried in this
/// order.
pub open spec fn spec_parse_brelative_address(s: Seq<char>, pos: int) -> Option<
    (BRelativeAddress, int),
> {
    match spec_parse_sigil_base_register(s, pos) {
        None => None,
        Some((base, end)) => match spec_after_sigil(
            s,
            end,
            '.',
            spec_parse_sigil_data_register(s, end + 1),
        ) {
            Some((reg, indexed_end)) => Some((BRelativeAddress::Indexed(base, reg), indexed_end)),
            None => match spec_after_sigil(s, end, '.', spec_parse_word_displacement(s, end + 1)) {
                Some((disp, disp_end)) => Some((BRelativeAddress::Displacement(base, disp), disp_end)),
                None => Some((BRelativeAddress::Simple(base), end)),
            },
        },
    }
}

/// A push or pop: a sign and a base register.
pub open spec fn spec_parse_brelative_pushpop(s: Seq<char>, pos: int) -> Option<
    (BRelativeAddressMode, int),
> {
    match spec_parse_incdec_sign(s, pos) {
        None => None,
        Some((incdec, sign_end)) => match spec_parse_sigil_base_register(s, sign_end) {
            Some((base, end)) => Some((BRelativeAddressMode::PushPop(base, incdec), end)),
            None => None,
        },
    }
}

/// An increment or decrement with index: a base register, `.`, a sign and a
/// data register.
pub open spec fn spec_parse_brelative_incdec_indexed(s: Seq<char>, pos: int) -> Option<
    (BRelativeAddressMode, int),
> {
    match spec_parse_sigil_base_register(s, pos) {
        None => None,
        Some((base, base_end)) => if spec_is_at(s, base_end, '.') {
            match spec_parse_incdec_sign(s, base_end + 1) {
                None => None,
                Some((incdec, sign_end)) => match spec_parse_sigil_data_register(s, sign_end) {
                    Some((reg, end)) => Some(
                        (BRelativeAddressMode::IncDecIndexed(base, reg, incdec), end),
                    ),
                    None => None,
                },
            }
        } else {
            None
        },
    }
}

/// The forms relative to a base register: push or pop, increment or decrement
/// with index, `*` and an address for an indirect one, an address for a direct
/// one, tried in this order.
pub open spec fn spec_parse_brelative_addressing(s: Seq<char>, pos: int) -> Option<
    (BRelativeAddressMode, int),
> {
    match spec_parse_brelative_pushpop(s, pos) {
        Some(found) => Some(found),
        None => match spec_parse_brelative_incdec_indexed(s, pos) {
            Some(found) => Some(found),
            None => match spec_after_sigil(s, pos, '*', spec_parse_brelative_address(s, pos + 1)) {
                Some((addr, end)) => Some((BRelativeAddressMode::Indirect(addr), end)),
                None => match spec_parse_brelative_address(s, pos) {
                    Some((addr, end)) => Some((BRelativeAddressMode::Direct(addr), end)),
                    None => None,
                },
            },
        },
    }
}

/// An address syllable. The forms are tried in this order: `=` and a register;
/// `=` and a number; an immediate address, with `*` before it if indirect; an
/// address expression relative to the program counter, with `*` before it if
/// indirect; the forms relative to a base register.
pub open spec fn spec_parse_address_syllable(s: Seq<char>, pos: int) -> Option<
    (AddressSyllableView, int),
> {
    match spec_after_sigil(s, pos, '=', spec_parse_generic_register(s, pos + 1)) {
        Some((reg, end)) => Some((AddressSyllableView::RegisterAddressing(reg), end)),
        None => match spec_after_sigil(
            s,
            pos,
            '=',
            spec_parse_immediate_value_contents(s, pos + 1),
        ) {
            Some((val, end)) => Some((AddressSyllableView::ImmediateOperand(val), end)),
            None => match spec_after_sigil(s, pos, '*', spec_parse_immediate_address(s, pos + 1)) {
                Some((ia, end)) => Some(
                    (
                        AddressSyllableView::ImmediateAddressing(
                            ImmediateAddressModeView::Indirect(ia),
                        ),
                        end,
                    ),
                ),
                None => match spec_parse_immediate_address(s, pos) {
                    Some((ia, end)) => Some(
                        (
                            AddressSyllableView::ImmediateAddressing(
                                ImmediateAddressModeView::Direct(ia),
                            ),
                            end,
                        ),
                    ),
                    None => match spec_after_sigil(
                        s,
                        pos,
                        '*',
                        spec_parse_address_expression(s, pos + 1),
                    ) {
                        Some((ae, end)) => Some(
                            (AddressSyllableView::PRelative(PRelativeAddressView::Indirect(ae)), end),
                        ),
                        None => match spec_parse_address_expression(s, pos) {
                            Some((ae, end)) => Some(
                                (
                                    AddressSyllableView::PRelative(PRelativeAddressView::Direct(ae)),
                                    end,
                                ),
                            ),
                            None => match spec_parse_brelative_addressing(s, pos) {
                                Some((mode, end)) => Some(
                                    (AddressSyllableView::BRelative(mode), end),
                                ),
                                None => None,
                            },
                        },
                    },
                },
            },
        },
    }
}

fn register_number_at(src: &Source, pos: usize, lower: char, upper: char) -> (parsed: Option<
    (u8, usize),
>)
    requires
        pos <= src@.len(),
    ensures
        match spec_parse_register_number(src@, pos as int, lower, upper) {
            Some((number, end)) => parsed is Some && parsed->Some_0.0 == number
                && parsed->Some_0.1 == end && pos < end <= src@.len() && 1 <= number <= 7,
            None => parsed is None,
        },
{
    if (src.is_at(pos, lower) || src.is_at(pos, upper)) && pos + 1 < src.len() {
        let digit = src.at(pos + 1);
        if '1' <= digit && digit <= '7' {
            return Some(((digit as u32 - '0' as u32) as u8, pos + 2));
        }
    }
    None
}

/// Reads a data register without its sigil at `pos`.
pub fn data_register_at(src: &Source, pos: usize) -> (parsed: Option<(DataRegister, usize)>)
    requires
        pos <= src@.len(),
    ensures
        parsed_as(parsed, spec_parse_data_register(src@, pos as int), pos, src@.len()),
{
    match register_number_at(src, pos, 'r', 'R') {
        Some((number, end)) => {
            let reg = match number {
                1 => DataRegister::R1,
                2 => DataRegister::R2,
                3 => DataRegister::R3,
                4 => DataRegister::R4,
                5 => DataRegister::R5,
                6 => DataRegister::R6,
                _ => DataRegister::R7,
            };
            Some((reg, end))
        },
        None => None,
    }
}

/// Reads a base register without its sigil at `pos`.
pub fn base_register_at(src: &Source, pos: usize) -> (parsed: Option<(BaseRegister, usize)>)
    requires
        pos <= src@.len(),
    ensures
        parsed_as(parsed, spec_parse_base_register(src@, pos as int), pos, src@.len()),
{
    match register_number_at(src, pos, 'b', 'B') {
        Some((number, end)) => {
            let reg = match number {
                1 => BaseRegister::B1,
                2 => BaseRegister::B2,
                3 => BaseRegister::B3,
                4 => BaseRegister::B4,
                5 => BaseRegister::B5,
                6 => BaseRegister::B6,
                _ => BaseRegister::B7,
            };
            Some((reg, end))
        },
        None => None,
    }
}

/// Reads a mode-control register without its sigil at `pos`.
pub fn mode_control_register_at(src: &Source, pos: usize) -> (parsed: Option<
    (ModeControlRegister, usize),
>)
    requires
        pos <= src@.len(),
    ensures
        parsed_as(parsed, spec_parse_mode_control_register(src@, pos as int), pos, src@.len()),
{
    match register_number_at(src, pos, 'm', 'M') {
        Some((number, end)) => {
            let reg = match number {
                1 => ModeControlRegister::M1,
                2 => ModeControlRegister::M2,
                3 => ModeControlRegister::M3,
                4 => ModeControlRegister::M4,
                5 => ModeControlRegister::M5,
                6 => ModeControlRegister::M6,
                _ => ModeControlRegister::M7,
            };
            Some((reg, end))
        },
        None => None,
    }
}

/// Reads a data register with its sigil at `pos`.
pub fn sigil_data_register_at(src: &Source, pos: usize) -> (parsed: Option<(DataRegister, usize)>)
    requires
        pos <= src@.len(),
    ensures
        parsed_as(parsed, spec_parse_sigil_data_register(src@, pos as int), pos, src@.len()),
{
    if src.is_at(pos, '$') {
        data_register_at(src, pos + 1)
    } else {
        None
    }
}

/// Reads a base register with its sigil at `pos`.
pub fn sigil_base_register_at(src: &Source, pos: usize) -> (parsed: Option<(BaseRegister, usize)>)
    requires
        pos <= src@.len(),
    ensures
        parsed_as(parsed, spec_parse_sigil_base_register(src@, pos as int), pos, src@.len()),
{
    if src.is_at(pos, '$') {
        base_register_at(src, pos + 1)
    } else {
        None
    }
}

/// Reads a mode-control register with its sigil at `pos`.
pub fn sigil_mode_control_register_at(src: &Source, pos: usize) -> (parsed: Option<
    (ModeControlRegister, usize),
>)
    requires
        pos <= src@.len(),
    ensures
        parsed_as(
            parsed,
            spec_parse_sigil_mode_control_register(src@, pos as int),
            pos,
            src@.len(),
        ),
{
    if src.is_at(pos, '$') {
        mode_control_register_at(src, pos + 1)
    } else {
        None
    }
}

/// Reads a data or base register with its sigil at `pos`.
pub fn generic_register_at(src: &Source, pos: usize) -> (parsed: Option<(Register, usize)>)
    requires
        pos <= src@.len(),
    ensures
        parsed_as(parsed, spec_parse_generic_register(src@, pos as int), pos, src@.len()),
{
    if src.is_at(pos, '$') {
        match data_register_at(src, pos + 1) {
            Some((reg, end)) => Some((Register::Data(reg), end)),
            None => match base_register_at(src, pos + 1) {
                Some((reg, end)) => Some((Register::Base(reg), end)),
                None => None,
            },
        }
    } else {
        None
    }
}

/// Reads an identifier at `pos` and gives the position where it ends.
pub fn label_identifier_at(src: &Source, pos: usize) -> (end: Option<usize>)
    requires
        pos <= src@.len(),
    ensures
        match spec_parse_label_identifier(src@, pos as int) {
            Some((name, expected)) => end is Some && end->Some_0 == expected && pos < expected
                <= src@.len() && name == src@.subrange(pos as int, expected),
            None => end.is_none(),
        },
{
    let head_end = src.scan(pos, CharClass::IdentifierStart);
    if head_end == pos {
        None
    } else {
        Some(src.scan(head_end, CharClass::IdentifierPart))
    }
}

/// Reads an address expression at `pos`.
pub fn address_expression_at(src: &Source, pos: usize) -> (parsed: Option<
    (AddressExpression, usize),
>)
    requires
        pos <= src@.len(),
    ensures
        parsed_view_as(parsed, spec_parse_address_expression(src@, pos as int), pos, src@.len()),
{
    match hex_u64_at(src, pos) {
        Some((addr, end)) => Some((AddressExpression::Immediate(addr), end)),
        None => match label_identifier_at(src, pos) {
            Some(end) => Some((AddressExpression::Label(to_uppercase(src.slice(pos, end))), end)),
            None => match word_displacement_at(src, pos) {
                Some((disp, end)) => Some((AddressExpression::WordDisplacement(disp), end)),
                None => None,
            },
        },
    }
}

fn sigil_address_expression_at(src: &Source, pos: usize, sigil: char) -> (parsed: Option<
    (AddressExpression, usize),
>)
    requires
        pos <= src@.len(),
    ensures
        parsed_view_as(
            parsed,
            spec_after_sigil(
                src@,
                pos as int,
                sigil,
                spec_parse_address_expression(src@, pos + 1),
            ),
            pos,
            src@.len(),
        ),
{
    if src.is_at(pos, sigil) {
        address_expression_at(src, pos + 1)
    } else {
        None
    }
}

/// Reads a branch location at `pos`.
pub fn branch_location_at(src: &Source, pos: usize) -> (parsed: Option<(BranchLocation, usize)>)
    requires
        pos <= src@.len(),
    ensures
        parsed_view_as(parsed, spec_parse_branch_location(src@, pos as int), pos, src@.len()),
{
    match sigil_address_expression_at(src, pos, '<') {
        Some((ae, end)) => Some((BranchLocation::Absolute(ae), end)),
        None => match address_expression_at(src, pos) {
            Some((ae, end)) => Some((BranchLocation::LongDisplacement(ae), end)),
            None => match sigil_address_expression_at(src, pos, '>') {
                Some((ae, end)) => Some((BranchLocation::ShortDisplacement(ae), end)),
                None => None,
            },
        },
    }
}

/// Reads the sign of an increment or a decrement at `pos`.
pub fn incdec_sign_at(src: &Source, pos: usize) -> (parsed: Option<(IncDec, usize)>)
    requires
        pos <= src@.len(),
    ensures
        parsed_as(parsed, spec_parse_incdec_sign(src@, pos as int), pos, src@.len()),
{
    if src.is_at(pos, '+') {
        Some((IncDec::Increment, pos + 1))
    } else if src.is_at(pos, '-') {
        Some((IncDec::Decrement, pos + 1))
    } else {
        None
    }
}

fn dot_data_register_at(src: &Source, pos: usize) -> (parsed: Option<(DataRegister, usize)>)
    requires
        pos <= src@.len(),
    ensures
        parsed_as(
            parsed,
            spec_after_sigil(src@, pos as int, '.', spec_parse_sigil_data_register(src@, pos + 1)),
            pos,
            src@.len(),
        ),
{
    if src.is_at(pos, '.') {
        sigil_data_register_at(src, pos + 1)
    } else {
        None
    }
}

/// Reads an immediate address at `pos`.
pub fn immediate_address_at(src: &Source, pos: usize) -> (parsed: Option<
    (ImmediateAddress, usize),
>)
    requires
        pos <= src@.len(),
    ensures
        parsed_view_as(parsed, spec_parse_immediate_address(src@, pos as int), pos, src@.len()),
{
    if src.is_at(pos, '<') {
        match address_expression_at(src, pos + 1) {
            None => None,
            Some((ae, end)) => match dot_data_register_at(src, end) {
                Some((reg, indexed_end)) => Some((ImmediateAddress::Indexed(ae, reg), indexed_end)),
                None => Some((ImmediateAddress::Simple(ae), end)),
            },
        }
    } else {
        None
    }
}

/// Reads an address relative to a base register at `pos`.
pub fn brelative_address_at(src: &Source, pos: usize) -> (parsed: Option<
    (BRelativeAddress, usize),
>)
    requires
        pos <= src@.len(),
    ensures
        parsed_as(parsed, spec_parse_brelative_address(src@, pos as int), pos, src@.len()),
{
    match sigil_base_register_at(src, pos) {
        None => None,
        Some((base, end)) => match dot_data_register_at(src, end) {
            Some((reg, indexed_end)) => Some((BRelativeAddress::Indexed(base, reg), indexed_end)),
            None => {
                if src.is_at(end, '.') {
                    match word_displacement_at(src, end + 1) {
                        Some((disp, disp_end)) => {
                            return Some((BRelativeAddress::Displacement(base, disp), disp_end));
                        },
                        None => {},
                    }
                }
                Some((BRelativeAddress::Simple(base), end))
            },
        },
    }
}

/// Reads one of the forms relative to a base register at `pos`.
pub fn brelative_addressing_at(src: &Source, pos: usize) -> (parsed: Option<
    (BRelativeAddressMode, usize),
>)
    requires
        pos <= src@.len(),
    ensures
        parsed_as(parsed, spec_parse_brelative_addressing(src@, pos as int), pos, src@.len()),
{
    // Push or pop
    if let Some((incdec, sign_end)) = incdec_sign_at(src, pos) {
        if let Some((base, end)) = sigil_base_register_at(src, sign_end) {
            return Some((BRelativeAddressMode::PushPop(base, incdec), end));
        }
    }
    // Increment or decrement with index
    if let Some((base, base_end)) = sigil_base_register_at(src, pos) {
        if src.is_at(base_end, '.') {
            if let Some((incdec, sign_end)) = incdec_sign_at(src, base_end + 1) {
                if let Some((reg, end)) = sigil_data_register_at(src, sign_end) {
                    return Some((BRelativeAddressMode::IncDecIndexed(base, reg, incdec), end));
                }
            }
        }
    }
    // Indirect, then direct
    if src.is_at(pos, '*') {
        if let Some((addr, end)) = brelative_address_at(src, pos + 1) {
            return Some((BRelativeAddressMode::Indirect(addr), end));
        }
    }
    match brelative_address_at(src, pos) {
        Some((addr, end)) => Some((BRelativeAddressMode::Direct(addr), end)),
        None => None,
    }
}

/// Reads an address syllable at `pos`.
pub fn address_syllable_at(src: &Source, pos: usize) -> (parsed: Option<(AddressSyllable, usize)>)
    requires
        pos <= src@.len(),
    ensures
        parsed_view_as(parsed, spec_parse_address_syllable(src@, pos as int), pos, src@.len()),
{
    if src.is_at(pos, '=') {
        if let Some((reg, end)) = generic_register_at(src, pos + 1) {
            return Some((AddressSyllable::RegisterAddressing(reg), end));
        }
        if let Some((val, end)) = immediate_value_contents_at(src, pos + 1) {
            return Some((AddressSyllable::ImmediateOperand(val), end));
        }
    }
    if src.is_at(pos, '*') {
        if let Some((ia, end)) = immediate_address_at(src, pos + 1) {
            return Some(
                (AddressSyllable::ImmediateAddressing(ImmediateAddressMode::Indirect(ia)), end),
            );
        }
    }
    if let Some((ia, end)) = immediate_address_at(src, pos) {
        return Some((AddressSyllable::ImmediateAddressing(ImmediateAddressMode::Direct(ia)), end));
    }
    if let Some((ae, end)) = sigil_address_expression_at(src, pos, '*') {
        return Some((AddressSyllable::PRelative(PRelativeAddress::Indirect(ae)), end));
    }
    if let Some((ae, end)) = address_expression_at(src, pos) {
        return Some((AddressSyllable::PRelative(PRelativeAddress::Direct(ae)), end));
    }
    match brelative_addressing_at(src, pos) {
        Some((mode, end)) => Some((AddressSyllable::BRelative(mode), end)),
        None => None,
    }
}

} // verus!
