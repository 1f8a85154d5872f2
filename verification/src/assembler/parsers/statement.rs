use vstd::prelude::*;
use vstd::string::*;
use crate::assembler::errors::{value_result_view, AssemblerErrorKind, AssemblerErrorKindView};
use crate::assembler::mnemonics::{Mnemonic, StatementKind, MNEMONIC_COUNT};
use crate::assembler::parsers::arguments::{
    parse_address_syllable_arg, parse_base_register_arg, parse_branch_location_arg,
    parse_data_register_arg, parse_definition_chunk_arg, parse_hex_address_arg,
    parse_immediate_value_arg, parse_maskword_arg, parse_mode_control_register_arg,
    parse_shift_distance_arg, spec_parse_address_syllable_arg,
    spec_parse_base_register_arg, spec_parse_branch_location_arg, spec_parse_data_register_arg,
    spec_parse_definition_chunk_arg, spec_parse_hex_address_arg,
    spec_parse_immediate_value_arg, spec_parse_maskword_arg,
    spec_parse_mode_control_register_arg, spec_parse_shift_distance_arg,
};
use crate::text::chars::{spec_to_uppercase, str_to_chars, texts_view, to_uppercase};
use crate::assembler::parsers::numbers::spec_rest;
use crate::assembler::parsers::opcodes::{
    match_branch_on_indicators_opcode, match_branch_on_registers_opcode,
    match_data_definition_size, match_double_operand_opcode, match_generic_opcode,
    match_shift_long_opcode, match_shift_short_opcode, match_short_value_immediate_opcode,
    match_single_operand_opcode, spec_branch_on_indicators_opcode,
    spec_branch_on_registers_opcode, spec_data_definition_size_of, spec_double_operand_opcode,
    spec_generic_opcode, spec_shift_long_opcode, spec_shift_short_opcode,
    spec_short_value_immediate_opcode, spec_single_operand_opcode,
};
use crate::assembler::parsers::operands::{label_identifier_at, spec_parse_label_identifier};
use crate::text::scan::{
    spec_is_at, spec_scan, spec_trim, trim, CharClass, Source,
};
use crate::assembler::statements::{
    AddressSyllable, AddressSyllableView, Register, Statement, StatementView,
};
use crate::text::strings::{spec_parse_escaped_string, string_end_at};

verus! {

/// What a family of instructions allows as its address syllable.
#[derive(Debug, Clone, Copy, PartialEq, Eq, Structural)]
pub enum AddressingRule {
    /// Any address syllable.
    Any,
    /// A register that is addressed directly must not be a base register.
    DataRegisterOnly,
    /// A register that is addressed directly must not be a data register.
    BaseRegisterOnly,
    /// No register may be addressed directly.
    MemoryOnly,
}

/// The family of the register that a double operand instruction names first.
#[derive(Debug, Clone, Copy, PartialEq, Eq, Structural)]
pub enum RegisterFamily {
    Data,
    Base,
    ModeControl,
}

/// The first mnemonic of the table, from position `from` on, whose text is
/// `text`.
pub open spec fn spec_match_mnemonic_from(text: Seq<char>, from: int) -> Option<Mnemonic>
    decreases MNEMONIC_COUNT - from,
{
    if from < 0 || from >= MNEMONIC_COUNT {
        None
    } else if Mnemonic::spec_at(from).spec_text() == text {
        Some(Mnemonic::spec_at(from))
    } else {
        spec_match_mnemonic_from(text, from + 1)
    }
}

/// The mnemonic whose text is `text`, if there is one.
pub open spec fn spec_match_mnemonic(text: Seq<char>) -> Option<Mnemonic> {
    spec_match_mnemonic_from(text, 0)
}

/// What `spec_match_mnemonic` finds has the text that was asked for, and it
/// finds nothing only if no mnemonic has that text.
pub proof fn lemma_match_mnemonic(text: Seq<char>, from: int)
    requires
        0 <= from <= MNEMONIC_COUNT,
    ensures
        match spec_match_mnemonic_from(text, from) {
            Some(m) => m.spec_text() == text,
            None => forall|m: Mnemonic| from <= m.spec_index() ==> m.spec_text() != text,
        },
    decreases MNEMONIC_COUNT - from,
{
    if from < MNEMONIC_COUNT {
        lemma_match_mnemonic(text, from + 1);
    }
    if spec_match_mnemonic_from(text, from) is None {
        assert forall|m: Mnemonic| from <= m.spec_index() implies m.spec_text() != text by {
            crate::assembler::mnemonics::lemma_mnemonic_index_in_range(m);
        }
    }
}

fn text_matches(chars: &Vec<char>, candidate: &str) -> (same: bool)
    ensures
        same == (chars@ == candidate@),
{
    let n = candidate.unicode_len();
    if n != chars.len() {
        return false;
    }
    let mut i: usize = 0;
    while i < n
        invariant
            n == chars.len(),
            n == candidate@.len(),
            i <= n,
            forall|k: int| 0 <= k < i ==> chars[k] == candidate@[k],
        decreases n - i,
    {
        if chars[i] != candidate.get_char(i) {
            return false;
        }
        i = i + 1;
    }
    assert(chars@ =~= candidate@);
    true
}

/// Matches a mnemonic string to its enum type
pub fn match_mnemonic(input: &str) -> (found: Result<Mnemonic, ()>)
    ensures
        match spec_match_mnemonic(input@) {
            Some(m) => found == Ok::<Mnemonic, ()>(m),
            None => found is Err,
        },
{
    let chars = str_to_chars(input);
    let mut i: usize = 0;
    while i < MNEMONIC_COUNT
        invariant
            i <= MNEMONIC_COUNT,
            chars@ == input@,
            spec_match_mnemonic(input@) == spec_match_mnemonic_from(input@, i as int),
        decreases MNEMONIC_COUNT - i,
    {
        match Mnemonic::from_index(i) {
            Some(candidate) => {
                if text_matches(&chars, candidate.display_value()) {
                    return Ok(candidate);
                }
            },
            None => {},
        }
        i = i + 1;
    }
    Err(())
}

/// The fault of a statement with the wrong number of operands.
pub open spec fn spec_wrong_arity(mnemo: Mnemonic, expected: usize, got: nat) -> AssemblerErrorKindView {
    AssemblerErrorKindView::WrongNumberOfArguments(mnemo, expected, got as usize)
}

/// The fault, if any, of an address syllable under the rule of a family.
pub open spec fn spec_check_addressing(
    rule: AddressingRule,
    addr_syl: AddressSyllableView,
    arg: Seq<char>,
    mnemo: Mnemonic,
) -> Option<AssemblerErrorKindView> {
    match addr_syl {
        AddressSyllableView::RegisterAddressing(reg) => match rule {
            AddressingRule::Any => None,
            AddressingRule::DataRegisterOnly => match reg {
                Register::Base(_) => Some(AssemblerErrorKindView::WrongRegisterType(arg, mnemo)),
                _ => None,
            },
            AddressingRule::BaseRegisterOnly => match reg {
                Register::Data(_) => Some(AssemblerErrorKindView::WrongRegisterType(arg, mnemo)),
                _ => None,
            },
            AddressingRule::MemoryOnly => Some(
                AssemblerErrorKindView::RegisterAddressingInvalid(mnemo),
            ),
        },
        _ => None,
    }
}

fn check_addressing(
    rule: AddressingRule,
    addr_syl: &AddressSyllable,
    arg: &String,
    mnemo: Mnemonic,
) -> (outcome: Result<(), AssemblerErrorKind>)
    ensures
        match spec_check_addressing(rule, addr_syl@, arg@, mnemo) {
            Some(e) => outcome is Err && outcome->Err_0@ == e,
            None => outcome is Ok,
        },
{
    match addr_syl {
        AddressSyllable::RegisterAddressing(reg) => match rule {
            AddressingRule::Any => Ok(()),
            AddressingRule::DataRegisterOnly => match reg {
                Register::Base(_) => Err(AssemblerErrorKind::WrongRegisterType(arg.clone(), mnemo)),
                _ => Ok(()),
            },
            AddressingRule::BaseRegisterOnly => match reg {
                Register::Data(_) => Err(AssemblerErrorKind::WrongRegisterType(arg.clone(), mnemo)),
                _ => Ok(()),
            },
            AddressingRule::MemoryOnly => Err(AssemblerErrorKind::RegisterAddressingInvalid(mnemo)),
        },
        _ => Ok(()),
    }
}

/// An origin directive: one operand, a hexadecimal address.
pub open spec fn spec_encapsulate_org(args: Seq<Seq<char>>) -> Result<
    StatementView,
    AssemblerErrorKindView,
> {
    if args.len() != 1 {
        Err(spec_wrong_arity(Mnemonic::DotORG, 1, args.len()))
    } else {
        match spec_parse_hex_address_arg(args[0]) {
            Err(e) => Err(e),
            Ok(address) => Ok(StatementView::Org(address)),
        }
    }
}

/// The values of the operands of a data definition from `from` on, in order;
/// the fault of the first operand that has one.
pub open spec fn spec_definition_values(args: Seq<Seq<char>>, from: int) -> Result<
    Seq<i128>,
    AssemblerErrorKindView,
>
    decreases args.len() - from,
{
    if from < 0 || from >= args.len() {
        Ok(Seq::empty())
    } else {
        match spec_parse_definition_chunk_arg(args[from]) {
            Err(e) => Err(e),
            Ok(chunk) => match spec_definition_values(args, from + 1) {
                Err(e) => Err(e),
                Ok(rest) => Ok(chunk + rest),
            },
        }
    }
}

/// A data definition: at least one operand, each a number or a string.
pub open spec fn spec_encapsulate_data_definition(mnemo: Mnemonic, args: Seq<Seq<char>>) -> Result<
    StatementView,
    AssemblerErrorKindView,
> {
    if args.len() == 0 {
        Err(spec_wrong_arity(mnemo, 0, 0))
    } else {
        match spec_definition_values(args, 0) {
            Err(e) => Err(e),
            Ok(values) => Ok(
                StatementView::DataDefinition(spec_data_definition_size_of(mnemo)->Some_0, values),
            ),
        }
    }
}

/// A branch on indicators: one operand, the branch location.
pub open spec fn spec_encapsulate_branch_on_indicators(
    mnemo: Mnemonic,
    args: Seq<Seq<char>>,
) -> Result<StatementView, AssemblerErrorKindView> {
    if args.len() != 1 {
        Err(spec_wrong_arity(mnemo, 1, args.len()))
    } else {
        match spec_parse_branch_location_arg(args[0]) {
            Err(e) => Err(e),
            Ok(branchloc) => Ok(
                StatementView::BranchOnIndicators(
                    spec_branch_on_indicators_opcode(mnemo)->Some_0,
                    branchloc,
                ),
            ),
        }
    }
}

/// A branch on registers: a data register and the branch location.
pub open spec fn spec_encapsulate_branch_on_registers(
    mnemo: Mnemonic,
    args: Seq<Seq<char>>,
) -> Result<StatementView, AssemblerErrorKindView> {
    if args.len() != 2 {
        Err(spec_wrong_arity(mnemo, 2, args.len()))
    } else {
        match spec_parse_data_register_arg(args[0]) {
            Err(e) => Err(e),
            Ok(reg) => match spec_parse_branch_location_arg(args[1]) {
                Err(e) => Err(e),
                Ok(branchloc) => Ok(
                    StatementView::BranchOnRegisters(
                        spec_branch_on_registers_opcode(mnemo)->Some_0,
                        reg,
                        branchloc,
                    ),
                ),
            },
        }
    }
}

/// A short value immediate instruction: a data register and an immediate
/// value.
pub open spec fn spec_encapsulate_short_value_immediate(
    mnemo: Mnemonic,
    args: Seq<Seq<char>>,
) -> Result<StatementView, AssemblerErrorKindView> {
    if args.len() != 2 {
        Err(spec_wrong_arity(mnemo, 2, args.len()))
    } else {
        match spec_parse_data_register_arg(args[0]) {
            Err(e) => Err(e),
            Ok(reg) => match spec_parse_immediate_value_arg(args[1]) {
                Err(e) => Err(e),
                Ok(val) => Ok(
                    StatementView::ShortValueImmediate(
                        spec_short_value_immediate_opcode(mnemo)->Some_0,
                        reg,
                        val,
                    ),
                ),
            },
        }
    }
}

/// The mask of a masked instruction: the operand at `index` if there is one,
/// else 0.
pub open spec fn spec_optional_mask(args: Seq<Seq<char>>, index: int) -> Result<
    i128,
    AssemblerErrorKindView,
> {
    if args.len() > index {
        spec_parse_maskword_arg(args[index])
    } else {
        Ok(0i128)
    }
}

/// An address syllable operand that also meets the rule of its family.
pub open spec fn spec_ruled_address_syllable(
    rule: AddressingRule,
    arg: Seq<char>,
    mnemo: Mnemonic,
) -> Result<AddressSyllableView, AssemblerErrorKindView> {
    match spec_parse_address_syllable_arg(arg) {
        Err(e) => Err(e),
        Ok(addr_syl) => match spec_check_addressing(rule, addr_syl, arg, mnemo) {
            Some(e) => Err(e),
            None => Ok(addr_syl),
        },
    }
}

/// A single operand instruction: an address syllable, which must meet the rule
/// of the family. A masked family takes a mask as an optional second operand;
/// the mask is judged first and is 0 where it is left out.
pub open spec fn spec_encapsulate_single_operand(
    mnemo: Mnemonic,
    args: Seq<Seq<char>>,
    rule: AddressingRule,
    masked: bool,
) -> Result<StatementView, AssemblerErrorKindView> {
    if masked {
        if args.len() < 1 || args.len() > 2 {
            Err(spec_wrong_arity(mnemo, 1, args.len()))
        } else {
            match spec_optional_mask(args, 1) {
                Err(e) => Err(e),
                Ok(mask) => match spec_ruled_address_syllable(rule, args[0], mnemo) {
                    Err(e) => Err(e),
                    Ok(addr_syl) => Ok(
                        StatementView::SingleOperand(
                            spec_single_operand_opcode(mnemo)->Some_0,
                            addr_syl,
                            Some(mask),
                        ),
                    ),
                },
            }
        }
    } else {
        if args.len() != 1 {
            Err(spec_wrong_arity(mnemo, 1, args.len()))
        } else {
            match spec_ruled_address_syllable(rule, args[0], mnemo) {
                Err(e) => Err(e),
                Ok(addr_syl) => Ok(
                    StatementView::SingleOperand(
                        spec_single_operand_opcode(mnemo)->Some_0,
                        addr_syl,
                        None,
                    ),
                ),
            }
        }
    }
}

/// A generic instruction: no operand.
pub open spec fn spec_encapsulate_generic(mnemo: Mnemonic, args: Seq<Seq<char>>) -> Result<
    StatementView,
    AssemblerErrorKindView,
> {
    if args.len() != 0 {
        Err(spec_wrong_arity(mnemo, 0, args.len()))
    } else {
        Ok(StatementView::Generic(spec_generic_opcode(mnemo)->Some_0))
    }
}

/// The register that a double operand instruction names first, of the family
/// that the instruction asks for.
pub open spec fn spec_parse_family_register_arg(family: RegisterFamily, arg: Seq<char>) -> Result<
    Register,
    AssemblerErrorKindView,
> {
    match family {
        RegisterFamily::Data => match spec_parse_data_register_arg(arg) {
            Err(e) => Err(e),
            Ok(reg) => Ok(Register::Data(reg)),
        },
        RegisterFamily::Base => match spec_parse_base_register_arg(arg) {
            Err(e) => Err(e),
            Ok(reg) => Ok(Register::Base(reg)),
        },
        RegisterFamily::ModeControl => match spec_parse_mode_control_register_arg(arg) {
            Err(e) => Err(e),
            Ok(reg) => Ok(Register::ModeControl(reg)),
        },
    }
}

/// A double operand instruction: a register of the family's kind and an
/// address syllable, which must meet the rule of the family. A masked family
/// takes a mask as an optional third operand; the mask is judged first and is
/// 0 where it is left out.
pub open spec fn spec_encapsulate_double_operand(
    mnemo: Mnemonic,
    args: Seq<Seq<char>>,
    family: RegisterFamily,
    rule: AddressingRule,
    masked: bool,
) -> Result<StatementView, AssemblerErrorKindView> {
    if args.len() < 2 || args.len() > (if masked {
        3nat
    } else {
        2nat
    }) {
        Err(spec_wrong_arity(mnemo, 2, args.len()))
    } else {
        match (if masked {
            spec_optional_mask(args, 2)
        } else {
            Ok(0i128)
        }) {
            Err(e) => Err(e),
            Ok(mask) => match spec_parse_family_register_arg(family, args[0]) {
                Err(e) => Err(e),
                Ok(reg) => match spec_ruled_address_syllable(rule, args[1], mnemo) {
                    Err(e) => Err(e),
                    Ok(addr_syl) => Ok(
                        StatementView::DoubleOperand(
                            spec_double_operand_opcode(mnemo)->Some_0,
                            reg,
                            addr_syl,
                            if masked {
                                Some(mask)
                            } else {
                                None
                            },
                        ),
                    ),
                },
            },
        }
    }
}

/// A shift: a data register and the distance.
pub open spec fn spec_encapsulate_shift(mnemo: Mnemonic, args: Seq<Seq<char>>, long: bool) -> Result<
    StatementView,
    AssemblerErrorKindView,
> {
    if args.len() != 2 {
        Err(spec_wrong_arity(mnemo, 2, args.len()))
    } else {
        match spec_parse_data_register_arg(args[0]) {
            Err(e) => Err(e),
            Ok(reg) => match spec_parse_shift_distance_arg(args[1]) {
                Err(e) => Err(e),
                Ok(dist) => if long {
                    Ok(StatementView::ShiftLong(spec_shift_long_opcode(mnemo)->Some_0, reg, dist))
                } else {
                    Ok(StatementView::ShiftShort(spec_shift_short_opcode(mnemo)->Some_0, reg, dist))
                },
            },
        }
    }
}

/// The statement that a mnemonic and its operands stand for, by the family of
/// the mnemonic.
pub open spec fn spec_encapsulate(mnemo: Mnemonic, args: Seq<Seq<char>>) -> Result<
    StatementView,
    AssemblerErrorKindView,
> {
    match mnemo.spec_kind() {
        StatementKind::Org => spec_encapsulate_org(args),
        StatementKind::DataDefinition => spec_encapsulate_data_definition(mnemo, args),
        StatementKind::BranchOnIndicators => spec_encapsulate_branch_on_indicators(mnemo, args),
        StatementKind::NoOp => spec_encapsulate_branch_on_indicators(mnemo, args),
        StatementKind::BranchOnRegisters => spec_encapsulate_branch_on_registers(mnemo, args),
        StatementKind::ShortValueImmediate => spec_encapsulate_short_value_immediate(mnemo, args),
        StatementKind::SingleOperandData => spec_encapsulate_single_operand(
            mnemo,
            args,
            AddressingRule::DataRegisterOnly,
            false,
        ),
        StatementKind::SingleOperandBase => spec_encapsulate_single_operand(
            mnemo,
            args,
            AddressingRule::BaseRegisterOnly,
            false,
        ),
        StatementKind::SingleOperandMemonly => spec_encapsulate_single_operand(
            mnemo,
            args,
            AddressingRule::MemoryOnly,
            false,
        ),
        StatementKind::SingleOperandDataMasked => spec_encapsulate_single_operand(
            mnemo,
            args,
            AddressingRule::DataRegisterOnly,
            true,
        ),
        StatementKind::SingleOperandMemonlyMasked => spec_encapsulate_single_operand(
            mnemo,
            args,
            AddressingRule::MemoryOnly,
            true,
        ),
        StatementKind::Generic => spec_encapsulate_generic(mnemo, args),
        StatementKind::DoubleOperandData => spec_encapsulate_double_operand(
            mnemo,
            args,
            RegisterFamily::Data,
            AddressingRule::DataRegisterOnly,
            false,
        ),
        StatementKind::DoubleOperandDataMasked => spec_encapsulate_double_operand(
            mnemo,
            args,
            RegisterFamily::Data,
            AddressingRule::DataRegisterOnly,
            true,
        ),
        StatementKind::DoubleOperandBase => spec_encapsulate_double_operand(
            mnemo,
            args,
            RegisterFamily::Base,
            AddressingRule::BaseRegisterOnly,
            false,
        ),
        StatementKind::DoubleOperandNoreg => spec_encapsulate_double_operand(
            mnemo,
            args,
            RegisterFamily::Base,
            AddressingRule::MemoryOnly,
            false,
        ),
        StatementKind::DoubleOperandMemonly => spec_encapsulate_double_operand(
            mnemo,
            args,
            RegisterFamily::Base,
            AddressingRule::MemoryOnly,
            false,
        ),
        StatementKind::DoubleOperandMode => spec_encapsulate_double_operand(
            mnemo,
            args,
            RegisterFamily::ModeControl,
            AddressingRule::Any,
            false,
        ),
        StatementKind::ShiftShort => spec_encapsulate_shift(mnemo, args, false),
        StatementKind::ShiftLong => spec_encapsulate_shift(mnemo, args, true),
    }
}

/// The statement that a mnemonic as written and its operands stand for. The
/// mnemonic is matched in upper case; one that the table does not hold is
/// reported as it was written.
pub open spec fn spec_encapsulate_statement(mnemonic: Seq<char>, args: Seq<Seq<char>>) -> Result<
    StatementView,
    AssemblerErrorKindView,
> {
    match spec_match_mnemonic(spec_to_uppercase(mnemonic)) {
        None => Err(AssemblerErrorKindView::UnkownMnemonic(mnemonic)),
        Some(mnemo) => spec_encapsulate(mnemo, args),
    }
}

fn wrong_arity(mnemo: Mnemonic, expected: usize, got: usize) -> (e: AssemblerErrorKind)
    ensures
        e@ == spec_wrong_arity(mnemo, expected, got as nat),
{
    AssemblerErrorKind::WrongNumberOfArguments(mnemo, expected, got)
}

/// The origin directive that the operands stand for.
pub fn encapsulate_org_statement(args: &[String]) -> (statement: Result<
    Statement,
    AssemblerErrorKind,
>)
    ensures
        value_result_view(statement) == spec_encapsulate_org(texts_view(args@)),
{
    if args.len() != 1 {
        return Err(wrong_arity(Mnemonic::DotORG, 1, args.len()));
    }
    let address = match parse_hex_address_arg(args[0].as_str()) {
        Ok(address) => address,
        Err(e) => {
            return Err(e);
        },
    };
    Ok(Statement::Org(address))
}

/// The data definition that a directive and its operands stand for.
pub fn encapsulate_data_definition_statement(mnemo: Mnemonic, args: &[String]) -> (statement:
    Result<Statement, AssemblerErrorKind>)
    requires
        spec_data_definition_size_of(mnemo) is Some,
    ensures
        value_result_view(statement) == spec_encapsulate_data_definition(
            mnemo,
            texts_view(args@),
        ),
{
    if args.len() == 0 {
        return Err(wrong_arity(mnemo, 0, args.len()));
    }
    let size = match_data_definition_size(&mnemo);
    let ghost texts = texts_view(args@);
    let mut values: Vec<i128> = Vec::new();
    let mut i: usize = 0;
    while i < args.len()
        invariant
            i <= args.len(),
            texts == texts_view(args@),
            spec_definition_values(texts, 0) == (match spec_definition_values(texts, i as int) {
                Err(e) => Err::<Seq<i128>, AssemblerErrorKindView>(e),
                Ok(rest) => Ok(values@ + rest),
            }),
        decreases args.len() - i,
    {
        let ghost before = values@;
        let mut chunk = match parse_definition_chunk_arg(args[i].as_str()) {
            Ok(chunk) => chunk,
            Err(e) => {
                return Err(e);
            },
        };
        proof {
            let rest = spec_definition_values(texts, i + 1);
            if rest is Ok {
                assert(before + (chunk@ + rest->Ok_0) =~= (before + chunk@) + rest->Ok_0);
            }
        }
        values.append(&mut chunk);
        i = i + 1;
    }
    proof {
        assert(values@ + Seq::<i128>::empty() =~= values@);
    }
    Ok(Statement::DataDefinition(size, values))
}

/// The branch on indicators that a mnemonic and its operands stand for.
pub fn encapsulate_branch_on_indicators_statement(mnemo: Mnemonic, args: &[String]) -> (statement:
    Result<Statement, AssemblerErrorKind>)
    requires
        spec_branch_on_indicators_opcode(mnemo) is Some,
    ensures
        value_result_view(statement) == spec_encapsulate_branch_on_indicators(
            mnemo,
            texts_view(args@),
        ),
{
    if args.len() != 1 {
        return Err(wrong_arity(mnemo, 1, args.len()));
    }
    let op = match_branch_on_indicators_opcode(&mnemo);
    let branchloc = match parse_branch_location_arg(args[0].as_str()) {
        Ok(branchloc) => branchloc,
        Err(e) => {
            return Err(e);
        },
    };
    Ok(Statement::BranchOnIndicators(op, branchloc))
}

/// The branch on registers that a mnemonic and its operands stand for.
pub fn encapsulate_branch_on_registers_statement(mnemo: Mnemonic, args: &[String]) -> (statement:
    Result<Statement, AssemblerErrorKind>)
    requires
        spec_branch_on_registers_opcode(mnemo) is Some,
    ensures
        value_result_view(statement) == spec_encapsulate_branch_on_registers(
            mnemo,
            texts_view(args@),
        ),
{
    if args.len() != 2 {
        return Err(wrong_arity(mnemo, 2, args.len()));
    }
    let op = match_branch_on_registers_opcode(&mnemo);
    let reg = match parse_data_register_arg(args[0].as_str()) {
        Ok(reg) => reg,
        Err(e) => {
            return Err(e);
        },
    };
    let branchloc = match parse_branch_location_arg(args[1].as_str()) {
        Ok(branchloc) => branchloc,
        Err(e) => {
            return Err(e);
        },
    };
    Ok(Statement::BranchOnRegisters(op, reg, branchloc))
}

/// The short value immediate instruction that a mnemonic and its operands
/// stand for.
pub fn encapsulate_short_value_immediate_statement(mnemo: Mnemonic, args: &[String]) -> (statement:
    Result<Statement, AssemblerErrorKind>)
    requires
        spec_short_value_immediate_opcode(mnemo) is Some,
    ensures
        value_result_view(statement) == spec_encapsulate_short_value_immediate(
            mnemo,
            texts_view(args@),
        ),
{
    if args.len() != 2 {
        return Err(wrong_arity(mnemo, 2, args.len()));
    }
    let op = match_short_value_immediate_opcode(&mnemo);
    let reg = match parse_data_register_arg(args[0].as_str()) {
        Ok(reg) => reg,
        Err(e) => {
            return Err(e);
        },
    };
    let val = match parse_immediate_value_arg(args[1].as_str()) {
        Ok(val) => val,
        Err(e) => {
            return Err(e);
        },
    };
    Ok(Statement::ShortValueImmediate(op, reg, val))
}

fn optional_mask(args: &[String], index: usize) -> (mask: Result<i128, AssemblerErrorKind>)
    ensures
        crate::assembler::errors::error_view(mask) == spec_optional_mask(
            texts_view(args@),
            index as int,
        ),
{
    if args.len() > index {
        parse_maskword_arg(args[index].as_str())
    } else {
        Ok(0)
    }
}

fn ruled_address_syllable(rule: AddressingRule, arg: &String, mnemo: Mnemonic) -> (addr_syl: Result<
    AddressSyllable,
    AssemblerErrorKind,
>)
    ensures
        value_result_view(addr_syl) == spec_ruled_address_syllable(rule, arg@, mnemo),
{
    let addr_syl = match parse_address_syllable_arg(arg.as_str()) {
        Ok(addr_syl) => addr_syl,
        Err(e) => {
            return Err(e);
        },
    };
    match check_addressing(rule, &addr_syl, arg, mnemo) {
        Ok(()) => Ok(addr_syl),
        Err(e) => Err(e),
    }
}

fn encapsulate_single_operand(
    mnemo: Mnemonic,
    args: &[String],
    rule: AddressingRule,
    masked: bool,
) -> (statement: Result<Statement, AssemblerErrorKind>)
    requires
        spec_single_operand_opcode(mnemo) is Some,
    ensures
        value_result_view(statement) == spec_encapsulate_single_operand(
            mnemo,
            texts_view(args@),
            rule,
            masked,
        ),
{
    if masked {
        if args.len() < 1 || args.len() > 2 {
            return Err(wrong_arity(mnemo, 1, args.len()));
        }
        let mask = match optional_mask(args, 1) {
            Ok(mask) => mask,
            Err(e) => {
                return Err(e);
            },
        };
        let op = match_single_operand_opcode(&mnemo);
        let addr_syl = match ruled_address_syllable(rule, &args[0], mnemo) {
            Ok(addr_syl) => addr_syl,
            Err(e) => {
                return Err(e);
            },
        };
        Ok(Statement::SingleOperand(op, addr_syl, Some(mask)))
    } else {
        if args.len() != 1 {
            return Err(wrong_arity(mnemo, 1, args.len()));
        }
        let op = match_single_operand_opcode(&mnemo);
        let addr_syl = match ruled_address_syllable(rule, &args[0], mnemo) {
            Ok(addr_syl) => addr_syl,
            Err(e) => {
                return Err(e);
            },
        };
        Ok(Statement::SingleOperand(op, addr_syl, None))
    }
}

/// A single operand instruction on data: a register that is addressed directly
/// must not be a base register.
pub fn encapsulate_single_operand_data_statement(mnemo: Mnemonic, args: &[String]) -> (statement:
    Result<Statement, AssemblerErrorKind>)
    requires
        spec_single_operand_opcode(mnemo) is Some,
    ensures
        value_result_view(statement) == spec_encapsulate_single_operand(
            mnemo,
            texts_view(args@),
            AddressingRule::DataRegisterOnly,
            false,
        ),
{
    encapsulate_single_operand(mnemo, args, AddressingRule::DataRegisterOnly, false)
}

/// A single operand instruction on a base register: a register that is
/// addressed directly must not be a data register.
pub fn encapsulate_single_operand_base_statement(mnemo: Mnemonic, args: &[String]) -> (statement:
    Result<Statement, AssemblerErrorKind>)
    requires
        spec_single_operand_opcode(mnemo) is Some,
    ensures
        value_result_view(statement) == spec_encapsulate_single_operand(
            mnemo,
            texts_view(args@),
            AddressingRule::BaseRegisterOnly,
            false,
        ),
{
    encapsulate_single_operand(mnemo, args, AddressingRule::BaseRegisterOnly, false)
}

/// A single operand instruction on memory: no register may be addressed
/// directly.
pub fn encapsulate_single_operand_memonly_statement(mnemo: Mnemonic, args: &[String]) -> (statement:
    Result<Statement, AssemblerErrorKind>)
    requires
        spec_single_operand_opcode(mnemo) is Some,
    ensures
        value_result_view(statement) == spec_encapsulate_single_operand(
            mnemo,
            texts_view(args@),
            AddressingRule::MemoryOnly,
            false,
        ),
{
    encapsulate_single_operand(mnemo, args, AddressingRule::MemoryOnly, false)
}

/// A single operand instruction on data that takes a mask.
pub fn encapsulate_single_operand_data_masked_statement(
    mnemo: Mnemonic,
    args: &[String],
) -> (statement: Result<Statement, AssemblerErrorKind>)
    requires
        spec_single_operand_opcode(mnemo) is Some,
    ensures
        value_result_view(statement) == spec_encapsulate_single_operand(
            mnemo,
            texts_view(args@),
            AddressingRule::DataRegisterOnly,
            true,
        ),
{
    encapsulate_single_operand(mnemo, args, AddressingRule::DataRegisterOnly, true)
}

/// A single operand instruction on memory that takes a mask.
pub fn encapsulate_single_operand_memonly_masked_statement(
    mnemo: Mnemonic,
    args: &[String],
) -> (statement: Result<Statement, AssemblerErrorKind>)
    requires
        spec_single_operand_opcode(mnemo) is Some,
    ensures
        value_result_view(statement) == spec_encapsulate_single_operand(
            mnemo,
            texts_view(args@),
            AddressingRule::MemoryOnly,
            true,
        ),
{
    encapsulate_single_operand(mnemo, args, AddressingRule::MemoryOnly, true)
}

/// The generic instruction that a mnemonic stands for.
pub fn encapsulate_generic_statement(mnemo: Mnemonic, args: &[String]) -> (statement: Result<
    Statement,
    AssemblerErrorKind,
>)
    requires
        spec_generic_opcode(mnemo) is Some,
    ensures
        value_result_view(statement) == spec_encapsulate_generic(mnemo, texts_view(args@)),
{
    if args.len() != 0 {
        return Err(wrong_arity(mnemo, 0, args.len()));
    }
    Ok(Statement::Generic(match_generic_opcode(&mnemo)))
}

fn parse_family_register_arg(family: RegisterFamily, arg: &String) -> (reg: Result<
    Register,
    AssemblerErrorKind,
>)
    ensures
        crate::assembler::errors::error_view(reg) == spec_parse_family_register_arg(family, arg@),
{
    match family {
        RegisterFamily::Data => match parse_data_register_arg(arg.as_str()) {
            Err(e) => Err(e),
            Ok(reg) => Ok(Register::Data(reg)),
        },
        RegisterFamily::Base => match parse_base_register_arg(arg.as_str()) {
            Err(e) => Err(e),
            Ok(reg) => Ok(Register::Base(reg)),
        },
        RegisterFamily::ModeControl => match parse_mode_control_register_arg(arg.as_str()) {
            Err(e) => Err(e),
            Ok(reg) => Ok(Register::ModeControl(reg)),
        },
    }
}

/// The double operand instruction that a mnemonic and its operands stand for,
/// with the register family and the addressing rule of its kind.
pub fn encapsulate_double_operand_statement(
    mnemo: Mnemonic,
    args: &[String],
    family: RegisterFamily,
    rule: AddressingRule,
    masked: bool,
) -> (statement: Result<Statement, AssemblerErrorKind>)
    requires
        spec_double_operand_opcode(mnemo) is Some,
    ensures
        value_result_view(statement) == spec_encapsulate_double_operand(
            mnemo,
            texts_view(args@),
            family,
            rule,
            masked,
        ),
{
    let most: usize = if masked {
        3
    } else {
        2
    };
    if args.len() < 2 || args.len() > most {
        return Err(wrong_arity(mnemo, 2, args.len()));
    }
    let mask = if masked {
        match optional_mask(args, 2) {
            Ok(mask) => mask,
            Err(e) => {
                return Err(e);
            },
        }
    } else {
        0
    };
    let op = match_double_operand_opcode(&mnemo);
    let reg = match parse_family_register_arg(family, &args[0]) {
        Ok(reg) => reg,
        Err(e) => {
            return Err(e);
        },
    };
    let addr_syl = match ruled_address_syllable(rule, &args[1], mnemo) {
        Ok(addr_syl) => addr_syl,
        Err(e) => {
            return Err(e);
        },
    };
    Ok(Statement::DoubleOperand(op, reg, addr_syl, if masked {
        Some(mask)
    } else {
        None
    }))
}

/// The shift that a mnemonic and its operands stand for.
pub fn encapsulate_shift_statement(mnemo: Mnemonic, args: &[String], long: bool) -> (statement:
    Result<Statement, AssemblerErrorKind>)
    requires
        long ==> spec_shift_long_opcode(mnemo) is Some,
        !long ==> spec_shift_short_opcode(mnemo) is Some,
    ensures
        value_result_view(statement) == spec_encapsulate_shift(mnemo, texts_view(args@), long),
{
    if args.len() != 2 {
        return Err(wrong_arity(mnemo, 2, args.len()));
    }
    let reg = match parse_data_register_arg(args[0].as_str()) {
        Ok(reg) => reg,
        Err(e) => {
            return Err(e);
        },
    };
    let dist = match parse_shift_distance_arg(args[1].as_str()) {
        Ok(dist) => dist,
        Err(e) => {
            return Err(e);
        },
    };
    if long {
        Ok(Statement::ShiftLong(match_shift_long_opcode(&mnemo), reg, dist))
    } else {
        Ok(Statement::ShiftShort(match_shift_short_opcode(&mnemo), reg, dist))
    }
}

/// The statement that a mnemonic as written and its operands stand for.
pub fn encapsulate_statement(mnemonic_str: &str, args: &[String]) -> (statement: Result<
    Statement,
    AssemblerErrorKind,
>)
    ensures
        value_result_view(statement) == spec_encapsulate_statement(
            mnemonic_str@,
            texts_view(args@),
        ),
{
    let upper = to_uppercase(mnemonic_str);
    let mnemo = match match_mnemonic(upper.as_str()) {
        Ok(mnemonic) => mnemonic,
        Err(()) => {
            return Err(AssemblerErrorKind::UnkownMnemonic(String::from_str(mnemonic_str)));
        },
    };
    match mnemo.get_kind() {
        StatementKind::Org => encapsulate_org_statement(args),
        StatementKind::DataDefinition => encapsulate_data_definition_statement(mnemo, args),
        StatementKind::BranchOnIndicators => {
            encapsulate_branch_on_indicators_statement(mnemo, args)
        },
        StatementKind::NoOp => encapsulate_branch_on_indicators_statement(mnemo, args),
        StatementKind::BranchOnRegisters => encapsulate_branch_on_registers_statement(mnemo, args),
        StatementKind::ShortValueImmediate => {
            encapsulate_short_value_immediate_statement(mnemo, args)
        },
        StatementKind::SingleOperandData => encapsulate_single_operand_data_statement(mnemo, args),
        StatementKind::SingleOperandBase => encapsulate_single_operand_base_statement(mnemo, args),
        StatementKind::SingleOperandMemonly => {
            encapsulate_single_operand_memonly_statement(mnemo, args)
        },
        StatementKind::SingleOperandDataMasked => {
            encapsulate_single_operand_data_masked_statement(mnemo, args)
        },
        StatementKind::SingleOperandMemonlyMasked => {
            encapsulate_single_operand_memonly_masked_statement(mnemo, args)
        },
        StatementKind::Generic => encapsulate_generic_statement(mnemo, args),
        StatementKind::DoubleOperandData => encapsulate_double_operand_statement(
            mnemo,
            args,
            RegisterFamily::Data,
            AddressingRule::DataRegisterOnly,
            false,
        ),
        StatementKind::DoubleOperandDataMasked => encapsulate_double_operand_statement(
            mnemo,
            args,
            RegisterFamily::Data,
            AddressingRule::DataRegisterOnly,
            true,
        ),
        StatementKind::DoubleOperandBase => encapsulate_double_operand_statement(
            mnemo,
            args,
            RegisterFamily::Base,
            AddressingRule::BaseRegisterOnly,
            false,
        ),
        StatementKind::DoubleOperandNoreg => encapsulate_double_operand_statement(
            mnemo,
            args,
            RegisterFamily::Base,
            AddressingRule::MemoryOnly,
            false,
        ),
        StatementKind::DoubleOperandMemonly => encapsulate_double_operand_statement(
            mnemo,
            args,
            RegisterFamily::Base,
            AddressingRule::MemoryOnly,
            false,
        ),
        StatementKind::DoubleOperandMode => encapsulate_double_operand_statement(
            mnemo,
            args,
            RegisterFamily::ModeControl,
            AddressingRule::Any,
            false,
        ),
        StatementKind::ShiftShort => encapsulate_shift_statement(mnemo, args, false),
        StatementKind::ShiftLong => encapsulate_shift_statement(mnemo, args, true),
    }
}

/// End of an operand that starts at `pos`: strings, which may hold commas,
/// and runs of characters other than a comma, as long as one of them follows.
/// A string counts only where it starts right after the piece before it.
pub open spec fn spec_arg_block_end(s: Seq<char>, pos: int) -> int
    decreases s.len() - pos,
{
    if pos < 0 || pos >= s.len() {
        pos
    } else {
        match spec_parse_escaped_string(s, pos) {
            Some((_, end)) => if pos < end <= s.len() {
                spec_arg_block_end(s, end)
            } else {
                pos
            },
            None => {
                let end = spec_scan(s, pos, CharClass::NotComma);
                if pos < end <= s.len() {
                    spec_arg_block_end(s, end)
                } else {
                    pos
                }
            },
        }
    }
}

/// An operand at `pos`, with the blanks before it skipped: its text and the
/// position after it and the blanks that follow it.
pub open spec fn spec_parse_argument(s: Seq<char>, pos: int) -> Option<(Seq<char>, int)> {
    let start = spec_scan(s, pos, CharClass::Blank);
    let end = spec_arg_block_end(s, start);
    if end <= start {
        None
    } else {
        Some((s.subrange(start, end), spec_scan(s, end, CharClass::Blank)))
    }
}

/// The operands after the first: each a comma and an operand, as long as both
/// are there; and the position after the last of them.
pub open spec fn spec_more_arguments(s: Seq<char>, pos: int) -> (Seq<Seq<char>>, int)
    decreases s.len() - pos,
{
    if spec_is_at(s, pos, ',') {
        match spec_parse_argument(s, pos + 1) {
            None => (Seq::empty(), pos),
            Some((arg, next)) => if pos < next <= s.len() {
                let (rest, end) = spec_more_arguments(s, next);
                (seq![arg] + rest, end)
            } else {
                (Seq::empty(), pos)
            },
        }
    } else {
        (Seq::empty(), pos)
    }
}

/// The operands from `pos` on, separated by commas, and the position after
/// the last of them.
pub open spec fn spec_parse_arguments(s: Seq<char>, pos: int) -> (Seq<Seq<char>>, int) {
    match spec_parse_argument(s, pos) {
        None => (Seq::empty(), pos),
        Some((arg, next)) => {
            let (rest, end) = spec_more_arguments(s, next);
            (seq![arg] + rest, end)
        },
    }
}

/// A statement split into its mnemonic, which ends at the first space or
/// comma and must not be empty, and its operands; with them, what follows the
/// last operand.
pub open spec fn spec_parse_mnemonic_and_args(s: Seq<char>) -> Result<
    (Seq<char>, (Seq<char>, Seq<Seq<char>>)),
    AssemblerErrorKindView,
> {
    let mnemonic_end = spec_scan(s, 0, CharClass::NotSpaceOrComma);
    if mnemonic_end <= 0 {
        Err(AssemblerErrorKindView::MnemonicRequired)
    } else {
        let (args, end) = spec_parse_arguments(s, mnemonic_end);
        Ok((spec_rest(s, end), (s.subrange(0, mnemonic_end), args)))
    }
}

/// The statement that a line without its label stands for.
pub open spec fn spec_parse_statement(s: Seq<char>) -> Result<
    StatementView,
    AssemblerErrorKindView,
> {
    match spec_parse_mnemonic_and_args(s) {
        Err(e) => Err(e),
        Ok((_, (mnemonic, args))) => spec_encapsulate_statement(mnemonic, args),
    }
}

/// A label at the start of a line: an identifier and a colon. The outcome is
/// what follows the colon and the label in upper case.
pub open spec fn spec_parse_label(s: Seq<char>) -> Option<(Seq<char>, Seq<char>)> {
    match spec_parse_label_identifier(s, 0) {
        None => None,
        Some((name, end)) => if spec_is_at(s, end, ':') {
            Some((spec_rest(s, end + 1), spec_to_uppercase(name)))
        } else {
            None
        },
    }
}

/// Labels are looked up without regard to case: a definition and a reference
/// whose identifiers have the same upper-case form name the same entry of the
/// label table.
pub proof fn lemma_label_lookup_ignores_case(definition: Seq<char>, reference: Seq<char>)
    requires
        spec_parse_label(definition) is Some,
        spec_parse_label_identifier(reference, 0) is Some,
        crate::assembler::parsers::numbers::spec_parse_hex_u64(reference, 0) is None,
        spec_to_uppercase(spec_parse_label_identifier(definition, 0)->Some_0.0)
            == spec_to_uppercase(spec_parse_label_identifier(reference, 0)->Some_0.0),
    ensures
        crate::assembler::parsers::operands::spec_parse_address_expression(reference, 0) is Some,
        crate::assembler::parsers::operands::spec_parse_address_expression(reference, 0)->Some_0.0
            == crate::assembler::statements::AddressExpressionView::Label(
            spec_parse_label(definition)->Some_0.1,
        ),
{
}

/// What a line of code stands for: its label, if it has one, and its
/// statement, if anything follows the label. The statement is read from what
/// follows the label, without the white space around it.
pub open spec fn spec_parse_code_line(s: Seq<char>) -> (
    Option<Seq<char>>,
    Result<Option<StatementView>, AssemblerErrorKindView>,
) {
    let (label, rest) = match spec_parse_label(s) {
        Some((rest, label)) => (Some(label), rest),
        None => (None, s),
    };
    if rest.len() > 0 {
        match spec_parse_statement(spec_trim(rest)) {
            Ok(statement) => (label, Ok(Some(statement))),
            Err(e) => (label, Err(e)),
        }
    } else {
        (label, Ok(None))
    }
}

fn arg_block_end_at(src: &Source, pos: usize) -> (end: usize)
    requires
        pos <= src@.len(),
    ensures
        end == spec_arg_block_end(src@, pos as int),
        pos <= end <= src@.len(),
{
    let n = src.len();
    let mut i = pos;
    let mut done = false;
    while !done
        invariant
            n == src@.len(),
            pos <= i <= n,
            spec_arg_block_end(src@, pos as int) == spec_arg_block_end(src@, i as int),
            done ==> spec_arg_block_end(src@, i as int) == i,
        decreases n - i + (if done { 0int } else { 1int }),
    {
        match string_end_at(src, i) {
            Some(end) => {
                i = end;
            },
            None => {
                let end = src.scan(i, CharClass::NotComma);
                if end > i {
                    i = end;
                } else {
                    done = true;
                }
            },
        }
    }
    i
}

fn argument_at(src: &Source, pos: usize) -> (parsed: Option<(String, usize)>)
    requires
        pos <= src@.len(),
    ensures
        match spec_parse_argument(src@, pos as int) {
            Some((arg, next)) => parsed is Some && parsed->Some_0.0@ == arg && parsed->Some_0.1
                == next && pos < next <= src@.len(),
            None => parsed is None,
        },
{
    let start = src.scan(pos, CharClass::Blank);
    let end = arg_block_end_at(src, start);
    if end <= start {
        None
    } else {
        Some((src.owned(start, end), src.scan(end, CharClass::Blank)))
    }
}

/// Splits a statement into its mnemonic and its operands, and gives what
/// follows the last operand.
pub fn parse_mnemonic_and_args<'a>(input: &'a str) -> (parsed: Result<
    (&'a str, (&'a str, Vec<String>)),
    AssemblerErrorKind,
>)
    ensures
        match spec_parse_mnemonic_and_args(input@) {
            Ok((rest, (mnemonic, args))) => parsed is Ok && parsed->Ok_0.0@ == rest
                && parsed->Ok_0.1.0@ == mnemonic && texts_view(parsed->Ok_0.1.1@) == args,
            Err(e) => parsed is Err && parsed->Err_0@ == e,
        },
{
    let src = Source::new(input);
    let mnemonic_end = src.scan(0, CharClass::NotSpaceOrComma);
    if mnemonic_end == 0 {
        return Err(AssemblerErrorKind::MnemonicRequired);
    }
    let mnemonic = src.slice(0, mnemonic_end);
    let mut arguments: Vec<String> = Vec::new();
    let mut pos = mnemonic_end;
    match argument_at(&src, mnemonic_end) {
        None => {
            assert(texts_view(arguments@) =~= Seq::<Seq<char>>::empty());
        },
        Some((first, next)) => {
            let ghost first_text = first@;
            arguments.push(first);
            assert(texts_view(arguments@) =~= seq![first_text]);
            pos = next;
            let mut done = false;
            while !done
                invariant
                    pos <= src@.len(),
                    spec_parse_arguments(src@, mnemonic_end as int).0 == texts_view(arguments@)
                        + spec_more_arguments(src@, pos as int).0,
                    spec_parse_arguments(src@, mnemonic_end as int).1 == spec_more_arguments(
                        src@,
                        pos as int,
                    ).1,
                    done ==> spec_more_arguments(src@, pos as int) == (
                        Seq::<Seq<char>>::empty(),
                        pos as int,
                    ),
                decreases src@.len() - pos + (if done { 0int } else { 1int }),
            {
                if src.is_at(pos, ',') {
                    match argument_at(&src, pos + 1) {
                        None => {
                            done = true;
                        },
                        Some((arg, after)) => {
                            let ghost before = texts_view(arguments@);
                            let ghost arg_text = arg@;
                            arguments.push(arg);
                            proof {
                                assert(texts_view(arguments@) =~= before + seq![arg_text]);
                                assert(before + (seq![arg_text] + spec_more_arguments(
                                    src@,
                                    after as int,
                                ).0) =~= (before + seq![arg_text]) + spec_more_arguments(
                                    src@,
                                    after as int,
                                ).0);
                            }
                            pos = after;
                        },
                    }
                } else {
                    done = true;
                }
            }
            assert(texts_view(arguments@) + Seq::<Seq<char>>::empty() =~= texts_view(arguments@));
        },
    }
    Ok((src.slice(pos, src.len()), (mnemonic, arguments)))
}

/// Reads the statement of a line: the mnemonic, then the operands that the
/// family of the mnemonic asks for. What follows the operands is not looked
/// at, and nothing is handed back as left over.
pub fn parse_statement(input: &str) -> (parsed: Result<(&'static str, Statement), AssemblerErrorKind>)
    ensures
        match spec_parse_statement(input@) {
            Ok(statement) => parsed is Ok && parsed->Ok_0.0@ == Seq::<char>::empty()
                && parsed->Ok_0.1@ == statement,
            Err(e) => parsed is Err && parsed->Err_0@ == e,
        },
{
    let (_rest, (mnemonic, args)) = match parse_mnemonic_and_args(input) {
        Ok(res) => res,
        Err(e) => {
            return Err(e);
        },
    };
    proof {
        reveal_strlit("");
        assert(""@ =~= Seq::<char>::empty());
    }
    match encapsulate_statement(mnemonic, args.as_slice()) {
        Ok(statement) => Ok(("", statement)),
        Err(e) => Err(e),
    }
}

/// The model of an outcome that holds a slice of the text and a label.
pub open spec fn label_view(parsed: Option<(&str, String)>) -> Option<(Seq<char>, Seq<char>)> {
    match parsed {
        Some((rest, label)) => Some((rest@, label@)),
        None => None,
    }
}

/// Reads a label at the start of a line and gives what follows it and the
/// label in upper case.
pub fn parse_label<'a>(input: &'a str) -> (parsed: Option<(&'a str, String)>)
    ensures
        label_view(parsed) == spec_parse_label(input@),
{
    let src = Source::new(input);
    match label_identifier_at(&src, 0) {
        None => None,
        Some(end) => {
            if src.is_at(end, ':') {
                Some((src.slice(end + 1, src.len()), to_uppercase(src.slice(0, end))))
            } else {
                None
            }
        },
    }
}

/// The model of what a line of code stands for.
pub open spec fn code_line_view(
    parsed: (Option<String>, Result<Option<Statement>, AssemblerErrorKind>),
) -> (Option<Seq<char>>, Result<Option<StatementView>, AssemblerErrorKindView>) {
    (
        match parsed.0 {
            Some(label) => Some(label@),
            None => None,
        },
        match parsed.1 {
            Ok(Some(statement)) => Ok(Some(statement@)),
            Ok(None) => Ok(None),
            Err(e) => Err(e@),
        },
    )
}

/// Parse code line
pub fn parse_code_line(input: &str) -> (parsed: (
    Option<String>,
    Result<Option<Statement>, AssemblerErrorKind>,
))
    ensures
        code_line_view(parsed) == spec_parse_code_line(input@),
{
    let (rest, label) = match parse_label(input) {
        Some((rest, label)) => (rest, Some(label)),
        None => (input, None),
    };
    if rest.unicode_len() > 0 {
        match parse_statement(trim(rest)) {
            Ok((_, statement)) => (label, Ok(Some(statement))),
            Err(e) => (label, Err(e)),
        }
    } else {
        (label, Ok(None))
    }
}

} // verus!
