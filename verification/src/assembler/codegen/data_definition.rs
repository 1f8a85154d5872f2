use vstd::prelude::*;
use crate::assembler::codegen::common::{
    pack_field_value, spec_fits_field, spec_pack_field, spec_twos_complement, words_result_view,
};
use crate::assembler::errors::{error_view, AssemblerErrorKind, AssemblerErrorKindView};
use crate::assembler::statements::DataDefinitionSize;

verus! {

/// Number of bit patterns of one unit of a data definition.
pub open spec fn spec_unit_modulus(size: DataDefinitionSize) -> int {
    match size {
        DataDefinitionSize::Byte => 0x100,
        DataDefinitionSize::Word => 0x1_0000,
        DataDefinitionSize::DoubleWord => 0x1_0000_0000,
        DataDefinitionSize::QuadWord => 0x1_0000_0000_0000_0000,
    }
}

/// Number of words that `count` values of a unit size fill: two bytes share a
/// word, a double word takes two words, a quad word four.
pub open spec fn spec_data_definition_size(size: DataDefinitionSize, count: nat) -> nat {
    match size {
        DataDefinitionSize::Byte => (count + 1) / 2,
        DataDefinitionSize::Word => count,
        DataDefinitionSize::DoubleWord => 2 * count,
        DataDefinitionSize::QuadWord => 4 * count,
    }
}

/// Index of the first value at or after `from` that does not fit a unit.
pub open spec fn spec_first_unfit(values: Seq<i128>, modulus: int, from: int) -> Option<int>
    decreases values.len() - from,
{
    if from < 0 || from >= values.len() {
        None
    } else if !spec_fits_field(values[from] as int, modulus) {
        Some(from)
    } else {
        spec_first_unfit(values, modulus, from + 1)
    }
}

/// Bit pattern of the value at `index`, as one unit.
pub open spec fn spec_unit(values: Seq<i128>, modulus: int, index: int) -> int {
    spec_twos_complement(values[index] as int, modulus)
}

/// The word at position `k` of a data definition whose values all fit. Units
/// are laid out in order, most significant part first; a last single byte is
/// followed by a zero byte.
pub open spec fn spec_data_word(values: Seq<i128>, size: DataDefinitionSize, k: int) -> u16 {
    match size {
        DataDefinitionSize::Byte => (spec_unit(values, 0x100, 2 * k) * 0x100 + (if 2 * k + 1
            < values.len() {
            spec_unit(values, 0x100, 2 * k + 1)
        } else {
            0
        })) as u16,
        DataDefinitionSize::Word => spec_unit(values, 0x1_0000, k) as u16,
        DataDefinitionSize::DoubleWord => {
            let unit = spec_unit(values, 0x1_0000_0000, k / 2);
            if k % 2 == 0 {
                (unit / 0x1_0000) as u16
            } else {
                (unit % 0x1_0000) as u16
            }
        },
        DataDefinitionSize::QuadWord => {
            let unit = spec_unit(values, 0x1_0000_0000_0000_0000, k / 4);
            if k % 4 == 0 {
                (unit / 0x1_0000_0000_0000) as u16
            } else if k % 4 == 1 {
                ((unit / 0x1_0000_0000) % 0x1_0000) as u16
            } else if k % 4 == 2 {
                ((unit / 0x1_0000) % 0x1_0000) as u16
            } else {
                (unit % 0x1_0000) as u16
            }
        },
    }
}

/// The words of a data definition: every value packed into its unit, or the
/// first value that does not fit, reported as out of range.
pub open spec fn spec_codegen_data_definition(size: DataDefinitionSize, values: Seq<i128>) -> Result<
    Seq<u16>,
    AssemblerErrorKindView,
> {
    match spec_first_unfit(values, spec_unit_modulus(size), 0) {
        Some(i) => Err(AssemblerErrorKindView::DataDefinitionValueOutOfRange(values[i])),
        None => Ok(
            Seq::new(
                spec_data_definition_size(size, values.len()),
                |k: int| spec_data_word(values, size, k),
            ),
        ),
    }
}

/// One byte of a data definition: the value from 0 to 255 as it is, a negative
/// value down to -128 by its two's complement.
pub open spec fn spec_value_to_u8(value: i128) -> Result<u8, AssemblerErrorKindView> {
    match spec_pack_field(value, 0x100) {
        Some(bits) => Ok(bits as u8),
        None => Err(AssemblerErrorKindView::DataDefinitionValueOutOfRange(value)),
    }
}

/// One byte of a data definition.
pub fn value_to_u8(value: i128) -> (byte: Result<u8, AssemblerErrorKind>)
    ensures
        error_view(byte) == spec_value_to_u8(value),
{
    match pack_field_value(value, 0x100) {
        Some(bits) => Ok(bits as u8),
        None => Err(AssemblerErrorKind::DataDefinitionValueOutOfRange(value)),
    }
}

/// The words of a data definition in bytes: two bytes to a word, a last single
/// byte followed by a zero byte.
pub fn encode_values_to_byte(values: &[i128]) -> (words: Result<Vec<u16>, AssemblerErrorKind>)
    ensures
        words_result_view(words) == spec_codegen_data_definition(
            DataDefinitionSize::Byte,
            values@,
        ),
{
    let mut res: Vec<u16> = Vec::new();
    let n = values.len();
    let pairs = n / 2 + n % 2;
    let mut pair: usize = 0;
    while pair < pairs
        invariant
            n == values.len(),
            pairs == (n + 1) / 2,
            pair <= pairs,
            res.len() == pair,
            spec_first_unfit(values@, 0x100, 0) == spec_first_unfit(values@, 0x100, 2 * pair),
            forall|k: int|
                0 <= k < res.len() ==> res[k] == spec_data_word(
                    values@,
                    DataDefinitionSize::Byte,
                    k,
                ),
        decreases pairs - pair,
    {
        let start = pair * 2;
        let first = match value_to_u8(values[start]) {
            Ok(byte) => byte,
            Err(e) => {
                return Err(e);
            },
        };
        assert(spec_first_unfit(values@, 0x100, start as int) == spec_first_unfit(
            values@,
            0x100,
            start + 1,
        ));
        let second = if start + 1 < n {
            match value_to_u8(values[start + 1]) {
                Ok(byte) => byte,
                Err(e) => {
                    return Err(e);
                },
            }
        } else {
            0x00
        };
        assert(spec_first_unfit(values@, 0x100, start + 1) == spec_first_unfit(
            values@,
            0x100,
            start + 2,
        ));
        res.push(first as u16 * 0x100 + second as u16);
        pair = pair + 1;
    }
    assert(spec_first_unfit(values@, 0x100, 2 * pairs) is None);
    assert(res@ =~= Seq::new(
        spec_data_definition_size(DataDefinitionSize::Byte, values@.len()),
        |k: int| spec_data_word(values@, DataDefinitionSize::Byte, k),
    ));
    Ok(res)
}

fn encode_values_to_word(values: &[i128]) -> (words: Result<Vec<u16>, AssemblerErrorKind>)
    ensures
        words_result_view(words) == spec_codegen_data_definition(
            DataDefinitionSize::Word,
            values@,
        ),
{
    let mut res: Vec<u16> = Vec::new();
    let n = values.len();
    let mut i: usize = 0;
    while i < n
        invariant
            n == values.len(),
            i <= n,
            res.len() == i,
            spec_first_unfit(values@, 0x1_0000, 0) == spec_first_unfit(values@, 0x1_0000, i as int),
            forall|k: int|
                0 <= k < res.len() ==> res[k] == spec_data_word(
                    values@,
                    DataDefinitionSize::Word,
                    k,
                ),
        decreases n - i,
    {
        let value = values[i];
        let word = match pack_field_value(value, 0x1_0000) {
            Some(bits) => bits as u16,
            None => {
                return Err(AssemblerErrorKind::DataDefinitionValueOutOfRange(value));
            },
        };
        res.push(word);
        i = i + 1;
    }
    assert(res@ =~= Seq::new(
        spec_data_definition_size(DataDefinitionSize::Word, values@.len()),
        |k: int| spec_data_word(values@, DataDefinitionSize::Word, k),
    ));
    Ok(res)
}

fn encode_values_to_doubleword(values: &[i128]) -> (words: Result<Vec<u16>, AssemblerErrorKind>)
    ensures
        words_result_view(words) == spec_codegen_data_definition(
            DataDefinitionSize::DoubleWord,
            values@,
        ),
{
    let mut res: Vec<u16> = Vec::new();
    let n = values.len();
    let mut i: usize = 0;
    while i < n
        invariant
            n == values.len(),
            i <= n,
            res.len() == 2 * i,
            spec_first_unfit(values@, 0x1_0000_0000, 0) == spec_first_unfit(
                values@,
                0x1_0000_0000,
                i as int,
            ),
            forall|k: int|
                0 <= k < res.len() ==> res[k] == spec_data_word(
                    values@,
                    DataDefinitionSize::DoubleWord,
                    k,
                ),
        decreases n - i,
    {
        let value = values[i];
        let unit = match pack_field_value(value, 0x1_0000_0000) {
            Some(bits) => bits,
            None => {
                return Err(AssemblerErrorKind::DataDefinitionValueOutOfRange(value));
            },
        };
        res.push((unit / 0x1_0000) as u16);
        res.push((unit % 0x1_0000) as u16);
        i = i + 1;
    }
    assert(res@ =~= Seq::new(
        spec_data_definition_size(DataDefinitionSize::DoubleWord, values@.len()),
        |k: int| spec_data_word(values@, DataDefinitionSize::DoubleWord, k),
    ));
    Ok(res)
}

fn encode_values_to_quadword(values: &[i128]) -> (words: Result<Vec<u16>, AssemblerErrorKind>)
    ensures
        words_result_view(words) == spec_codegen_data_definition(
            DataDefinitionSize::QuadWord,
            values@,
        ),
{
    let mut res: Vec<u16> = Vec::new();
    let n = values.len();
    let mut i: usize = 0;
    while i < n
        invariant
            n == values.len(),
            i <= n,
            res.len() == 4 * i,
            spec_first_unfit(values@, 0x1_0000_0000_0000_0000, 0) == spec_first_unfit(
                values@,
                0x1_0000_0000_0000_0000,
                i as int,
            ),
            forall|k: int|
                0 <= k < res.len() ==> res[k] == spec_data_word(
                    values@,
                    DataDefinitionSize::QuadWord,
                    k,
                ),
        decreases n - i,
    {
        let value = values[i];
        let unit = match pack_field_value(value, 0x1_0000_0000_0000_0000) {
            Some(bits) => bits,
            None => {
                return Err(AssemblerErrorKind::DataDefinitionValueOutOfRange(value));
            },
        };
        res.push((unit / 0x1_0000_0000_0000) as u16);
        res.push(((unit / 0x1_0000_0000) % 0x1_0000) as u16);
        res.push(((unit / 0x1_0000) % 0x1_0000) as u16);
        res.push((unit % 0x1_0000) as u16);
        i = i + 1;
    }
    assert(res@ =~= Seq::new(
        spec_data_definition_size(DataDefinitionSize::QuadWord, values@.len()),
        |k: int| spec_data_word(values@, DataDefinitionSize::QuadWord, k),
    ));
    Ok(res)
}

/// Generate data for a Data Definition directive
pub fn codegen_data_definition(size: &DataDefinitionSize, values: &Vec<i128>) -> (words: Result<
    Vec<u16>,
    AssemblerErrorKind,
>)
    ensures
        words_result_view(words) == spec_codegen_data_definition(*size, values@),
{
    match size {
        DataDefinitionSize::Byte => encode_values_to_byte(values.as_slice()),
        DataDefinitionSize::Word => encode_values_to_word(values.as_slice()),
        DataDefinitionSize::DoubleWord => encode_values_to_doubleword(values.as_slice()),
        DataDefinitionSize::QuadWord => encode_values_to_quadword(values.as_slice()),
    }
}

} // verus!
