use vstd::prelude::*;
use vstd::string::*;
use crate::assembler::assemble::{assembled_view, AssembledLine, AssembledLineView};
use crate::preprocessor::CodeLine;
use crate::text::{hex_upper, spec_hex_upper, spec_zero_padded, zero_padded};

verus! {

/// The text of the first `count` lines of code as the preprocessor writes it
/// out: each line is its code and a line end.
pub open spec fn spec_preprocessor_text(lines: Seq<CodeLine>, count: int) -> Seq<char>
    decreases count,
{
    if count <= 0 || count > lines.len() {
        Seq::empty()
    } else {
        spec_preprocessor_text(lines, count - 1) + lines[count - 1].body@ + "\r\n"@
    }
}

/// The text that the preprocessor writes to its output file.
pub fn write_preprocessor_output(lines: &[CodeLine]) -> (string: String)
    ensures
        string@ == spec_preprocessor_text(lines@, lines@.len() as int),
{
    let mut string = String::new();
    let mut i: usize = 0;
    while i < lines.len()
        invariant
            i <= lines.len(),
            string@ == spec_preprocessor_text(lines@, i as int),
        decreases lines.len() - i,
    {
        string.append(lines[i].body.as_str());
        string.append("\r\n");
        i = i + 1;
    }
    string
}

/// The bytes of a run of words: each word as two bytes, the more significant
/// first.
pub open spec fn spec_words_bytes(words: Seq<u16>) -> Seq<u8> {
    Seq::new(
        2 * words.len(),
        |i: int|
            if i % 2 == 0 {
                (words[i / 2] / 256) as u8
            } else {
                (words[i / 2] % 256) as u8
            },
    )
}

/// The bytes of the first `count` lines, in order.
pub open spec fn spec_binary_output(lines: Seq<AssembledLineView>, count: int) -> Seq<u8>
    decreases count,
{
    if count <= 0 || count > lines.len() {
        Seq::empty()
    } else {
        spec_binary_output(lines, count - 1) + spec_words_bytes(lines[count - 1].data)
    }
}

/// The bytes that the assembler writes to a binary file: every word of every
/// line, in order, the more significant byte first.
pub fn write_assembler_binary_output(lines: &[AssembledLine]) -> (output: Vec<u8>)
    ensures
        output@ == spec_binary_output(assembled_view(lines@), lines@.len() as int),
{
    let mut output: Vec<u8> = Vec::new();
    let mut i: usize = 0;
    while i < lines.len()
        invariant
            i <= lines.len(),
            output@ == spec_binary_output(assembled_view(lines@), i as int),
        decreases lines.len() - i,
    {
        let ghost before = output@;
        let data = &lines[i].data;
        let mut k: usize = 0;
        while k < data.len()
            invariant
                k <= data.len(),
                output@ == before + spec_words_bytes(data@.take(k as int)),
            decreases data.len() - k,
        {
            let word = data[k];
            output.push((word / 256) as u8);
            output.push((word % 256) as u8);
            assert(output@ =~= before + spec_words_bytes(data@.take(k + 1)));
            k = k + 1;
        }
        assert(data@.take(data.len() as int) =~= data@);
        i = i + 1;
    }
    output
}

/// A word of the listing: four hexadecimal digits, or more if the number needs
/// them.
pub open spec fn spec_listing_number(value: nat) -> Seq<char> {
    spec_zero_padded(spec_hex_upper(value), 4)
}

/// One cell of the words column: the word at `index` and a space, or five
/// spaces where the line has no such word.
pub open spec fn spec_listing_cell(data: Seq<u16>, index: int) -> Seq<char> {
    if 0 <= index < data.len() {
        spec_listing_number(data[index] as nat) + " "@
    } else {
        "     "@
    }
}

/// Row `row` of the listing of a line: the address and the source text on the
/// first row, blanks on the others, and two words on each.
pub open spec fn spec_listing_row(line: AssembledLineView, row: int) -> Seq<char> {
    (if row == 0 {
        spec_listing_number(line.address as nat)
    } else {
        "    "@
    }) + ":  "@ + spec_listing_cell(line.data, 2 * row) + spec_listing_cell(line.data, 2 * row + 1)
        + "   "@ + (if row == 0 {
        line.location.raw_content@
    } else {
        Seq::empty()
    }) + "\r\n"@
}

/// The first `rows` rows of the listing of a line.
pub open spec fn spec_listing_rows(line: AssembledLineView, rows: int) -> Seq<char>
    decreases rows,
{
    if rows <= 0 {
        Seq::empty()
    } else {
        spec_listing_rows(line, rows - 1) + spec_listing_row(line, rows - 1)
    }
}

/// The listing of a line: one row for each two words; nothing for a line
/// without words.
pub open spec fn spec_line_listing(line: AssembledLineView) -> Seq<char> {
    spec_listing_rows(line, (line.data.len() as int + 1) / 2)
}

/// The listing of the first `count` lines.
pub open spec fn spec_listing_output(lines: Seq<AssembledLineView>, count: int) -> Seq<char>
    decreases count,
{
    if count <= 0 || count > lines.len() {
        Seq::empty()
    } else {
        spec_listing_output(lines, count - 1) + spec_line_listing(lines[count - 1])
    }
}

fn listing_number(value: u64) -> (text: String)
    ensures
        text@ == spec_listing_number(value as nat),
{
    zero_padded(hex_upper(value as u128).as_str(), 4)
}

fn append_listing_cell(output: &mut String, data: &Vec<u16>, index: usize)
    ensures
        final(output)@ == old(output)@ + spec_listing_cell(data@, index as int),
{
    if index < data.len() {
        let ghost before = output@;
        let number = listing_number(data[index] as u64);
        output.append(number.as_str());
        output.append(" ");
        assert(output@ =~= before + (number@ + " "@));
    } else {
        output.append("     ");
    }
}

/// Generate listing for a single AssembledLine
pub fn generate_line_listing(line: &AssembledLine) -> (output: String)
    ensures
        output@ == spec_line_listing(line@),
{
    let mut output = String::new();
    let rows = line.data.len() / 2 + line.data.len() % 2;
    let mut row: usize = 0;
    while row < rows
        invariant
            row <= rows,
            rows == (line.data.len() + 1) / 2,
            output@ == spec_listing_rows(line@, row as int),
        decreases rows - row,
    {
        let ghost before = output@;
        // Compute address column
        if row == 0 {
            output.append(listing_number(line.address).as_str());
        } else {
            output.append("    ");
        }
        output.append(":  ");
        // Calculate instruction words field
        append_listing_cell(&mut output, &line.data, row * 2);
        append_listing_cell(&mut output, &line.data, row * 2 + 1);
        output.append("   ");
        if row == 0 {
            output.append(line.location.raw_content.as_str());
        } else {
            assert(output@ + Seq::<char>::empty() =~= output@);
        }
        output.append("\r\n");
        assert(output@ =~= before + spec_listing_row(line@, row as int));
        row = row + 1;
    }
    output
}

/// The text that the assembler writes to a listing file: the listing of every
/// line, in order.
pub fn write_assembler_listing_output(lines: &[AssembledLine]) -> (string: String)
    ensures
        string@ == spec_listing_output(assembled_view(lines@), lines@.len() as int),
{
    let mut string = String::new();
    let mut i: usize = 0;
    while i < lines.len()
        invariant
            i <= lines.len(),
            string@ == spec_listing_output(assembled_view(lines@), i as int),
        decreases lines.len() - i,
    {
        string.append(generate_line_listing(&lines[i]).as_str());
        i = i + 1;
    }
    string
}

} // verus!
