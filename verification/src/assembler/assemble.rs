use vstd::prelude::*;
use crate::assembler::codegen::{codegen, spec_codegen};
use crate::assembler::errors::{
    errors_view, AssemblerError, AssemblerErrorKindView, AssemblerErrorView,
};
use crate::assembler::labels::LabelTable;
use crate::assembler::parsers::statement::{parse_code_line, spec_parse_code_line};
use crate::assembler::size::{spec_saturate_u64, spec_statement_size, statement_size};
use crate::assembler::statements::{Statement, StatementView};
use crate::preprocessor::{CodeLine, LineLocation};

verus! {

/// A statement with the address that the first pass gave it.
struct AbstractBinaryLine {
    address: u64,
    statement: Statement,
    location: LineLocation,
}

/// The words of one statement, the address of the first of them, and the line
/// they come from.
#[derive(Debug, Clone, PartialEq)]
pub struct AssembledLine {
    pub address: u64,
    pub data: Vec<u16>,
    pub location: LineLocation,
}

/// Mathematical model of an `AssembledLine`.
pub struct AssembledLineView {
    pub address: u64,
    pub data: Seq<u16>,
    pub location: LineLocation,
}

impl View for AssembledLine {
    type V = AssembledLineView;

    open spec fn view(&self) -> AssembledLineView {
        AssembledLineView { address: self.address, data: self.data@, location: self.location }
    }
}

/// The model of each line of a list.
pub open spec fn assembled_view(lines: Seq<AssembledLine>) -> Seq<AssembledLineView> {
    Seq::new(lines.len(), |i: int| lines[i]@)
}

/// A statement that the first pass placed: its address, the statement, and the
/// line it comes from.
pub struct PlacedStatement {
    pub address: u64,
    pub statement: StatementView,
    pub location: LineLocation,
}

/// What the first pass knows after some lines: the address of the next
/// statement, the labels defined so far, the statements placed so far, and the
/// faults found so far.
pub struct PassOne {
    pub address: u64,
    pub labels: Map<Seq<char>, u64>,
    pub placed: Seq<PlacedStatement>,
    pub errors: Seq<AssemblerErrorView>,
}

/// The first pass on one line.
///
/// A fault of the statement is recorded. A label is defined at the current
/// address, unless it is defined already, which is recorded as a fault and
/// leaves the table as it was. An origin directive sets the current address
/// and places nothing; any other statement is placed at the current address,
/// which then moves on by the size of the statement, around the end of the
/// address space if it must.
pub open spec fn spec_pass_one_step(state: PassOne, line: CodeLine) -> PassOne {
    let (label, statement) = spec_parse_code_line(line.body@);
    let parse_errors = match statement {
        Err(kind) => state.errors.push(
            AssemblerErrorView { kind, location: Some(line.location) },
        ),
        Ok(_) => state.errors,
    };
    let (labels, errors) = match label {
        None => (state.labels, parse_errors),
        Some(name) => if state.labels.dom().contains(name) {
            (
                state.labels,
                parse_errors.push(
                    AssemblerErrorView {
                        kind: AssemblerErrorKindView::LabelDoubleDefinition(name),
                        location: Some(line.location),
                    },
                ),
            )
        } else {
            (state.labels.insert(name, state.address), parse_errors)
        },
    };
    match statement {
        Ok(Some(StatementView::Org(address))) => PassOne {
            address,
            labels,
            placed: state.placed,
            errors,
        },
        Ok(Some(st)) => PassOne {
            address: state.address.wrapping_add(spec_saturate_u64(spec_statement_size(st))),
            labels,
            placed: state.placed.push(
                PlacedStatement { address: state.address, statement: st, location: line.location },
            ),
            errors,
        },
        _ => PassOne { address: state.address, labels, placed: state.placed, errors },
    }
}

/// The first pass on the first `count` lines, starting at address 0 with an
/// empty label table.
pub open spec fn spec_pass_one(lines: Seq<CodeLine>, count: int) -> PassOne
    decreases count,
{
    if count <= 0 || count > lines.len() {
        PassOne { address: 0, labels: Map::empty(), placed: Seq::empty(), errors: Seq::empty() }
    } else {
        spec_pass_one_step(spec_pass_one(lines, count - 1), lines[count - 1])
    }
}

/// The second pass on the first `count` placed statements, with the complete
/// label table: the lines that could be encoded, in order, and the faults of
/// those that could not.
pub open spec fn spec_pass_two(
    placed: Seq<PlacedStatement>,
    labels: Map<Seq<char>, u64>,
    count: int,
) -> (Seq<AssembledLineView>, Seq<AssemblerErrorView>)
    decreases count,
{
    if count <= 0 || count > placed.len() {
        (Seq::empty(), Seq::empty())
    } else {
        let (lines, errors) = spec_pass_two(placed, labels, count - 1);
        let record = placed[count - 1];
        match spec_codegen(record.statement, record.address, labels) {
            Ok(words) => (
                lines.push(
                    AssembledLineView {
                        address: record.address,
                        data: words,
                        location: record.location,
                    },
                ),
                errors,
            ),
            Err(kind) => (
                lines,
                errors.push(AssemblerErrorView { kind, location: Some(record.location) }),
            ),
        }
    }
}

/// The outcome of both passes over a program: the lines that could be encoded
/// and every fault, those of the first pass before those of the second.
pub open spec fn spec_assemble(lines: Seq<CodeLine>) -> (
    Seq<AssembledLineView>,
    Seq<AssemblerErrorView>,
) {
    let first = spec_pass_one(lines, lines.len() as int);
    let (assembled, errors) = spec_pass_two(first.placed, first.labels, first.placed.len() as int);
    (assembled, first.errors + errors)
}

/// A label that is defined twice is reported when the first pass reaches its
/// second definition, with the line of that definition, and the table keeps
/// the address of the first.
pub proof fn lemma_label_double_definition(state: PassOne, line: CodeLine)
    requires
        spec_parse_code_line(line.body@).0 is Some,
        state.labels.dom().contains(spec_parse_code_line(line.body@).0->Some_0),
    ensures
        spec_pass_one_step(state, line).labels == state.labels,
        spec_pass_one_step(state, line).errors.len() > 0,
        spec_pass_one_step(state, line).errors.last() == (AssemblerErrorView {
            kind: AssemblerErrorKindView::LabelDoubleDefinition(
                spec_parse_code_line(line.body@).0->Some_0,
            ),
            location: Some(line.location),
        }),
{
}

/// Every line that the two passes produce holds exactly as many words as the
/// size of its statement, so that the addresses of the first pass are those at
/// which the second pass puts the words.
pub proof fn lemma_assembled_lines_have_statement_size(
    placed: Seq<PlacedStatement>,
    labels: Map<Seq<char>, u64>,
    count: int,
    i: int,
)
    requires
        0 <= count <= placed.len(),
        0 <= i < spec_pass_two(placed, labels, count).0.len(),
    ensures
        exists|k: int|
            0 <= k < count && spec_pass_two(placed, labels, count).0[i].address
                == placed[k].address && spec_pass_two(placed, labels, count).0[i].data.len()
                == spec_statement_size(#[trigger] placed[k].statement),
    decreases count,
{
    if count > 0 {
        let (lines, errors) = spec_pass_two(placed, labels, count - 1);
        let record = placed[count - 1];
        if i < lines.len() {
            lemma_assembled_lines_have_statement_size(placed, labels, count - 1, i);
        } else {
            crate::assembler::codegen::lemma_size_matches_codegen(
                record.statement,
                record.address,
                labels,
            );
            assert(spec_statement_size(placed[count - 1].statement) == spec_pass_two(
                placed,
                labels,
                count,
            ).0[i].data.len());
        }
    }
}

spec fn placed_view(list: Seq<AbstractBinaryLine>) -> Seq<PlacedStatement> {
    Seq::new(
        list.len(),
        |i: int|
            PlacedStatement {
                address: list[i].address,
                statement: list[i].statement@,
                location: list[i].location,
            },
    )
}

/// Assembles a list of `CodeLine`s to a list of `AssembledLine`s, containing the raw machine code
pub fn assemble(input: &[CodeLine]) -> (outcome: Result<
    Vec<AssembledLine>,
    (Vec<AssembledLine>, Vec<AssemblerError>),
>)
    ensures
        match outcome {
            Ok(lines) => spec_assemble(input@).1.len() == 0 && assembled_view(lines@)
                == spec_assemble(input@).0,
            Err((lines, errors)) => errors.len() > 0 && assembled_view(lines@) == spec_assemble(
                input@,
            ).0 && errors_view(errors@) == spec_assemble(input@).1,
        },
{
    let mut errors: Vec<AssemblerError> = Vec::new();
    let mut current_address: u64 = 0;

    // Create abstract binary list
    let mut abstract_binary_list: Vec<AbstractBinaryLine> = Vec::new();
    let mut label_table = LabelTable::new();
    let mut i: usize = 0;
    assert(placed_view(abstract_binary_list@) =~= Seq::<PlacedStatement>::empty());
    assert(errors_view(errors@) =~= Seq::<AssemblerErrorView>::empty());
    while i < input.len()
        invariant
            i <= input.len(),
            current_address == spec_pass_one(input@, i as int).address,
            label_table@ == spec_pass_one(input@, i as int).labels,
            placed_view(abstract_binary_list@) == spec_pass_one(input@, i as int).placed,
            errors_view(errors@) == spec_pass_one(input@, i as int).errors,
        decreases input.len() - i,
    {
        let line = &input[i];
        let ghost before = spec_pass_one(input@, i as int);

        // Parse code line
        let (label, parsed) = parse_code_line(line.body.as_str());
        let statement = match parsed {
            Ok(statement) => statement,
            Err(kind) => {
                let ghost shown = errors_view(errors@);
                let error = AssemblerError { kind, location: Some(line.location.clone()) };
                let ghost error_shown = error@;
                errors.push(error);
                assert(errors_view(errors@) =~= shown.push(error_shown));
                None
            },
        };

        // Handle inserting label into label table
        if let Some(label) = label {
            match label_table.define(label, current_address) {
                Ok(()) => {},
                Err(kind) => {
                    let ghost shown = errors_view(errors@);
                    let error = AssemblerError { kind, location: Some(line.location.clone()) };
                    let ghost error_shown = error@;
                    errors.push(error);
                    assert(errors_view(errors@) =~= shown.push(error_shown));
                },
            }
        }
        // Handle adding statements to abstract binary list

        if let Some(statement) = statement {
            match statement {
                Statement::Org(address) => {
                    // If statement is Org, change current address
                    current_address = address;
                },
                statement => {
                    // Calculate statement size in words
                    let size = statement_size(&statement, current_address);

                    // Add statement to Abstract Binary List
                    let ghost shown = placed_view(abstract_binary_list@);
                    let record = AbstractBinaryLine {
                        address: current_address,
                        statement,
                        location: line.location.clone(),
                    };
                    let ghost record_shown = PlacedStatement {
                        address: record.address,
                        statement: record.statement@,
                        location: record.location,
                    };
                    abstract_binary_list.push(record);
                    assert(placed_view(abstract_binary_list@) =~= shown.push(record_shown));

                    // Update current address with size of just processed statement
                    current_address = current_address.wrapping_add(size);
                },
            }
        }
        i = i + 1;
    }

    // Generate machine code
    let ghost first = spec_pass_one(input@, input@.len() as int);
    let first_errors = errors.len();
    let mut result: Vec<AssembledLine> = Vec::new();
    let mut k: usize = 0;
    assert(assembled_view(result@) =~= Seq::<AssembledLineView>::empty());
    assert(errors_view(errors@) =~= first.errors + Seq::<AssemblerErrorView>::empty());
    while k < abstract_binary_list.len()
        invariant
            k <= abstract_binary_list.len(),
            label_table@ == first.labels,
            placed_view(abstract_binary_list@) == first.placed,
            assembled_view(result@) == spec_pass_two(first.placed, first.labels, k as int).0,
            errors_view(errors@) == first.errors + spec_pass_two(
                first.placed,
                first.labels,
                k as int,
            ).1,
        decreases abstract_binary_list.len() - k,
    {
        let line = &abstract_binary_list[k];
        assert(first.placed[k as int] == (PlacedStatement {
            address: line.address,
            statement: line.statement@,
            location: line.location,
        }));
        // Generate binary for this statement
        match codegen(&line.statement, line.address, &label_table) {
            Ok(data) => {
                let ghost shown = assembled_view(result@);
                let assembled = AssembledLine {
                    address: line.address,
                    data,
                    location: line.location.clone(),
                };
                let ghost assembled_shown = assembled@;
                result.push(assembled);
                assert(assembled_view(result@) =~= shown.push(assembled_shown));
            },
            Err(kind) => {
                let ghost shown = errors_view(errors@);
                let ghost second = spec_pass_two(first.placed, first.labels, k as int).1;
                let error = AssemblerError { kind, location: Some(line.location.clone()) };
                let ghost error_shown = error@;
                errors.push(error);
                assert(errors_view(errors@) =~= shown.push(error_shown));
                assert(shown.push(error_shown) =~= first.errors + second.push(error_shown));
            },
        }
        k = k + 1;
    }

    // Return result based on whether an error occurred or not
    if errors.len() == 0 {
        Ok(result)
    } else {
        Err((result, errors))
    }
}

} // verus!
