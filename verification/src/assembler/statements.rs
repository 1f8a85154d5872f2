use vstd::prelude::*;

verus! {

/// Width of one unit of a data definition directive.
#[derive(Debug, Clone, Copy, PartialEq, Eq, Structural)]
pub enum DataDefinitionSize {
    Byte,
    Word,
    DoubleWord,
    QuadWord,
}

/// Operations of the branch-on-indicators family.
#[derive(Debug, Clone, Copy, PartialEq, Eq, Structural)]
pub enum BranchOnIndicatorsOpCode {
    BL,
    BGE,
    BG,
    BLE,
    BOV,
    BNOV,
    BBT,
    BBF,
    BCT,
    BCF,
    BIOT,
    BIOF,
    BAL,
    BAGE,
    BE,
    BNE,
    BAG,
    BALE,
    BSU,
    BSE,
    NOP,
    B,
}

/// Operations of the branch-on-registers family.
#[derive(Debug, Clone, Copy, PartialEq, Eq, Structural)]
pub enum BranchOnRegistersOpCode {
    BLZ,
    BGEZ,
    BEZ,
    BNEZ,
    BGZ,
    BLEZ,
    BODD,
    BEVN,
    BINC,
    BDEC,
}

/// Operations that take a data register and a short immediate value.
#[derive(Debug, Clone, Copy, PartialEq, Eq, Structural)]
pub enum ShortValueImmediateOpCode {
    LDV,
    CMV,
    ADV,
    MLV,
}

/// Operations that take one address syllable.
#[derive(Debug, Clone, Copy, PartialEq, Eq, Structural)]
pub enum SingleOperandOpCode {
    INC,
    DEC,
    NEG,
    CPL,
    CL,
    CLH,
    CMZ,
    CMN,
    CAD,
    STS,
    JMP,
    ENT,
    LEV,
    SAVE,
    RSTR,
    LB,
    LBF,
    LBT,
    LBC,
    LBS,
    AID,
    LDI,
    SDI,
    SID,
}

/// Operations without operands.
#[derive(Debug, Clone, Copy, PartialEq, Eq, Structural)]
pub enum GenericOpCode {
    HLT,
    MCL,
    RTT,
    RTCN,
    RTCF,
    WDTN,
    WDTF,
    BRK,
    MMM,
    ASD,
    VLD,
    QOH,
    QOT,
    DQH,
    DQA,
    RSC,
}

/// Operations that take a register and an address syllable.
#[derive(Debug, Clone, Copy, PartialEq, Eq, Structural)]
pub enum DoubleOperandOpCode {
    LDR,
    STR,
    SRM,
    SWR,
    CMR,
    ADD,
    SUB,
    MUL,
    DIV,
    OR,
    XOR,
    AND,
    LDH,
    STH,
    CMH,
    ORH,
    XOH,
    ANH,
    LLH,
    MTM,
    STM,
    LDB,
    STB,
    CMB,
    SWB,
    LAB,
    LNJ,
}

/// Shifts of a single register.
#[derive(Debug, Clone, Copy, PartialEq, Eq, Structural)]
pub enum ShiftShortOpCode {
    SOL,
    SCL,
    SAL,
    DCL,
    SOR,
    SCR,
    SAR,
    DCR,
}

/// Shifts of a register pair.
#[derive(Debug, Clone, Copy, PartialEq, Eq, Structural)]
pub enum ShiftLongOpCode {
    DOL,
    DAL,
    DOR,
    DAR,
}

/// The seven data registers.
#[derive(Debug, Clone, Copy, PartialEq, Eq, Structural)]
pub enum DataRegister {
    R1,
    R2,
    R3,
    R4,
    R5,
    R6,
    R7,
}

/// The seven base registers.
#[derive(Debug, Clone, Copy, PartialEq, Eq, Structural)]
pub enum BaseRegister {
    B1,
    B2,
    B3,
    B4,
    B5,
    B6,
    B7,
}

/// The seven mode-control registers.
#[derive(Debug, Clone, Copy, PartialEq, Eq, Structural)]
pub enum ModeControlRegister {
    M1,
    M2,
    M3,
    M4,
    M5,
    M6,
    M7,
}

/// Direction of an automatic register update.
#[derive(Debug, Clone, Copy, PartialEq, Eq, Structural)]
pub enum IncDec {
    Increment,
    Decrement,
}

/// A register of any of the three families.
#[derive(Debug, Clone, Copy, PartialEq, Eq, Structural)]
pub enum Register {
    Data(DataRegister),
    Base(BaseRegister),
    ModeControl(ModeControlRegister),
}

/// An address as the source writes it; labels and displacements are resolved
/// only when code is generated.
#[derive(Debug, Clone, PartialEq)]
pub enum AddressExpression {
    Immediate(u64),
    Label(String),
    WordDisplacement(i128),
}

/// Target of a branch; the variant fixes the encoding of the branch field and
/// whether a word follows the instruction.
#[derive(Debug, Clone, PartialEq)]
pub enum BranchLocation {
    Absolute(AddressExpression),
    LongDisplacement(AddressExpression),
    ShortDisplacement(AddressExpression),
}

#[derive(Debug, Clone, PartialEq)]
pub enum ImmediateAddress {
    Simple(AddressExpression),
    Indexed(AddressExpression, DataRegister),
}

#[derive(Debug, Clone, PartialEq)]
pub enum ImmediateAddressMode {
    Direct(ImmediateAddress),
    Indirect(ImmediateAddress),
}

#[derive(Debug, Clone, PartialEq)]
pub enum PRelativeAddress {
    Direct(AddressExpression),
    Indirect(AddressExpression),
}

#[derive(Debug, Clone, Copy, PartialEq, Eq, Structural)]
pub enum BRelativeAddress {
    Simple(BaseRegister),
    Indexed(BaseRegister, DataRegister),
    Displacement(BaseRegister, i128),
}

#[derive(Debug, Clone, Copy, PartialEq, Eq, Structural)]
pub enum BRelativeAddressMode {
    Direct(BRelativeAddress),
    Indirect(BRelativeAddress),
    IncDecIndexed(BaseRegister, DataRegister, IncDec),
    PushPop(BaseRegister, IncDec),
}

/// How an instruction addresses its operand.
#[derive(Debug, Clone, PartialEq)]
pub enum AddressSyllable {
    RegisterAddressing(Register),
    ImmediateAddressing(ImmediateAddressMode),
    ImmediateOperand(i128),
    PRelative(PRelativeAddress),
    BRelative(BRelativeAddressMode),
}

/// One parsed line of the program: a directive or an instruction.
#[derive(Debug, Clone, PartialEq)]
pub enum Statement {
    Org(u64),
    DataDefinition(DataDefinitionSize, Vec<i128>),
    BranchOnIndicators(BranchOnIndicatorsOpCode, BranchLocation),
    BranchOnRegisters(BranchOnRegistersOpCode, DataRegister, BranchLocation),
    ShortValueImmediate(ShortValueImmediateOpCode, DataRegister, i128),
    SingleOperand(SingleOperandOpCode, AddressSyllable, Option<i128>),
    DoubleOperand(DoubleOperandOpCode, Register, AddressSyllable, Option<i128>),
    Generic(GenericOpCode),
    ShiftShort(ShiftShortOpCode, DataRegister, u64),
    ShiftLong(ShiftLongOpCode, DataRegister, u64),
}

/// Mathematical model of an `AddressExpression`: the label is a sequence of
/// characters.
pub enum AddressExpressionView {
    Immediate(u64),
    Label(Seq<char>),
    WordDisplacement(i128),
}

pub enum BranchLocationView {
    Absolute(AddressExpressionView),
    LongDisplacement(AddressExpressionView),
    ShortDisplacement(AddressExpressionView),
}

pub enum ImmediateAddressView {
    Simple(AddressExpressionView),
    Indexed(AddressExpressionView, DataRegister),
}

pub enum ImmediateAddressModeView {
    Direct(ImmediateAddressView),
    Indirect(ImmediateAddressView),
}

pub enum PRelativeAddressView {
    Direct(AddressExpressionView),
    Indirect(AddressExpressionView),
}

pub enum AddressSyllableView {
    RegisterAddressing(Register),
    ImmediateAddressing(ImmediateAddressModeView),
    ImmediateOperand(i128),
    PRelative(PRelativeAddressView),
    BRelative(BRelativeAddressMode),
}

/// Mathematical model of a `Statement`: data definitions hold a sequence of
/// values, labels are sequences of characters.
pub enum StatementView {
    Org(u64),
    DataDefinition(DataDefinitionSize, Seq<i128>),
    BranchOnIndicators(BranchOnIndicatorsOpCode, BranchLocationView),
    BranchOnRegisters(BranchOnRegistersOpCode, DataRegister, BranchLocationView),
    ShortValueImmediate(ShortValueImmediateOpCode, DataRegister, i128),
    SingleOperand(SingleOperandOpCode, AddressSyllableView, Option<i128>),
    DoubleOperand(DoubleOperandOpCode, Register, AddressSyllableView, Option<i128>),
    Generic(GenericOpCode),
    ShiftShort(ShiftShortOpCode, DataRegister, u64),
    ShiftLong(ShiftLongOpCode, DataRegister, u64),
}

impl View for AddressExpression {
    type V = AddressExpressionView;

    open spec fn view(&self) -> AddressExpressionView {
        match self {
            AddressExpression::Immediate(addr) => AddressExpressionView::Immediate(*addr),
            AddressExpression::Label(name) => AddressExpressionView::Label(name@),
            AddressExpression::WordDisplacement(disp) => AddressExpressionView::WordDisplacement(
                *disp,
            ),
        }
    }
}

impl View for BranchLocation {
    type V = BranchLocationView;

    open spec fn view(&self) -> BranchLocationView {
        match self {
            BranchLocation::Absolute(ae) => BranchLocationView::Absolute(ae@),
            BranchLocation::LongDisplacement(ae) => BranchLocationView::LongDisplacement(ae@),
            BranchLocation::ShortDisplacement(ae) => BranchLocationView::ShortDisplacement(ae@),
        }
    }
}

impl View for ImmediateAddress {
    type V = ImmediateAddressView;

    open spec fn view(&self) -> ImmediateAddressView {
        match self {
            ImmediateAddress::Simple(ae) => ImmediateAddressView::Simple(ae@),
            ImmediateAddress::Indexed(ae, reg) => ImmediateAddressView::Indexed(ae@, *reg),
        }
    }
}

impl View for ImmediateAddressMode {
    type V = ImmediateAddressModeView;

    open spec fn view(&self) -> ImmediateAddressModeView {
        match self {
            ImmediateAddressMode::Direct(ia) => ImmediateAddressModeView::Direct(ia@),
            ImmediateAddressMode::Indirect(ia) => ImmediateAddressModeView::Indirect(ia@),
        }
    }
}

impl View for PRelativeAddress {
    type V = PRelativeAddressView;

    open spec fn view(&self) -> PRelativeAddressView {
        match self {
            PRelativeAddress::Direct(ae) => PRelativeAddressView::Direct(ae@),
            PRelativeAddress::Indirect(ae) => PRelativeAddressView::Indirect(ae@),
        }
    }
}

impl View for AddressSyllable {
    type V = AddressSyllableView;

    open spec fn view(&self) -> AddressSyllableView {
        match self {
            AddressSyllable::RegisterAddressing(reg) => AddressSyllableView::RegisterAddressing(
                *reg,
            ),
            AddressSyllable::ImmediateAddressing(mode) => AddressSyllableView::ImmediateAddressing(
                mode@,
            ),
            AddressSyllable::ImmediateOperand(val) => AddressSyllableView::ImmediateOperand(*val),
            AddressSyllable::PRelative(pa) => AddressSyllableView::PRelative(pa@),
            AddressSyllable::BRelative(mode) => AddressSyllableView::BRelative(*mode),
        }
    }
}

impl View for Statement {
    type V = StatementView;

    open spec fn view(&self) -> StatementView {
        match self {
            Statement::Org(addr) => StatementView::Org(*addr),
            Statement::DataDefinition(size, values) => StatementView::DataDefinition(
                *size,
                values@,
            ),
            Statement::BranchOnIndicators(op, loc) => StatementView::BranchOnIndicators(*op, loc@),
            Statement::BranchOnRegisters(op, reg, loc) => StatementView::BranchOnRegisters(
                *op,
                *reg,
                loc@,
            ),
            Statement::ShortValueImmediate(op, reg, val) => StatementView::ShortValueImmediate(
                *op,
                *reg,
                *val,
            ),
            Statement::SingleOperand(op, syl, mask) => StatementView::SingleOperand(
                *op,
                syl@,
                *mask,
            ),
            Statement::DoubleOperand(op, reg, syl, mask) => StatementView::DoubleOperand(
                *op,
                *reg,
                syl@,
                *mask,
            ),
            Statement::Generic(op) => StatementView::Generic(*op),
            Statement::ShiftShort(op, reg, dist) => StatementView::ShiftShort(*op, *reg, *dist),
            Statement::ShiftLong(op, reg, dist) => StatementView::ShiftLong(*op, *reg, *dist),
        }
    }
}

} // verus!
