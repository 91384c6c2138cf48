use vstd::prelude::*;

verus! {

/// Comparison flags, reserved for a future compare/jump family of opcodes.
pub enum Flags {
    E,
    NE,
    GE,
    G,
    LE,
    L,
}

/// The closed instruction set.
#[derive(Hash, Debug, PartialEq, Eq, Structural, Clone, Copy)]
pub enum Instruction {
    NOP,
    HLT,
    ADD,
    SUB,
    MUL,
    DIV,
    LOD,
    STO,
    EXEC,
}

/// The eight registers of the register file.
#[derive(Hash, Debug, PartialEq, Eq, Structural, Clone, Copy)]
pub enum Register {
    RA,
    RB,
    RC,
    RD,
    RE,
    RF,
    RJ,
    RK,
}

/// A memory cell: an opcode, a signed immediate, or a register reference.
#[derive(Hash, Debug, PartialEq, Eq, Structural, Clone, Copy)]
pub enum Handle {
    Inst(Instruction),
    Imm(i64),
    Reg(Register),
}

/// Position of a register in the register file.
pub open spec fn reg_index(r: Register) -> int {
    match r {
        Register::RA => 0,
        Register::RB => 1,
        Register::RC => 2,
        Register::RD => 3,
        Register::RE => 4,
        Register::RF => 5,
        Register::RJ => 6,
        Register::RK => 7,
    }
}

/// Position of an opcode in the instruction catalog.
pub open spec fn inst_index(i: Instruction) -> int {
    match i {
        Instruction::NOP => 0,
        Instruction::HLT => 1,
        Instruction::ADD => 2,
        Instruction::SUB => 3,
        Instruction::MUL => 4,
        Instruction::DIV => 5,
        Instruction::LOD => 6,
        Instruction::STO => 7,
        Instruction::EXEC => 8,
    }
}

/// The numeric reading of a cell, as LOD loads it: an immediate is its value,
/// a register reference or an opcode is its position in its enumeration.
pub open spec fn numeric_value(c: Handle) -> i64 {
    match c {
        Handle::Imm(v) => v,
        Handle::Reg(r) => reg_index(r) as i64,
        Handle::Inst(i) => inst_index(i) as i64,
    }
}

impl Register {
    /// Position of this register in the register file.
    pub fn index(&self) -> (r: usize)
        ensures
            r as int == reg_index(*self),
    {
        match self {
            Register::RA => 0,
            Register::RB => 1,
            Register::RC => 2,
            Register::RD => 3,
            Register::RE => 4,
            Register::RF => 5,
            Register::RJ => 6,
            Register::RK => 7,
        }
    }
}

impl Instruction {
    /// Position of this opcode in the instruction catalog.
    pub fn index(&self) -> (r: usize)
        ensures
            r as int == inst_index(*self),
    {
        match self {
            Instruction::NOP => 0,
            Instruction::HLT => 1,
            Instruction::ADD => 2,
            Instruction::SUB => 3,
            Instruction::MUL => 4,
            Instruction::DIV => 5,
            Instruction::LOD => 6,
            Instruction::STO => 7,
            Instruction::EXEC => 8,
        }
    }
}

impl Handle {
    /// The numeric reading of this cell (see `numeric_value`).
    pub fn numeric(&self) -> (r: i64)
        ensures
            r == numeric_value(*self),
    {
        match self {
            Handle::Imm(v) => *v,
            Handle::Reg(reg) => reg.index() as i64,
            Handle::Inst(i) => i.index() as i64,
        }
    }
}

} // verus!
