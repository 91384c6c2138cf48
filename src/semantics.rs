use vstd::math::abs;
use vstd::prelude::*;

use crate::cell::{numeric_value, reg_index, Handle, Instruction, Register};
use crate::fault::Fault;
use crate::syscall::syscall_result;

verus! {

/// The abstract state of the engine: memory cells, the eight register values
/// (RA first), the instruction pointer, the run flag, and the exit status that
/// an Exit syscall recorded.
pub struct Machine {
    pub mem: Seq<Handle>,
    pub regs: Seq<i64>,
    pub ip: int,
    pub run: bool,
    pub exit: Option<i64>,
}

/// `x` reduced into the signed 64-bit range modulo 2^64 (two's complement).
pub open spec fn wrap(x: int) -> i64 {
    let m = x % 0x1_0000_0000_0000_0000;
    if m > i64::MAX {
        (m - 0x1_0000_0000_0000_0000) as i64
    } else {
        m as i64
    }
}

/// Division that rounds toward zero.
pub open spec fn truncated_div(x: int, d: int) -> int {
    let q: int = abs(x) as int / abs(d) as int;
    if (x < 0) == (d < 0) {
        q
    } else {
        -q
    }
}

/// The result of an arithmetic opcode on two operands. Results wrap around in
/// two's complement; a zero divisor is a fault.
pub open spec fn arith(op: Instruction, a: i64, b: i64) -> Result<i64, Fault> {
    match op {
        Instruction::ADD => Ok(wrap(a + b)),
        Instruction::SUB => Ok(wrap(a - b)),
        Instruction::MUL => Ok(wrap(a * b)),
        _ => if b == 0 {
            Err(Fault::DivisionByZero)
        } else {
            Ok(wrap(truncated_div(a as int, b as int)))
        },
    }
}

/// `m` with register `r` set to `v`.
pub open spec fn with_reg(m: Machine, r: Register, v: i64) -> Machine {
    Machine { regs: m.regs.update(reg_index(r), v), ..m }
}

/// Reads the cell at the instruction pointer and advances past it; past the
/// end of memory nothing is read and nothing moves.
pub open spec fn fetch(m: Machine) -> (Machine, Option<Handle>) {
    if 0 <= m.ip < m.mem.len() {
        (Machine { ip: m.ip + 1, ..m }, Some(m.mem[m.ip]))
    } else {
        (m, None)
    }
}

/// Fetches a destination operand, which must name a register.
pub open spec fn fetch_dest(m: Machine) -> (Machine, Result<Register, Fault>) {
    let (m1, c) = fetch(m);
    match c {
        None => (m1, Err(Fault::UnexpectedEndOfProgram)),
        Some(Handle::Reg(r)) => (m1, Ok(r)),
        Some(_) => (m1, Err(Fault::InvalidOperandKind)),
    }
}

/// Fetches a source operand and resolves it: a register gives its value, an
/// immediate gives itself, an opcode is refused.
pub open spec fn fetch_source(m: Machine) -> (Machine, Result<i64, Fault>) {
    let (m1, c) = fetch(m);
    match c {
        None => (m1, Err(Fault::UnexpectedEndOfProgram)),
        Some(Handle::Reg(r)) => (m1, Ok(m.regs[reg_index(r)])),
        Some(Handle::Imm(v)) => (m1, Ok(v)),
        Some(Handle::Inst(_)) => (m1, Err(Fault::InvalidOperandKind)),
    }
}

/// ADD, SUB, MUL or DIV: destination, then two sources; the result overwrites
/// the destination.
pub open spec fn exec_binary(m: Machine, op: Instruction) -> (Machine, Result<(), Fault>) {
    let (m1, d) = fetch_dest(m);
    match d {
        Err(e) => (m1, Err(e)),
        Ok(dest) => {
            let (m2, a) = fetch_source(m1);
            match a {
                Err(e) => (m2, Err(e)),
                Ok(a) => {
                    let (m3, b) = fetch_source(m2);
                    match b {
                        Err(e) => (m3, Err(e)),
                        Ok(b) => match arith(op, a, b) {
                            Err(e) => (m3, Err(e)),
                            Ok(v) => (with_reg(m3, dest, v), Ok(())),
                        },
                    }
                },
            }
        },
    }
}

/// STO: destination, then a source whose value is copied into it.
pub open spec fn exec_store(m: Machine) -> (Machine, Result<(), Fault>) {
    let (m1, d) = fetch_dest(m);
    match d {
        Err(e) => (m1, Err(e)),
        Ok(dest) => {
            let (m2, a) = fetch_source(m1);
            match a {
                Err(e) => (m2, Err(e)),
                Ok(v) => (with_reg(m2, dest, v), Ok(())),
            }
        },
    }
}

/// LOD: destination, then an address operand; the numeric reading of the cell
/// at that address is loaded into the destination.
pub open spec fn exec_load(m: Machine) -> (Machine, Result<(), Fault>) {
    let (m1, d) = fetch_dest(m);
    match d {
        Err(e) => (m1, Err(e)),
        Ok(dest) => {
            let (m2, a) = fetch_source(m1);
            match a {
                Err(e) => (m2, Err(e)),
                Ok(addr) => if 0 <= addr < m2.mem.len() {
                    (with_reg(m2, dest, numeric_value(m2.mem[addr as int])), Ok(()))
                } else {
                    (m2, Err(Fault::OutOfBounds))
                },
            }
        },
    }
}

/// EXEC: dispatches the code in RA; Exit stops the run and records the status.
pub open spec fn exec_syscall(m: Machine) -> (Machine, Result<(), Fault>) {
    match syscall_result(m.regs[0], m.regs) {
        Ok(status) => (Machine { run: false, exit: Some(status), ..m }, Ok(())),
        Err(e) => (m, Err(e)),
    }
}

/// Executes an already fetched cell as an instruction.
pub open spec fn execute(m: Machine, h: Handle) -> (Machine, Result<(), Fault>) {
    match h {
        Handle::Inst(i) => match i {
            Instruction::NOP => (m, Ok(())),
            Instruction::HLT => (Machine { run: false, ..m }, Ok(())),
            Instruction::STO => exec_store(m),
            Instruction::LOD => exec_load(m),
            Instruction::EXEC => exec_syscall(m),
            _ => exec_binary(m, i),
        },
        _ => (m, Err(Fault::InvalidOperandKind)),
    }
}

/// One fetch-decode-execute step.
pub open spec fn step(m: Machine) -> (Machine, Result<(), Fault>) {
    let (m1, c) = fetch(m);
    match c {
        None => (m1, Err(Fault::UnexpectedEndOfProgram)),
        Some(h) => execute(m1, h),
    }
}

/// Steps until the run flag clears or a fault stops the run.
pub open spec fn run(m: Machine) -> (Machine, Result<(), Fault>)
    decreases m.mem.len() - m.ip,
{
    if !m.run {
        (m, Ok(()))
    } else if !(0 <= m.ip < m.mem.len()) {
        (m, Err(Fault::UnexpectedEndOfProgram))
    } else {
        let (m1, r) = step(m);
        match r {
            Err(e) => (m1, Err(e)),
            Ok(_) => run(m1),
        }
    }
}

/// A cell that names a register.
pub open spec fn is_register(c: Handle) -> bool {
    c is Reg
}

/// A cell that a source operand accepts: a register or an immediate.
pub open spec fn is_source(c: Handle) -> bool {
    c is Reg || c is Imm
}

/// From address `k` on, `mem` holds a straight line of instructions that
/// cannot fault, each with operands of the right kinds and all within memory,
/// ending in HLT. DIV takes only a nonzero immediate divisor, LOD only an
/// immediate address inside memory, and EXEC, whose outcome rests on register
/// values, is left out.
pub open spec fn well_formed_from(mem: Seq<Handle>, k: int) -> bool
    decreases mem.len() - k,
{
    if !(0 <= k < mem.len()) {
        false
    } else {
        match mem[k] {
            Handle::Inst(Instruction::HLT) => true,
            Handle::Inst(Instruction::NOP) => well_formed_from(mem, k + 1),
            Handle::Inst(Instruction::STO) => {
                &&& k + 2 < mem.len()
                &&& is_register(mem[k + 1])
                &&& is_source(mem[k + 2])
                &&& well_formed_from(mem, k + 3)
            },
            Handle::Inst(Instruction::LOD) => {
                &&& k + 2 < mem.len()
                &&& is_register(mem[k + 1])
                &&& mem[k + 2] matches Handle::Imm(a) && 0 <= a < mem.len()
                &&& well_formed_from(mem, k + 3)
            },
            Handle::Inst(Instruction::ADD) | Handle::Inst(Instruction::SUB) | Handle::Inst(
                Instruction::MUL,
            ) => {
                &&& k + 3 < mem.len()
                &&& is_register(mem[k + 1])
                &&& is_source(mem[k + 2])
                &&& is_source(mem[k + 3])
                &&& well_formed_from(mem, k + 4)
            },
            Handle::Inst(Instruction::DIV) => {
                &&& k + 3 < mem.len()
                &&& is_register(mem[k + 1])
                &&& is_source(mem[k + 2])
                &&& mem[k + 3] matches Handle::Imm(d) && d != 0
                &&& well_formed_from(mem, k + 4)
            },
            _ => false,
        }
    }
}

/// A run that succeeds always ends with the run flag cleared.
pub proof fn lemma_success_clears_run_flag(m: Machine)
    ensures
        run(m).1 is Ok ==> !run(m).0.run,
    decreases m.mem.len() - m.ip,
{
    if m.run && 0 <= m.ip < m.mem.len() {
        let (m1, r) = step(m);
        if r is Ok {
            lemma_success_clears_run_flag(m1);
        }
    }
}

/// A running machine whose instruction pointer starts a well-formed program
/// that ends in HLT within memory runs to success, with the run flag cleared.
pub proof fn lemma_well_formed_program_halts(m: Machine)
    requires
        m.run,
        m.regs.len() == 8,
        well_formed_from(m.mem, m.ip),
    ensures
        run(m).1 is Ok,
        !run(m).0.run,
    decreases m.mem.len() - m.ip,
{
    let (m1, r) = step(m);
    assert(r is Ok);
    assert(run(m) == run(m1));
    if m1.run {
        assert(m1.regs.len() == 8);
        assert(well_formed_from(m1.mem, m1.ip));
        lemma_well_formed_program_halts(m1);
    }
}

} // verus!
