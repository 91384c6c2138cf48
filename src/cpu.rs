use vstd::prelude::*;

use crate::cell::{reg_index, Handle, Instruction, Register};
use crate::fault::Fault;
use crate::memory::Memory;
use crate::registers::RegisterStruct;
use crate::semantics::{
    arith, execute, fetch, fetch_dest, fetch_source, run, step, truncated_div, with_reg, wrap,
    Machine,
};
use crate::syscall::{syscall_result, Code};

verus! {

/// Number of cells in the engine's memory.
pub const CAPACITY: usize = 1024;

/// Applies an arithmetic opcode to two operands.
fn compute(op: Instruction, a: i64, b: i64) -> (r: Result<i64, Fault>)
    requires
        op == Instruction::ADD || op == Instruction::SUB || op == Instruction::MUL
            || op == Instruction::DIV,
    ensures
        r == arith(op, a, b),
{
    match op {
        Instruction::ADD => {
            let v = a.wrapping_add(b);
            assert(v == wrap(a + b));
            Ok(v)
        },
        Instruction::SUB => {
            let v = a.wrapping_sub(b);
            assert(v == wrap(a - b));
            Ok(v)
        },
        Instruction::MUL => Ok(a.wrapping_mul(b)),
        _ => {
            if b == 0 {
                Err(Fault::DivisionByZero)
            } else {
                match a.checked_div(b) {
                    Some(q) => {
                        assert(q == wrap(truncated_div(a as int, b as int)));
                        Ok(q)
                    },
                    None => {
                        assert(i64::MIN == wrap(truncated_div(a as int, b as int)));
                        Ok(i64::MIN)
                    },
                }
            }
        },
    }
}

/// The execution engine: it owns a memory and a register file, and holds an
/// instruction pointer, a run flag, and the status of an Exit syscall.
pub struct Cpu {
    memory: Memory<1024>,
    registers: RegisterStruct,
    run: bool,
    ip: usize,
    exit: Option<i64>,
}

impl View for Cpu {
    type V = Machine;

    closed spec fn view(&self) -> Machine {
        Machine {
            mem: self.memory@,
            regs: self.registers@,
            ip: self.ip as int,
            run: self.run,
            exit: self.exit,
        }
    }
}

impl Cpu {
    /// The memory is well formed and the instruction pointer lies within it
    /// or just past its end.
    pub closed spec fn wf(&self) -> bool {
        &&& self.memory.wf()
        &&& self.ip <= CAPACITY
    }

    /// An engine over `mem`, with every register at zero, the instruction
    /// pointer at 0, running, and no exit status.
    pub fn new(mem: Memory<1024>) -> (r: Self)
        requires
            mem.wf(),
        ensures
            r.wf(),
            r@ == (Machine { mem: mem@, regs: seq![0i64; 8], ip: 0, run: true, exit: None }),
    {
        Cpu { memory: mem, registers: RegisterStruct::new(), run: true, ip: 0, exit: None }
    }

    /// Returns the cell at the instruction pointer and advances past it, or
    /// `None`, moving nothing, once the pointer is past the end of memory.
    pub fn fetch_next(&mut self) -> (r: Option<Handle>)
        requires
            old(self).wf(),
        ensures
            final(self).wf(),
            (final(self)@, r) == fetch(old(self)@),
    {
        let out = self.memory.get(self.ip);
        if out.is_some() {
            self.ip = self.ip + 1;
        }
        out
    }

    /// Fetches a destination operand.
    fn fetch_register(&mut self) -> (r: Result<Register, Fault>)
        requires
            old(self).wf(),
        ensures
            final(self).wf(),
            (final(self)@, r) == fetch_dest(old(self)@),
    {
        match self.fetch_next() {
            None => Err(Fault::UnexpectedEndOfProgram),
            Some(Handle::Reg(reg)) => Ok(reg),
            Some(_) => Err(Fault::InvalidOperandKind),
        }
    }

    /// Fetches a source operand and resolves it to a value.
    fn fetch_operand(&mut self) -> (r: Result<i64, Fault>)
        requires
            old(self).wf(),
        ensures
            final(self).wf(),
            (final(self)@, r) == fetch_source(old(self)@),
    {
        match self.fetch_next() {
            None => Err(Fault::UnexpectedEndOfProgram),
            Some(Handle::Reg(reg)) => Ok(self.get_register_value(reg)),
            Some(Handle::Imm(v)) => Ok(v),
            Some(Handle::Inst(_)) => Err(Fault::InvalidOperandKind),
        }
    }

    /// Executes `handle` as an instruction, fetching its operands. On a fault
    /// the effects of the sub-steps already done stay visible.
    pub fn exec(&mut self, handle: Handle) -> (r: Result<(), Fault>)
        requires
            old(self).wf(),
        ensures
            final(self).wf(),
            (final(self)@, r) == execute(old(self)@, handle),
    {
        match handle {
            Handle::Inst(i) => match i {
                Instruction::NOP => Ok(()),
                Instruction::HLT => {
                    self.run = false;
                    Ok(())
                },
                Instruction::STO => {
                    let dest = self.fetch_register()?;
                    let v = self.fetch_operand()?;
                    self.register_insert_imm(dest, v);
                    Ok(())
                },
                Instruction::LOD => {
                    let dest = self.fetch_register()?;
                    let addr = self.fetch_operand()?;
                    if addr < 0 || addr >= CAPACITY as i64 {
                        Err(Fault::OutOfBounds)
                    } else {
                        match self.memory.get(addr as usize) {
                            Some(cell) => {
                                self.register_insert_imm(dest, cell.numeric());
                                Ok(())
                            },
                            None => Err(Fault::OutOfBounds),
                        }
                    }
                },
                Instruction::EXEC => {
                    let ra = self.get_register_value(Register::RA);
                    let status = self.interrupt(ra, self.registers)?;
                    self.run = false;
                    self.exit = Some(status);
                    Ok(())
                },
                _ => {
                    let dest = self.fetch_register()?;
                    let a = self.fetch_operand()?;
                    let b = self.fetch_operand()?;
                    let v = compute(i, a, b)?;
                    self.register_insert_imm(dest, v);
                    Ok(())
                },
            },
            _ => Err(Fault::InvalidOperandKind),
        }
    }

    /// The value of register `reg`.
    pub fn get_register_value(&self, reg: Register) -> (r: i64)
        ensures
            r == self@.regs[reg_index(reg)],
    {
        self.registers.get(reg)
    }

    /// Overwrites register `reg` with `imm`.
    pub fn register_insert_imm(&mut self, reg: Register, imm: i64)
        ensures
            final(self)@ == with_reg(old(self)@, reg, imm),
            final(self).wf() == old(self).wf(),
    {
        self.registers.set(reg, imm);
    }

    /// Copies the value of register `reg2` into register `reg1`.
    pub fn register_insert_reg(&mut self, reg1: Register, reg2: Register)
        ensures
            final(self)@ == with_reg(old(self)@, reg1, old(self)@.regs[reg_index(reg2)]),
            final(self).wf() == old(self).wf(),
    {
        let v = self.get_register_value(reg2);
        self.register_insert_imm(reg1, v);
    }

    /// Dispatches syscall `code` against a snapshot of the register file.
    /// `Ok(status)` asks the host to stop with `status` (the Exit syscall);
    /// any other code is `UnsupportedSyscall`.
    pub fn interrupt(&self, code: i64, regs: RegisterStruct) -> (r: Result<i64, Fault>)
        ensures
            r == syscall_result(code, regs@),
    {
        match Code::from_code(code) {
            Some(Code::Exit) => Ok(regs.get(Register::RB)),
            _ => Err(Fault::UnsupportedSyscall),
        }
    }

    /// Fetches one instruction and executes it.
    pub fn fetch_n_exec(&mut self) -> (r: Result<(), Fault>)
        requires
            old(self).wf(),
        ensures
            final(self).wf(),
            (final(self)@, r) == step(old(self)@),
    {
        let n = match self.fetch_next() {
            Some(n) => n,
            None => return Err(Fault::UnexpectedEndOfProgram),
        };
        self.exec(n)
    }

    /// Runs until the run flag clears (success) or a fault stops the run.
    pub fn start(&mut self) -> (r: Result<(), Fault>)
        requires
            old(self).wf(),
        ensures
            final(self).wf(),
            (final(self)@, r) == run(old(self)@),
            r is Ok ==> !final(self)@.run,
    {
        while self.run
            invariant
                self.wf(),
                run(self@) == run(old(self)@),
            decreases CAPACITY - self.ip,
        {
            self.fetch_n_exec()?;
        }
        Ok(())
    }

    /// Whether the run flag is still set.
    pub fn is_running(&self) -> (r: bool)
        ensures
            r == self@.run,
    {
        self.run
    }

    /// The status that an Exit syscall asked the host to stop with, if one ran.
    pub fn exit_status(&self) -> (r: Option<i64>)
        ensures
            r == self@.exit,
    {
        self.exit
    }
}

} // verus!
