use vcpu::cell::Handle::{Imm, Inst, Reg};
use vcpu::cell::Instruction::{ADD, DIV, EXEC, HLT, LOD, MUL, NOP, STO, SUB};
use vcpu::cell::Register::{RA, RB, RC};
use vcpu::cell::{Handle, Register};
use vcpu::cpu::Cpu;
use vcpu::fault::Fault;
use vcpu::memory::Memory;
use vcpu::registers::RegisterStruct;
use vcpu::syscall::Code;

fn load(cells: &[Handle]) -> Memory<1024> {
    let mut mem = Memory::<1024>::new();
    for c in cells {
        mem.aset(*c).unwrap();
    }
    mem
}

fn run_program(cells: &[Handle]) -> (Cpu, Result<(), Fault>) {
    let mut cpu = Cpu::new(load(cells));
    let r = cpu.start();
    (cpu, r)
}

#[test]
fn add() -> Result<(), Fault> {
    let mut mem = Memory::<1024>::new();
    mem.aset(Inst(ADD))?;
    mem.aset(Reg(RA))?;
    mem.aset(Imm(1))?;
    mem.aset(Imm(2))?;
    mem.aset(Inst(MUL))?;
    mem.aset(Reg(RA))?;
    mem.aset(Reg(RA))?;
    mem.aset(Imm(2))?;
    let mut cpu = Cpu::new(mem);
    cpu.start()?;
    assert_eq!(cpu.get_register_value(RA), 6);
    Ok(())
}

#[test]
fn sto_lod() -> Result<(), Fault> {
    let mut mem = Memory::<1024>::new();
    mem.aset(Inst(STO))?;
    mem.aset(Reg(RA))?;
    mem.aset(Imm(77))?;
    let mut cpu = Cpu::new(mem);
    cpu.start()?;
    assert_eq!(cpu.get_register_value(RA), 77);
    Ok(())
}

#[test]
fn interrupts() -> Result<(), Fault> {
    let mut mem = Memory::<1024>::new();
    mem.aset(Inst(STO))?;
    mem.aset(Reg(RA))?;
    mem.aset(Imm(0))?;
    mem.aset(Inst(STO))?;
    mem.aset(Reg(RB))?;
    mem.aset(Imm(0))?;
    mem.aset(Inst(EXEC))?;
    let mut cpu = Cpu::new(mem);
    cpu.start()?;
    assert_eq!(cpu.exit_status(), Some(0));
    Ok(())
}

#[test]
fn add_mul_then_halt() {
    let (cpu, r) = run_program(&[
        Inst(ADD), Reg(RA), Imm(1), Imm(2),
        Inst(MUL), Reg(RA), Reg(RA), Imm(2),
        Inst(HLT),
    ]);
    assert_eq!(r, Ok(()));
    assert_eq!(cpu.get_register_value(RA), 6);
    assert!(!cpu.is_running());
    assert_eq!(cpu.exit_status(), None);
}

#[test]
fn store_then_halt() {
    let (cpu, r) = run_program(&[Inst(STO), Reg(RA), Imm(77), Inst(HLT)]);
    assert_eq!(r, Ok(()));
    assert_eq!(cpu.get_register_value(RA), 77);
}

#[test]
fn well_formed_program_halts_with_flag_cleared() {
    let (cpu, r) = run_program(&[
        Inst(NOP),
        Inst(STO), Reg(RB), Imm(9),
        Inst(SUB), Reg(RC), Reg(RB), Imm(4),
        Inst(DIV), Reg(RA), Reg(RC), Imm(2),
        Inst(LOD), Reg(RB), Imm(2),
        Inst(HLT),
    ]);
    assert_eq!(r, Ok(()));
    assert!(!cpu.is_running());
    assert_eq!(cpu.get_register_value(RC), 5);
    assert_eq!(cpu.get_register_value(RA), 2);
    assert_eq!(cpu.get_register_value(RB), 1);
}

#[test]
fn division_by_zero_stops_the_run() {
    let (cpu, r) = run_program(&[
        Inst(DIV), Reg(RA), Imm(10), Imm(0),
        Inst(STO), Reg(RB), Imm(5),
        Inst(HLT),
    ]);
    assert_eq!(r, Err(Fault::DivisionByZero));
    assert_eq!(cpu.get_register_value(RA), 0);
    assert_eq!(cpu.get_register_value(RB), 0);
    assert!(cpu.is_running());
}

#[test]
fn division_by_zero_register() {
    let (_, r) = run_program(&[Inst(DIV), Reg(RA), Imm(10), Reg(RB), Inst(HLT)]);
    assert_eq!(r, Err(Fault::DivisionByZero));
}

#[test]
fn truncated_and_wrapping_arithmetic() {
    let (cpu, r) = run_program(&[
        Inst(DIV), Reg(RA), Imm(-7), Imm(2),
        Inst(ADD), Reg(RB), Imm(i64::MAX), Imm(1),
        Inst(DIV), Reg(RC), Imm(i64::MIN), Imm(-1),
        Inst(HLT),
    ]);
    assert_eq!(r, Ok(()));
    assert_eq!(cpu.get_register_value(RA), -3);
    assert_eq!(cpu.get_register_value(RB), i64::MIN);
    assert_eq!(cpu.get_register_value(RC), i64::MIN);
}

#[test]
fn wrapping_sub_and_mul() {
    let (cpu, r) = run_program(&[
        Inst(SUB), Reg(RA), Imm(i64::MIN), Imm(1),
        Inst(MUL), Reg(RB), Imm(i64::MAX), Imm(2),
        Inst(SUB), Reg(RC), Imm(3), Imm(10),
        Inst(HLT),
    ]);
    assert_eq!(r, Ok(()));
    assert_eq!(cpu.get_register_value(RA), i64::MAX);
    assert_eq!(cpu.get_register_value(RB), -2);
    assert_eq!(cpu.get_register_value(RC), -7);
}

#[test]
fn truncated_operands_at_end_of_memory() {
    let mut mem = Memory::<1024>::new();
    for i in 0..1021 {
        mem.set(i, Inst(NOP)).unwrap();
    }
    mem.set(1021, Inst(ADD)).unwrap();
    mem.set(1022, Reg(RA)).unwrap();
    mem.set(1023, Imm(1)).unwrap();
    let mut cpu = Cpu::new(mem);
    assert_eq!(cpu.start(), Err(Fault::UnexpectedEndOfProgram));
    assert_eq!(cpu.get_register_value(RA), 0);
    assert_eq!(cpu.fetch_next(), None);
}

#[test]
fn fetch_past_end_of_memory() {
    let mut mem = Memory::<1024>::new();
    for i in 0..1024 {
        mem.set(i, Inst(NOP)).unwrap();
    }
    let mut cpu = Cpu::new(mem);
    assert_eq!(cpu.start(), Err(Fault::UnexpectedEndOfProgram));
}

#[test]
fn fetch_next_walks_memory() {
    let mut cpu = Cpu::new(load(&[Imm(3), Reg(RB)]));
    assert_eq!(cpu.fetch_next(), Some(Imm(3)));
    assert_eq!(cpu.fetch_next(), Some(Reg(RB)));
    assert_eq!(cpu.fetch_next(), Some(Inst(HLT)));
}

#[test]
fn set_out_of_range_leaves_memory_unchanged() {
    let mut mem = Memory::<1>::new();
    assert_eq!(mem.set(1, Imm(5)), Err(Fault::OutOfBounds));
    assert_eq!(mem.set(usize::MAX, Imm(5)), Err(Fault::OutOfBounds));
    assert_eq!(mem.get(0), Some(Inst(HLT)));
    assert_eq!(mem.get(1), None);
    assert_eq!(mem.set(0, Imm(5)), Ok(()));
    assert_eq!(mem.get(0), Some(Imm(5)));
}

#[test]
fn sequential_writes_stop_at_capacity() {
    let mut mem = Memory::<2>::new();
    assert_eq!(mem.aset(Imm(1)), Ok(()));
    assert_eq!(mem.aset(Imm(2)), Ok(()));
    assert_eq!(mem.aset(Imm(3)), Err(Fault::OutOfBounds));
    assert_eq!(mem.get(0), Some(Imm(1)));
    assert_eq!(mem.get(1), Some(Imm(2)));
}

#[test]
fn exit_syscall_reports_status() {
    let (cpu, r) = run_program(&[
        Inst(STO), Reg(RA), Imm(0),
        Inst(STO), Reg(RB), Imm(42),
        Inst(EXEC),
        Inst(STO), Reg(RC), Imm(1),
    ]);
    assert_eq!(r, Ok(()));
    assert_eq!(cpu.exit_status(), Some(42));
    assert!(!cpu.is_running());
    assert_eq!(cpu.get_register_value(RC), 0);
}

#[test]
fn unknown_syscall_is_unsupported() {
    let (cpu, r) = run_program(&[Inst(STO), Reg(RA), Imm(99), Inst(EXEC)]);
    assert_eq!(r, Err(Fault::UnsupportedSyscall));
    assert_eq!(cpu.exit_status(), None);
}

#[test]
fn unimplemented_syscalls_are_unsupported() {
    let (_, r) = run_program(&[Inst(STO), Reg(RA), Imm(1), Inst(EXEC)]);
    assert_eq!(r, Err(Fault::UnsupportedSyscall));
    let (_, r) = run_program(&[Inst(STO), Reg(RA), Imm(2), Inst(EXEC)]);
    assert_eq!(r, Err(Fault::UnsupportedSyscall));
    let (_, r) = run_program(&[Inst(STO), Reg(RA), Imm(-1), Inst(EXEC)]);
    assert_eq!(r, Err(Fault::UnsupportedSyscall));
}

#[test]
fn interrupt_dispatch() {
    let cpu = Cpu::new(Memory::<1024>::new());
    let mut regs = RegisterStruct::new();
    regs.set(RB, 17);
    assert_eq!(cpu.interrupt(0, regs), Ok(17));
    assert_eq!(cpu.interrupt(1, regs), Err(Fault::UnsupportedSyscall));
    assert_eq!(cpu.interrupt(7, regs), Err(Fault::UnsupportedSyscall));
}

#[test]
fn syscall_codes() {
    assert_eq!(Code::from_code(0), Some(Code::Exit));
    assert_eq!(Code::from_code(1), Some(Code::Write));
    assert_eq!(Code::from_code(2), Some(Code::Input));
    assert_eq!(Code::from_code(3), None);
    assert_eq!(Code::from_code(i64::MIN), None);
}

#[test]
fn load_reads_cells() {
    let (cpu, r) = run_program(&[
        Inst(LOD), Reg(RA), Imm(10),
        Inst(LOD), Reg(RB), Imm(1),
        Inst(LOD), Reg(RC), Imm(0),
        Inst(HLT),
        Imm(55),
    ]);
    assert_eq!(r, Ok(()));
    assert_eq!(cpu.get_register_value(RA), 55);
    assert_eq!(cpu.get_register_value(RB), 0);
    assert_eq!(cpu.get_register_value(RC), 6);
}

#[test]
fn load_through_register_address() {
    let (cpu, r) = run_program(&[
        Inst(STO), Reg(RB), Imm(7),
        Inst(LOD), Reg(RA), Reg(RB),
        Inst(HLT),
        Imm(-4),
    ]);
    assert_eq!(r, Ok(()));
    assert_eq!(cpu.get_register_value(RA), -4);
}

#[test]
fn load_out_of_range() {
    let (_, r) = run_program(&[Inst(LOD), Reg(RA), Imm(1024)]);
    assert_eq!(r, Err(Fault::OutOfBounds));
    let (_, r) = run_program(&[Inst(LOD), Reg(RA), Imm(-1)]);
    assert_eq!(r, Err(Fault::OutOfBounds));
}

#[test]
fn operand_kinds_are_checked() {
    let (_, r) = run_program(&[Inst(ADD), Imm(1), Imm(1), Imm(1)]);
    assert_eq!(r, Err(Fault::InvalidOperandKind));
    let (_, r) = run_program(&[Inst(SUB), Reg(RA), Inst(NOP), Imm(1)]);
    assert_eq!(r, Err(Fault::InvalidOperandKind));
    let (_, r) = run_program(&[Inst(STO), Reg(RA), Inst(NOP)]);
    assert_eq!(r, Err(Fault::InvalidOperandKind));
    let (_, r) = run_program(&[Inst(STO), Imm(3), Imm(3)]);
    assert_eq!(r, Err(Fault::InvalidOperandKind));
    let (_, r) = run_program(&[Inst(LOD), Inst(HLT), Imm(3)]);
    assert_eq!(r, Err(Fault::InvalidOperandKind));
    let (_, r) = run_program(&[Imm(3)]);
    assert_eq!(r, Err(Fault::InvalidOperandKind));
}

#[test]
fn register_copies() {
    let mut cpu = Cpu::new(Memory::<1024>::new());
    cpu.register_insert_imm(RC, -12);
    cpu.register_insert_reg(RA, RC);
    assert_eq!(cpu.get_register_value(RA), -12);
    assert_eq!(cpu.get_register_value(RC), -12);
    assert_eq!(cpu.get_register_value(RB), 0);
}

#[test]
fn register_file_starts_at_zero() {
    let mut regs = RegisterStruct::new();
    assert_eq!(regs.get(Register::RK), 0);
    regs.set(Register::RK, 3);
    assert_eq!(regs.get(Register::RK), 3);
    assert_eq!(regs.get(Register::RJ), 0);
}

#[test]
fn exec_single_instructions() {
    let mut cpu = Cpu::new(load(&[Reg(RA), Imm(4)]));
    assert_eq!(cpu.exec(Inst(STO)), Ok(()));
    assert_eq!(cpu.get_register_value(RA), 4);
    assert_eq!(cpu.exec(Inst(NOP)), Ok(()));
    assert!(cpu.is_running());
    assert_eq!(cpu.exec(Inst(HLT)), Ok(()));
    assert!(!cpu.is_running());
    assert_eq!(cpu.fetch_n_exec(), Ok(()));
}
