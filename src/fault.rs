use vstd::prelude::*;

verus! {

/// Every way a memory access or a run of the engine can fail. All are fatal to
/// the current run.
#[derive(PartialEq, Eq, Structural, Clone, Copy, Debug)]
pub enum Fault {
    /// A read or write at an address beyond the memory's capacity.
    OutOfBounds,
    /// A fetch past the end of memory while decoding an instruction.
    UnexpectedEndOfProgram,
    /// A cell that is not of the kind its position requires.
    InvalidOperandKind,
    /// A division whose divisor is zero.
    DivisionByZero,
    /// A syscall code outside the implemented set.
    UnsupportedSyscall,
}

} // verus!
