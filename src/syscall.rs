use vstd::prelude::*;

use crate::fault::Fault;

verus! {

/// The closed set of syscall codes that EXEC may name in register RA.
#[derive(PartialEq, Eq, Structural, Clone, Copy, Debug)]
pub enum Code {
    Exit,
    Write,
    Input,
}

/// The syscall that an integer code names, if any: 0 is Exit, 1 is Write,
/// 2 is Input.
pub open spec fn code_of(code: i64) -> Option<Code> {
    if code == 0 {
        Some(Code::Exit)
    } else if code == 1 {
        Some(Code::Write)
    } else if code == 2 {
        Some(Code::Input)
    } else {
        None
    }
}

/// What a syscall does, given the register file's view: Exit asks the host to
/// stop with the status held in RB; every other code is unsupported.
pub open spec fn syscall_result(code: i64, regs: Seq<i64>) -> Result<i64, Fault> {
    match code_of(code) {
        Some(Code::Exit) => Ok(regs[1]),
        _ => Err(Fault::UnsupportedSyscall),
    }
}

impl Code {
    /// Validates an integer code against the closed set.
    pub fn from_code(code: i64) -> (r: Option<Code>)
        ensures
            r == code_of(code),
    {
        if code == 0 {
            Some(Code::Exit)
        } else if code == 1 {
            Some(Code::Write)
        } else if code == 2 {
            Some(Code::Input)
        } else {
            None
        }
    }
}

} // verus!
