use vstd::prelude::*;

use crate::cell::{reg_index, Register};

verus! {

/// The register file: one signed 64-bit value for each of the eight registers.
#[derive(Clone, Copy, PartialEq, Eq, Structural, Debug)]
pub struct RegisterStruct {
    ra: i64,
    rb: i64,
    rc: i64,
    rd: i64,
    re: i64,
    rf: i64,
    rj: i64,
    rk: i64,
}

impl View for RegisterStruct {
    /// The eight values, in register order (RA first).
    type V = Seq<i64>;

    closed spec fn view(&self) -> Seq<i64> {
        seq![self.ra, self.rb, self.rc, self.rd, self.re, self.rf, self.rj, self.rk]
    }
}

impl RegisterStruct {
    /// The value of register `r` in a register file's view.
    pub open spec fn value_of(regs: Seq<i64>, r: Register) -> i64 {
        regs[reg_index(r)]
    }

    /// A register file with every register at zero.
    pub fn new() -> (r: Self)
        ensures
            r@ == seq![0i64; 8],
    {
        let r = RegisterStruct { ra: 0, rb: 0, rc: 0, rd: 0, re: 0, rf: 0, rj: 0, rk: 0 };
        assert(r@ =~= seq![0i64; 8]);
        r
    }

    /// The value of register `reg`.
    pub fn get(&self, reg: Register) -> (r: i64)
        ensures
            r == Self::value_of(self@, reg),
    {
        match reg {
            Register::RA => self.ra,
            Register::RB => self.rb,
            Register::RC => self.rc,
            Register::RD => self.rd,
            Register::RE => self.re,
            Register::RF => self.rf,
            Register::RJ => self.rj,
            Register::RK => self.rk,
        }
    }

    /// Overwrites register `reg` with `value`; the others keep their values.
    pub fn set(&mut self, reg: Register, value: i64)
        ensures
            final(self)@ == old(self)@.update(reg_index(reg), value),
    {
        match reg {
            Register::RA => self.ra = value,
            Register::RB => self.rb = value,
            Register::RC => self.rc = value,
            Register::RD => self.rd = value,
            Register::RE => self.re = value,
            Register::RF => self.rf = value,
            Register::RJ => self.rj = value,
            Register::RK => self.rk = value,
        }
        assert(self@ =~= old(self)@.update(reg_index(reg), value));
    }
}

} // verus!
