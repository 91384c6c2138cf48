use vstd::prelude::*;

use crate::cell::{Handle, Instruction};
use crate::fault::Fault;

verus! {

/// A fixed-capacity, bounds-checked, flat memory of `U` cells, with a cursor
/// for sequential loading.
pub struct Memory<const U: usize> {
    buffer: Vec<Handle>,
    counter: usize,
}

impl<const U: usize> View for Memory<U> {
    /// The cells, address 0 first.
    type V = Seq<Handle>;

    closed spec fn view(&self) -> Seq<Handle> {
        self.buffer@
    }
}

impl<const U: usize> Memory<U> {
    /// The capacity holds exactly `U` cells and the cursor lies within it.
    pub open spec fn wf(&self) -> bool {
        &&& self@.len() == U
        &&& self.cursor() <= U
    }

    /// Address at which the next sequential write lands.
    pub closed spec fn cursor(&self) -> nat {
        self.counter as nat
    }

    /// A memory of `U` cells, each holding the HLT opcode, with the cursor at 0.
    pub fn new() -> (r: Self)
        ensures
            r.wf(),
            r@ == Seq::new(U as nat, |i: int| Handle::Inst(Instruction::HLT)),
            r.cursor() == 0,
    {
        let mut buffer: Vec<Handle> = Vec::new();
        while buffer.len() < U
            invariant
                buffer@.len() <= U,
                forall|i: int| 0 <= i < buffer@.len() ==> buffer@[i] == Handle::Inst(Instruction::HLT),
            decreases U - buffer@.len(),
        {
            buffer.push(Handle::Inst(Instruction::HLT));
        }
        let r = Memory { buffer, counter: 0 };
        assert(r@ =~= Seq::new(U as nat, |i: int| Handle::Inst(Instruction::HLT)));
        r
    }

    /// Writes `value` at `index`. An address at or beyond the capacity is
    /// refused with `OutOfBounds` and changes nothing.
    pub fn set(&mut self, index: usize, value: Handle) -> (r: Result<(), Fault>)
        requires
            old(self).wf(),
        ensures
            final(self).wf(),
            final(self).cursor() == old(self).cursor(),
            index >= U ==> r == Err::<(), Fault>(Fault::OutOfBounds) && final(self)@ == old(self)@,
            index < U ==> r is Ok && final(self)@ == old(self)@.update(index as int, value),
    {
        if index >= U {
            Err(Fault::OutOfBounds)
        } else {
            self.buffer.set(index, value);
            Ok(())
        }
    }

    /// Writes `value` at the cursor and advances it. Once the cursor has
    /// reached the capacity the write is refused with `OutOfBounds` and
    /// changes nothing.
    pub fn aset(&mut self, value: Handle) -> (r: Result<(), Fault>)
        requires
            old(self).wf(),
        ensures
            final(self).wf(),
            old(self).cursor() >= U ==> r == Err::<(), Fault>(Fault::OutOfBounds) && *final(self) == *old(self),
            old(self).cursor() < U ==> {
                &&& r is Ok
                &&& final(self)@ == old(self)@.update(old(self).cursor() as int, value)
                &&& final(self).cursor() == old(self).cursor() + 1
            },
    {
        if self.counter >= U {
            Err(Fault::OutOfBounds)
        } else {
            self.buffer.set(self.counter, value);
            self.counter = self.counter + 1;
            Ok(())
        }
    }

    /// The cell at `index`, or `None` beyond the capacity.
    pub fn get(&self, index: usize) -> (r: Option<Handle>)
        requires
            self.wf(),
        ensures
            index < U ==> r == Some(self@[index as int]),
            index >= U ==> r is None,
    {
        if index < self.buffer.len() {
            Some(self.buffer[index])
        } else {
            None
        }
    }
}

} // verus!
