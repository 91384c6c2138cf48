//! A minimal virtual CPU: a bounded memory of tagged cells, a fixed file of
//! eight registers, and a fetch-decode-execute engine with one syscall boundary.

pub mod cell;
pub mod cpu;
pub mod fault;
pub mod memory;
pub mod registers;
pub mod semantics;
pub mod syscall;
