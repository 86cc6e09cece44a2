//! An Intel 8080 processor core: registers, flags, a 64 KiB memory split into
//! a read-only program image and RAM, the full instruction set, interrupts and
//! an event slot through which a host observes halts and port accesses.
//!
//! Every executable function is proved against a mathematical model of the
//! machine (`machine::Machine`, `machine::step_spec`).
pub mod cpu;
pub mod error;
pub mod flags;
pub mod instr;
pub mod laws;
pub mod machine;
pub mod memory;

pub use cpu::CPU;
pub use error::Error;
pub use machine::{Event, InterruptStatus};
pub use memory::Memory;
