use vstd::prelude::*;

verus! {

/// Failures that a decoder or a host's port layer can report.
#[derive(Clone, Copy, Debug, PartialEq, Eq)]
pub enum Error {
    UnimplementedOpcode { opcode: u8 },
    InvalidReadPort { port: u8 },
    InvalidWritePort { port: u8 },
}

} // verus!
