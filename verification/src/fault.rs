use vstd::prelude::*;

verus! {

/// A per-tick fault of the interpreter.
///
/// Every fault is unrecoverable for the tick that raised it: the engine
/// neither skips the offending instruction nor substitutes a default
/// effect.  Each variant carries the raw opcode or the offending address,
/// together with the program counter at the time of the fault, so that a
/// malformed or unsupported program can be diagnosed.
#[derive(Clone, Copy, PartialEq, Eq, Structural, Debug)]
pub enum Fault {
    /// No opcode pattern matches the fetched instruction word.
    DecodeFault { opcode: u16, pc: u16 },
    /// The word matches a recognized pattern that this core deliberately
    /// gives no effect (the machine-routine jump `0nnn`).
    UnimplementedOpcode { opcode: u16, pc: u16 },
    /// A call was issued while the stack already held its full capacity
    /// of return addresses.
    StackOverflow { pc: u16 },
    /// A return was issued while the stack was empty.
    StackUnderflow { pc: u16 },
    /// A memory access outside the address space.  `address` is the
    /// highest address the instruction would have touched; for a failed
    /// instruction fetch it is the program counter itself.
    OutOfBoundsAccess { address: u16, pc: u16 },
}

} // verus!
