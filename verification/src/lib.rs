use vstd::prelude::*;

pub mod cpu;
pub mod display;
pub mod executions;
pub mod fault;
pub mod instructions;
pub mod keyboard;
pub mod memory;
pub mod registers;

verus! {

/// A 12-bit instruction address, held in a 16-bit word.
pub type Address = u16;

/// An 8-bit machine word.
pub type Byte = u8;

/// A rendering collaborator: the engine hands it every pixel of a
/// frame in row-major order and then flushes it.  Implementations live
/// with the host; nothing is assumed of them.
pub trait Renderer {
    /// Receives one pixel of the current frame.
    fn pixel(&mut self, x: usize, y: usize, is_set: bool);

    /// Ends the frame.
    fn flush(&mut self);
}

} // verus!
