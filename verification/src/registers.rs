use vstd::prelude::*;

verus! {

/// Number of general-purpose byte registers.
pub const REGISTER_COUNT: usize = 16;

/// Index of the flag register VF, used by convention as the carry,
/// borrow and collision output of specific instructions.
pub const FLAG_REGISTER: usize = 0xF;

/// The register file: 16 general byte registers V0..=VF, the 16-bit
/// index register I (only its low 12 bits are meaningful, and the
/// invariant keeps it below 4096), the delay and sound counters, the
/// program counter and the stack pointer.
///
/// The two counters are decremented by the host at its own fixed rate
/// through an explicit advance operation; this core runs no clock of its
/// own.
pub struct Registers {
    pub vs: Vec<u8>,
    pub i: u16,
    pub sound_timer: u8,
    pub delay_timer: u8,
    pub program_counter: u16,
    pub stack_pointer: u8,
}

impl Registers {
    /// The register-file invariant: exactly 16 general registers, and an
    /// index register within the 12-bit address space.
    pub open spec fn wf(self) -> bool {
        &&& self.vs@.len() == REGISTER_COUNT
        &&& self.i < 0x1000
    }

    /// A reset register file: every register and counter zero.
    pub fn new() -> (r: Registers)
        ensures
            r.wf(),
            r.vs@ =~= Seq::new(REGISTER_COUNT as nat, |j: int| 0u8),
            r.i == 0,
            r.sound_timer == 0,
            r.delay_timer == 0,
            r.program_counter == 0,
            r.stack_pointer == 0,
    {
        let mut vs: Vec<u8> = Vec::new();
        let mut j: usize = 0;
        while j < REGISTER_COUNT
            invariant
                j <= REGISTER_COUNT,
                vs@.len() == j,
                forall|n: int| 0 <= n < j ==> vs@[n] == 0u8,
            decreases REGISTER_COUNT - j,
        {
            vs.push(0);
            j = j + 1;
        }
        Registers {
            vs,
            i: 0,
            delay_timer: 0,
            sound_timer: 0,
            stack_pointer: 0,
            program_counter: 0,
        }
    }
}

} // verus!
