use vstd::prelude::*;
use crate::display::Display;
use crate::display::PIXEL_COUNT;
use crate::executions::execute_instruction;
use crate::executions::machine_view;
use crate::executions::step;
use crate::executions::step_outcome;
use crate::executions::MachineView;
use crate::fault::Fault;
use crate::instructions::decode;
use crate::instructions::Instruction;
use crate::keyboard::Keyboard;
use crate::keyboard::KEY_COUNT;
use crate::memory::font_data;
use crate::memory::Memory;
use crate::memory::FONT_OFFSET;
use crate::memory::MEMORY_SIZE;
use crate::memory::PROGRAM_OFFSET;
use crate::registers::Registers;
use crate::registers::REGISTER_COUNT;
use crate::Renderer;

verus! {

/// Capacity of the call stack, in return addresses.
pub const STACK_SIZE: usize = 0x0F;

/// The call stack: the pushed return addresses, oldest first.  It holds
/// at most `STACK_SIZE` entries; pushing past that is a stack-overflow
/// fault and popping an empty stack a stack-underflow fault, never a
/// silent wraparound.
pub type Stack = Vec<u16>;

/// One tick of the fetch-decode-execute engine as a function of the
/// machine and of the byte the random source yields this tick: fetch
/// the two instruction bytes at the program counter (high byte first),
/// decode the word, and execute the instruction.  A fetch outside
/// memory is an out-of-bounds fault carrying the program counter; an
/// unmatched bit pattern is a decode fault carrying the raw word.
pub open spec fn tick_step(pre: MachineView, rnd: u8) -> Result<MachineView, Fault> {
    if pre.program_counter + 1 >= MEMORY_SIZE {
        Err(
            Fault::OutOfBoundsAccess {
                address: pre.program_counter,
                pc: pre.program_counter,
            },
        )
    } else {
        let word = (pre.mem[pre.program_counter as int] * 256 + pre.mem[pre.program_counter
            + 1]) as u16;
        match decode(word) {
            Some(instruction) => step(pre, instruction, rnd),
            None => Err(Fault::DecodeFault { opcode: word, pc: pre.program_counter }),
        }
    }
}

/// How a tick outcome relates the machine before and after: on success
/// the machine moved exactly as `tick_step` says for the drawn random
/// byte; on a fault `tick_step` raises that very fault and the machine
/// is unchanged.
pub open spec fn tick_outcome(
    pre: MachineView,
    post: MachineView,
    rnd: u8,
    result: Result<(), Fault>,
) -> bool {
    match result {
        Ok(_) => tick_step(pre, rnd) == Result::<MachineView, Fault>::Ok(post),
        Err(f) => tick_step(pre, rnd) == Result::<MachineView, Fault>::Err(f) && post == pre,
    }
}

/// The execution engine: it exclusively owns the machine state and
/// advances it one instruction per tick.  The host decides the tick
/// cadence, drives the timers, feeds key events and reads the display;
/// the engine itself runs no clock and does no input or output.
pub struct Cpu {
    memory: Memory,
    registers: Registers,
    display: Display,
    keyboard: Keyboard,
    stack: Stack,
}

impl View for Cpu {
    type V = MachineView;

    closed spec fn view(&self) -> MachineView {
        machine_view(self.memory, self.registers, self.stack@, self.display, self.keyboard)
    }
}

impl Cpu {
    /// The engine invariant: every component well-formed, and the stack
    /// pointer in step with the stack contents.
    pub closed spec fn wf(self) -> bool {
        &&& self@.wf()
        &&& self.stack@.len() == self.registers.stack_pointer
    }

    /// A fresh machine for a program image: memory seeded with the
    /// glyph table and the program bytes, every register, timer, pixel
    /// and key reset, the stack empty, and the program counter at the
    /// program base.
    pub fn new(program_data: &Vec<u8>) -> (r: Cpu)
        requires
            program_data@.len() <= MEMORY_SIZE - PROGRAM_OFFSET,
        ensures
            r.wf(),
            r@.wf(),
            r@.mem.len() == MEMORY_SIZE,
            forall|j: int|
                0 <= j < font_data().len() ==> r@.mem[FONT_OFFSET + j] == font_data()[j],
            forall|k: int|
                0 <= k < program_data@.len() ==> r@.mem[PROGRAM_OFFSET + k] == program_data@[k],
            forall|a: int|
                0 <= a < MEMORY_SIZE && !(FONT_OFFSET <= a < FONT_OFFSET + font_data().len())
                    && !(PROGRAM_OFFSET <= a < PROGRAM_OFFSET + program_data@.len())
                    ==> r@.mem[a] == 0,
            r@.vs =~= Seq::new(REGISTER_COUNT as nat, |j: int| 0u8),
            r@.index == 0,
            r@.delay_timer == 0,
            r@.sound_timer == 0,
            r@.program_counter == PROGRAM_OFFSET,
            r@.stack =~= Seq::<u16>::empty(),
            r@.pixels =~= Seq::new(PIXEL_COUNT as nat, |i: int| false),
            r@.keys =~= Seq::new(KEY_COUNT as nat, |k: int| false),
    {
        let mut registers = Registers::new();
        registers.program_counter = PROGRAM_OFFSET as u16;
        Cpu {
            memory: Memory::new(program_data),
            registers,
            display: Display::new(),
            keyboard: Keyboard::new(),
            stack: Vec::new(),
        }
    }

    /// Runs exactly one instruction: whatever byte the random source
    /// yields, the machine moves exactly as `tick_step` says for it,
    /// and a fault leaves the machine unchanged for the host to
    /// inspect.
    pub fn tick(&mut self) -> (result: Result<(), Fault>)
        requires
            old(self).wf(),
        ensures
            final(self).wf(),
            exists|b: u8| #[trigger] tick_outcome(old(self)@, final(self)@, b, result),
    {
        let pc = self.registers.program_counter;
        let result = if pc as usize + 1 >= MEMORY_SIZE {
            Err(Fault::OutOfBoundsAccess { address: pc, pc })
        } else {
            let high = self.memory.read(pc as usize);
            let low = self.memory.read(pc as usize + 1);
            proof {
                assert((high as u16) << 8u16 == high as u16 * 256) by (bit_vector);
            }
            let code: u16 = ((high as u16) << 8u16) + low as u16;
            match Instruction::parse_code(code) {
                Some(instruction) => execute_instruction(
                    instruction,
                    &mut self.memory,
                    &mut self.registers,
                    &mut self.stack,
                    &mut self.display,
                    &self.keyboard,
                ),
                None => Err(Fault::DecodeFault { opcode: code, pc }),
            }
        };
        proof {
            if tick_step(old(self)@, 0u8) is Err {
                assert(tick_outcome(old(self)@, self@, 0u8, result));
            } else {
                let b = choose|b: u8|
                    #[trigger] step_outcome(
                        old(self)@,
                        self@,
                        decode(
                            (old(self)@.mem[old(self)@.program_counter as int] * 256 + old(
                                self,
                            )@.mem[old(self)@.program_counter + 1]) as u16,
                        ).unwrap(),
                        b,
                        result,
                    );
                assert(tick_outcome(old(self)@, self@, b, result));
            }
        }
        result
    }

    /// Forwards a release of a logical key (a code 0x0..=0xF) from the
    /// host's input collaborator.
    pub fn released_key(&mut self, key: u8)
        requires
            old(self).wf(),
            key < KEY_COUNT,
        ensures
            final(self).wf(),
            final(self)@ == (MachineView {
                keys: old(self)@.keys.update(key as int, false),
                ..old(self)@
            }),
    {
        self.keyboard.set_released(key);
    }

    /// Forwards a press of a logical key (a code 0x0..=0xF) from the
    /// host's input collaborator.
    pub fn pressed_key(&mut self, key: u8)
        requires
            old(self).wf(),
            key < KEY_COUNT,
        ensures
            final(self).wf(),
            final(self)@ == (MachineView {
                keys: old(self)@.keys.update(key as int, true),
                ..old(self)@
            }),
    {
        self.keyboard.set_pressed(key);
    }

    /// Advances both timers by one step: each counter above zero is
    /// decremented, a counter at zero stays there.  The host calls this
    /// at its own fixed rate, conventionally 60 times per second.
    pub fn tick_timers(&mut self)
        requires
            old(self).wf(),
        ensures
            final(self).wf(),
            final(self)@ == (MachineView {
                delay_timer: if old(self)@.delay_timer > 0 {
                    (old(self)@.delay_timer - 1) as u8
                } else {
                    0
                },
                sound_timer: if old(self)@.sound_timer > 0 {
                    (old(self)@.sound_timer - 1) as u8
                } else {
                    0
                },
                ..old(self)@
            }),
    {
        if self.registers.delay_timer > 0 {
            self.registers.delay_timer = self.registers.delay_timer - 1;
        }
        if self.registers.sound_timer > 0 {
            self.registers.sound_timer = self.registers.sound_timer - 1;
        }
    }

    /// The sound timer's current value; the host beeps while it is
    /// above zero.
    pub fn sound_timer(&self) -> (r: u8)
        ensures
            r == self@.sound_timer,
    {
        self.registers.sound_timer
    }

    /// The delay timer's current value.
    pub fn delay_timer(&self) -> (r: u8)
        ensures
            r == self@.delay_timer,
    {
        self.registers.delay_timer
    }

    /// The value of a general register.
    pub fn register(&self, reg_id: u8) -> (r: u8)
        requires
            self.wf(),
            reg_id < REGISTER_COUNT,
        ensures
            r == self@.vs[reg_id as int],
    {
        self.registers.vs[reg_id as usize]
    }

    /// The index register's current value.
    pub fn index_register(&self) -> (r: u16)
        ensures
            r == self@.index,
    {
        self.registers.i
    }

    /// The program counter's current value.
    pub fn program_counter(&self) -> (r: u16)
        ensures
            r == self@.program_counter,
    {
        self.registers.program_counter
    }

    /// The stack pointer: how many return addresses are on the stack.
    pub fn stack_pointer(&self) -> (r: u8)
        requires
            self.wf(),
        ensures
            r == self@.stack.len(),
    {
        self.registers.stack_pointer
    }

    /// The byte at an in-range memory address.
    pub fn memory_byte(&self, address: usize) -> (r: u8)
        requires
            self.wf(),
            address < MEMORY_SIZE,
        ensures
            r == self@.mem[address as int],
    {
        self.memory.read(address)
    }

    /// One display pixel, by column and row.
    pub fn pixel(&self, x: usize, y: usize) -> (r: bool)
        requires
            self.wf(),
            x < crate::display::RESOLUTION_WIDTH,
            y < crate::display::RESOLUTION_HEIGHT,
        ensures
            r == self@.pixels[y * crate::display::RESOLUTION_WIDTH + x],
    {
        self.display.pixel(x, y)
    }

    /// Hands every pixel to the rendering collaborator, in row-major
    /// order, then flushes it: the read-only display traversal granted
    /// to the host once per frame.
    pub fn render_pass<R: Renderer>(&self, renderer: &mut R)
        requires
            self.wf(),
    {
        let triples = self.display.traverse();
        let mut idx: usize = 0;
        while idx < triples.len()
            invariant
                idx <= triples@.len(),
            decreases triples@.len() - idx,
        {
            let t = triples[idx];
            renderer.pixel(t.0, t.1, t.2);
            idx = idx + 1;
        }
        renderer.flush();
    }
}

} // verus!
