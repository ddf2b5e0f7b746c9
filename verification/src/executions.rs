use vstd::prelude::*;
use vstd::arithmetic::div_mod::lemma_mod_add_multiples_vanish;
use crate::cpu::Stack;
use crate::cpu::STACK_SIZE;
use crate::display::blit;
use crate::display::blit_collides;
use crate::display::Display;
use crate::display::PIXEL_COUNT;
use crate::fault::Fault;
use crate::instructions::Instruction;
use crate::keyboard::Keyboard;
use crate::keyboard::KEY_COUNT;
use crate::memory::Memory;
use crate::memory::FONT_OFFSET;
use crate::memory::GLYPH_SIZE;
use crate::memory::MEMORY_SIZE;
use crate::registers::Registers;
use crate::registers::FLAG_REGISTER;
use crate::registers::REGISTER_COUNT;

verus! {

/// The mathematical state of the whole machine: the models of memory,
/// the register file, the call stack (live entries only, oldest first),
/// the framebuffer and the keyboard.  Every contract of the execution
/// engine is stated as a relation between two of these views.
#[verifier::ext_equal]
pub ghost struct MachineView {
    pub mem: Seq<u8>,
    pub vs: Seq<u8>,
    pub index: u16,
    pub delay_timer: u8,
    pub sound_timer: u8,
    pub program_counter: u16,
    pub stack: Seq<u16>,
    pub pixels: Seq<bool>,
    pub keys: Seq<bool>,
}

impl MachineView {
    /// The machine invariant: fixed component sizes, a bounded stack,
    /// and an index register within the 12-bit address space.
    pub open spec fn wf(self) -> bool {
        &&& self.mem.len() == MEMORY_SIZE
        &&& self.vs.len() == REGISTER_COUNT
        &&& self.index < 0x1000
        &&& self.stack.len() <= STACK_SIZE
        &&& self.pixels.len() == PIXEL_COUNT
        &&& self.keys.len() == KEY_COUNT
    }
}

/// The view of the machine assembled from its components; the stack
/// sequence holds only the live entries, below the stack pointer.
pub open spec fn machine_view(
    memory: Memory,
    registers: Registers,
    stack: Seq<u16>,
    display: Display,
    keyboard: Keyboard,
) -> MachineView {
    MachineView {
        mem: memory@,
        vs: registers.vs@,
        index: registers.i,
        delay_timer: registers.delay_timer,
        sound_timer: registers.sound_timer,
        program_counter: registers.program_counter,
        stack,
        pixels: display@,
        keys: keyboard@,
    }
}

/// Where a conditional skip leaves the program counter: past the next
/// instruction when taken (4 bytes on), onto it when not (2 bytes on) —
/// never any other distance.
pub open spec fn skip_target(pc: u16, taken: bool) -> u16 {
    if taken {
        (pc + 4) as u16
    } else {
        (pc + 2) as u16
    }
}

/// Whether the key with this code is pressed; codes outside the 16
/// logical keys are never pressed.
pub open spec fn key_pressed(keys: Seq<bool>, key: u8) -> bool {
    key < KEY_COUNT && keys[key as int]
}

/// The lowest pressed key code at or above `k`, or `KEY_COUNT` when no
/// key at or above `k` is pressed.
pub open spec fn first_pressed_from(keys: Seq<bool>, k: int) -> int
    decreases KEY_COUNT - k,
{
    if k < 0 || k >= KEY_COUNT {
        KEY_COUNT as int
    } else if keys[k] {
        k
    } else {
        first_pressed_from(keys, k + 1)
    }
}

/// The lowest pressed key code, or `KEY_COUNT` when no key is pressed.
pub open spec fn first_pressed(keys: Seq<bool>) -> int {
    first_pressed_from(keys, 0)
}

/// The operational semantics of the instruction set, one tick at a
/// time: what executing a decoded instruction does to the machine, or
/// which fault it raises.  A fault leaves the machine unchanged.
///
/// `rnd` is the byte drawn from the random source for this tick; only
/// the random-number instruction reads it.
///
/// Flag conventions, applied uniformly: the flag register VF is written
/// after the source operands are read and after the result register, so
/// an instruction whose operand or destination is VF itself still ends
/// with the documented flag in VF.  The subtraction instructions set
/// VF = 1 exactly when a borrow occurs (minuend < subtrahend), the
/// inverse of the other commonly documented convention.
pub open spec fn step(pre: MachineView, instruction: Instruction, rnd: u8) -> Result<
    MachineView,
    Fault,
> {
    let pc = pre.program_counter;
    match instruction {
        Instruction::SYS { address } => Err(
            Fault::UnimplementedOpcode { opcode: address, pc },
        ),
        Instruction::CLS => Ok(
            MachineView {
                pixels: Seq::new(PIXEL_COUNT as nat, |i: int| false),
                program_counter: (pc + 2) as u16,
                ..pre
            },
        ),
        Instruction::RTS => if pre.stack.len() == 0 {
            Err(Fault::StackUnderflow { pc })
        } else {
            Ok(
                MachineView {
                    program_counter: pre.stack.last(),
                    stack: pre.stack.drop_last(),
                    ..pre
                },
            )
        },
        Instruction::JMP { address } => Ok(MachineView { program_counter: address, ..pre }),
        Instruction::JSR { address } => if pre.stack.len() >= STACK_SIZE {
            Err(Fault::StackOverflow { pc })
        } else {
            Ok(
                MachineView {
                    stack: pre.stack.push((pc + 2) as u16),
                    program_counter: address,
                    ..pre
                },
            )
        },
        Instruction::SE { reg_id, value } => Ok(
            MachineView {
                program_counter: skip_target(pc, pre.vs[reg_id as int] == value),
                ..pre
            },
        ),
        Instruction::SNE { reg_id, value } => Ok(
            MachineView {
                program_counter: skip_target(pc, pre.vs[reg_id as int] != value),
                ..pre
            },
        ),
        Instruction::SEXY { x_reg_id, y_reg_id } => Ok(
            MachineView {
                program_counter: skip_target(
                    pc,
                    pre.vs[x_reg_id as int] == pre.vs[y_reg_id as int],
                ),
                ..pre
            },
        ),
        Instruction::MOV { reg_id, value } => Ok(
            MachineView {
                vs: pre.vs.update(reg_id as int, value),
                program_counter: (pc + 2) as u16,
                ..pre
            },
        ),
        Instruction::ADD { reg_id, value } => Ok(
            MachineView {
                vs: pre.vs.update(
                    reg_id as int,
                    ((pre.vs[reg_id as int] + value) % 256) as u8,
                ),
                program_counter: (pc + 2) as u16,
                ..pre
            },
        ),
        Instruction::MOVXY { x_reg_id, y_reg_id } => Ok(
            MachineView {
                vs: pre.vs.update(x_reg_id as int, pre.vs[y_reg_id as int]),
                program_counter: (pc + 2) as u16,
                ..pre
            },
        ),
        Instruction::ORXY { x_reg_id, y_reg_id } => Ok(
            MachineView {
                vs: pre.vs.update(
                    x_reg_id as int,
                    pre.vs[x_reg_id as int] | pre.vs[y_reg_id as int],
                ),
                program_counter: (pc + 2) as u16,
                ..pre
            },
        ),
        Instruction::ANDXY { x_reg_id, y_reg_id } => Ok(
            MachineView {
                vs: pre.vs.update(
                    x_reg_id as int,
                    pre.vs[x_reg_id as int] & pre.vs[y_reg_id as int],
                ),
                program_counter: (pc + 2) as u16,
                ..pre
            },
        ),
        Instruction::XORXY { x_reg_id, y_reg_id } => Ok(
            MachineView {
                vs: pre.vs.update(
                    x_reg_id as int,
                    pre.vs[x_reg_id as int] ^ pre.vs[y_reg_id as int],
                ),
                program_counter: (pc + 2) as u16,
                ..pre
            },
        ),
        Instruction::ADDXY { x_reg_id, y_reg_id } => {
            let sum = pre.vs[x_reg_id as int] + pre.vs[y_reg_id as int];
            Ok(
                MachineView {
                    vs: pre.vs.update(x_reg_id as int, (sum % 256) as u8).update(
                        FLAG_REGISTER as int,
                        if sum > 255 {
                            1u8
                        } else {
                            0u8
                        },
                    ),
                    program_counter: (pc + 2) as u16,
                    ..pre
                },
            )
        },
        Instruction::SUBXY { x_reg_id, y_reg_id } => {
            let x_val = pre.vs[x_reg_id as int];
            let y_val = pre.vs[y_reg_id as int];
            Ok(
                MachineView {
                    vs: pre.vs.update(x_reg_id as int, ((x_val - y_val) % 256) as u8).update(
                        FLAG_REGISTER as int,
                        if x_val < y_val {
                            1u8
                        } else {
                            0u8
                        },
                    ),
                    program_counter: (pc + 2) as u16,
                    ..pre
                },
            )
        },
        Instruction::SHR { reg_id } => {
            let v = pre.vs[reg_id as int];
            Ok(
                MachineView {
                    vs: pre.vs.update(reg_id as int, v >> 1u8).update(
                        FLAG_REGISTER as int,
                        v & 1,
                    ),
                    program_counter: (pc + 2) as u16,
                    ..pre
                },
            )
        },
        Instruction::RSUBXY { x_reg_id, y_reg_id } => {
            let x_val = pre.vs[x_reg_id as int];
            let y_val = pre.vs[y_reg_id as int];
            Ok(
                MachineView {
                    vs: pre.vs.update(x_reg_id as int, ((y_val - x_val) % 256) as u8).update(
                        FLAG_REGISTER as int,
                        if y_val < x_val {
                            1u8
                        } else {
                            0u8
                        },
                    ),
                    program_counter: (pc + 2) as u16,
                    ..pre
                },
            )
        },
        Instruction::SHL { reg_id } => {
            let v = pre.vs[reg_id as int];
            Ok(
                MachineView {
                    vs: pre.vs.update(reg_id as int, v << 1u8).update(
                        FLAG_REGISTER as int,
                        (v >> 7u8) & 1,
                    ),
                    program_counter: (pc + 2) as u16,
                    ..pre
                },
            )
        },
        Instruction::SNEXY { x_reg_id, y_reg_id } => Ok(
            MachineView {
                program_counter: skip_target(
                    pc,
                    pre.vs[x_reg_id as int] != pre.vs[y_reg_id as int],
                ),
                ..pre
            },
        ),
        Instruction::MOVI { address } => Ok(
            MachineView { index: address, program_counter: (pc + 2) as u16, ..pre },
        ),
        Instruction::JMI { address } => Ok(
            MachineView { program_counter: ((pre.vs[0] + address) as u16), ..pre },
        ),
        Instruction::RAND { reg_id, value } => Ok(
            MachineView {
                vs: pre.vs.update(reg_id as int, rnd & value),
                program_counter: (pc + 2) as u16,
                ..pre
            },
        ),
        Instruction::DRW { x_reg_id, y_reg_id, value } => if value > 0 && pre.index + value
            > MEMORY_SIZE {
            Err(Fault::OutOfBoundsAccess { address: (pre.index + value - 1) as u16, pc })
        } else {
            let sprite = pre.mem.subrange(pre.index as int, pre.index + value);
            let dx = pre.vs[x_reg_id as int] as int;
            let dy = pre.vs[y_reg_id as int] as int;
            Ok(
                MachineView {
                    pixels: blit(pre.pixels, sprite, dx, dy),
                    vs: pre.vs.update(
                        FLAG_REGISTER as int,
                        if blit_collides(pre.pixels, sprite, dx, dy) {
                            1u8
                        } else {
                            0u8
                        },
                    ),
                    program_counter: (pc + 2) as u16,
                    ..pre
                },
            )
        },
        Instruction::SKP { reg_id } => Ok(
            MachineView {
                program_counter: skip_target(
                    pc,
                    key_pressed(pre.keys, pre.vs[reg_id as int]),
                ),
                ..pre
            },
        ),
        Instruction::SKNP { reg_id } => Ok(
            MachineView {
                program_counter: skip_target(
                    pc,
                    !key_pressed(pre.keys, pre.vs[reg_id as int]),
                ),
                ..pre
            },
        ),
        Instruction::GDELAY { reg_id } => Ok(
            MachineView {
                vs: pre.vs.update(reg_id as int, pre.delay_timer),
                program_counter: (pc + 2) as u16,
                ..pre
            },
        ),
        Instruction::KEY { reg_id } => if first_pressed(pre.keys) < KEY_COUNT {
            Ok(
                MachineView {
                    vs: pre.vs.update(reg_id as int, first_pressed(pre.keys) as u8),
                    program_counter: (pc + 2) as u16,
                    ..pre
                },
            )
        } else {
            Ok(pre)
        },
        Instruction::SDELAY { reg_id } => Ok(
            MachineView {
                delay_timer: pre.vs[reg_id as int],
                program_counter: (pc + 2) as u16,
                ..pre
            },
        ),
        Instruction::SSOUND { reg_id } => Ok(
            MachineView {
                sound_timer: pre.vs[reg_id as int],
                program_counter: (pc + 2) as u16,
                ..pre
            },
        ),
        Instruction::ADI { reg_id } => Ok(
            MachineView {
                index: ((pre.index + pre.vs[reg_id as int]) % (MEMORY_SIZE as int)) as u16,
                program_counter: (pc + 2) as u16,
                ..pre
            },
        ),
        Instruction::FONT { reg_id } => Ok(
            MachineView {
                index: ((FONT_OFFSET + GLYPH_SIZE * pre.vs[reg_id as int]) as u16),
                program_counter: (pc + 2) as u16,
                ..pre
            },
        ),
        Instruction::BCD { reg_id } => if pre.index + 2 >= MEMORY_SIZE {
            Err(Fault::OutOfBoundsAccess { address: (pre.index + 2) as u16, pc })
        } else {
            let v = pre.vs[reg_id as int];
            Ok(
                MachineView {
                    mem: pre.mem.update(pre.index as int, ((v / 100) % 10) as u8).update(
                        pre.index + 1,
                        ((v / 10) % 10) as u8,
                    ).update(pre.index + 2, (v % 10) as u8),
                    program_counter: (pc + 2) as u16,
                    ..pre
                },
            )
        },
        Instruction::STR { reg_id } => if pre.index + reg_id >= MEMORY_SIZE {
            Err(Fault::OutOfBoundsAccess { address: (pre.index + reg_id) as u16, pc })
        } else {
            Ok(
                MachineView {
                    mem: Seq::new(
                        MEMORY_SIZE as nat,
                        |a: int|
                            if pre.index <= a <= pre.index + reg_id {
                                pre.vs[a - pre.index]
                            } else {
                                pre.mem[a]
                            },
                    ),
                    index: ((pre.index + reg_id + 1) % (MEMORY_SIZE as int)) as u16,
                    program_counter: (pc + 2) as u16,
                    ..pre
                },
            )
        },
        Instruction::LDR { reg_id } => if pre.index + reg_id >= MEMORY_SIZE {
            Err(Fault::OutOfBoundsAccess { address: (pre.index + reg_id) as u16, pc })
        } else {
            Ok(
                MachineView {
                    vs: Seq::new(
                        REGISTER_COUNT as nat,
                        |j: int|
                            if 0 <= j <= reg_id {
                                pre.mem[pre.index + j]
                            } else {
                                pre.vs[j]
                            },
                    ),
                    index: ((pre.index + reg_id + 1) % (MEMORY_SIZE as int)) as u16,
                    program_counter: (pc + 2) as u16,
                    ..pre
                },
            )
        },
    }
}

/// How an execution outcome relates the machine before and after: on
/// success the machine moved exactly as `step` says; on a fault `step`
/// raises that very fault and the machine is unchanged.
pub open spec fn step_outcome(
    pre: MachineView,
    post: MachineView,
    instruction: Instruction,
    rnd: u8,
    result: Result<(), Fault>,
) -> bool {
    match result {
        Ok(_) => step(pre, instruction, rnd) == Result::<MachineView, Fault>::Ok(post),
        Err(f) => step(pre, instruction, rnd) == Result::<MachineView, Fault>::Err(f) && post
            == pre,
    }
}

/// The conditional-skip family: the six instructions that either step
/// over the next instruction or onto it, and touch nothing else.
pub open spec fn is_skip_instruction(instruction: Instruction) -> bool {
    match instruction {
        Instruction::SE { .. } => true,
        Instruction::SNE { .. } => true,
        Instruction::SEXY { .. } => true,
        Instruction::SNEXY { .. } => true,
        Instruction::SKP { .. } => true,
        Instruction::SKNP { .. } => true,
        _ => false,
    }
}

/// The add-immediate instruction wraps modulo 256 for every byte input,
/// including the wraparound past 255, and never faults.
pub proof fn lemma_add_immediate_wraps(pre: MachineView, reg_id: u8, value: u8, rnd: u8)
    requires
        pre.wf(),
        reg_id < 16,
    ensures
        step(pre, Instruction::ADD { reg_id, value }, rnd) matches Ok(post) && post.vs[
            reg_id as int
        ] == ((pre.vs[reg_id as int] + value) % 256) as u8,
{
}

/// Register addition reports the carry: VF is 1 exactly when the sum of
/// the two operands exceeds 255 before truncation, and 0 exactly
/// otherwise; the destination receives the sum modulo 256.
pub proof fn lemma_add_registers_carry(pre: MachineView, x_reg_id: u8, y_reg_id: u8, rnd: u8)
    requires
        pre.wf(),
        x_reg_id < 16,
        y_reg_id < 16,
    ensures
        step(pre, Instruction::ADDXY { x_reg_id, y_reg_id }, rnd) matches Ok(post) && (post.vs[
            FLAG_REGISTER as int
        ] == 1 <==> pre.vs[x_reg_id as int] + pre.vs[y_reg_id as int] > 255),
        step(pre, Instruction::ADDXY { x_reg_id, y_reg_id }, rnd) matches Ok(post) && (post.vs[
            FLAG_REGISTER as int
        ] == 0 <==> pre.vs[x_reg_id as int] + pre.vs[y_reg_id as int] <= 255),
        step(pre, Instruction::ADDXY { x_reg_id, y_reg_id }, rnd) matches Ok(post) && (x_reg_id
            != FLAG_REGISTER ==> post.vs[x_reg_id as int] == ((pre.vs[x_reg_id as int] + pre.vs[
            y_reg_id as int
        ]) % 256) as u8),
{
}

/// Both subtraction instructions follow the one documented borrow
/// convention, consistently: VF is 1 exactly when the minuend is
/// smaller than the subtrahend (a borrow occurs), and 0 exactly
/// otherwise; the destination receives the difference modulo 256.
pub proof fn lemma_sub_borrow_convention(pre: MachineView, x_reg_id: u8, y_reg_id: u8, rnd: u8)
    requires
        pre.wf(),
        x_reg_id < 16,
        y_reg_id < 16,
    ensures
        step(pre, Instruction::SUBXY { x_reg_id, y_reg_id }, rnd) matches Ok(post) && (post.vs[
            FLAG_REGISTER as int
        ] == 1 <==> pre.vs[x_reg_id as int] < pre.vs[y_reg_id as int]),
        step(pre, Instruction::SUBXY { x_reg_id, y_reg_id }, rnd) matches Ok(post) && (post.vs[
            FLAG_REGISTER as int
        ] == 0 <==> pre.vs[x_reg_id as int] >= pre.vs[y_reg_id as int]),
        step(pre, Instruction::SUBXY { x_reg_id, y_reg_id }, rnd) matches Ok(post) && (x_reg_id
            != FLAG_REGISTER ==> post.vs[x_reg_id as int] == ((pre.vs[x_reg_id as int] - pre.vs[
            y_reg_id as int
        ]) % 256) as u8),
        step(pre, Instruction::RSUBXY { x_reg_id, y_reg_id }, rnd) matches Ok(post) && (post.vs[
            FLAG_REGISTER as int
        ] == 1 <==> pre.vs[y_reg_id as int] < pre.vs[x_reg_id as int]),
        step(pre, Instruction::RSUBXY { x_reg_id, y_reg_id }, rnd) matches Ok(post) && (post.vs[
            FLAG_REGISTER as int
        ] == 0 <==> pre.vs[y_reg_id as int] >= pre.vs[x_reg_id as int]),
        step(pre, Instruction::RSUBXY { x_reg_id, y_reg_id }, rnd) matches Ok(post) && (x_reg_id
            != FLAG_REGISTER ==> post.vs[x_reg_id as int] == ((pre.vs[y_reg_id as int] - pre.vs[
            x_reg_id as int
        ]) % 256) as u8),
{
}

/// Drawing the same sprite twice at the same coordinates restores the
/// prior pixel state exactly: when the first draw succeeds, so does the
/// second, and the framebuffer is back where it started.  The operand
/// registers must not be the flag register, which the first draw
/// overwrites with the collision flag.
pub proof fn lemma_draw_twice_restores(
    pre: MachineView,
    x_reg_id: u8,
    y_reg_id: u8,
    value: u8,
    rnd: u8,
)
    requires
        pre.wf(),
        x_reg_id < 16,
        y_reg_id < 16,
        x_reg_id != FLAG_REGISTER,
        y_reg_id != FLAG_REGISTER,
    ensures
        step(pre, Instruction::DRW { x_reg_id, y_reg_id, value }, rnd) matches Ok(mid) ==> (step(
            mid,
            Instruction::DRW { x_reg_id, y_reg_id, value },
            rnd,
        ) matches Ok(post) && post.pixels == pre.pixels),
{
    if !(value > 0 && pre.index + value > MEMORY_SIZE) {
        let sprite = pre.mem.subrange(pre.index as int, pre.index + value);
        let dx = pre.vs[x_reg_id as int] as int;
        let dy = pre.vs[y_reg_id as int] as int;
        crate::display::lemma_double_blit(pre.pixels, sprite, dx, dy);
    }
}

/// A call followed by an immediate return puts the program counter on
/// the instruction just after the call and leaves the stack as it was;
/// a call finding the stack already at capacity raises the
/// stack-overflow fault instead, so nesting succeeds exactly up to the
/// stack capacity.
pub proof fn lemma_call_then_ret(pre: MachineView, address: u16, rnd: u8)
    requires
        pre.wf(),
        pre.program_counter + 2 <= u16::MAX,
    ensures
        pre.stack.len() < STACK_SIZE ==> (step(pre, Instruction::JSR { address }, rnd) matches Ok(
            mid,
        ) && step(mid, Instruction::RTS, rnd) matches Ok(post) && post.program_counter
            == pre.program_counter + 2 && post.stack == pre.stack),
        pre.stack.len() >= STACK_SIZE ==> step(pre, Instruction::JSR { address }, rnd)
            == Result::<MachineView, Fault>::Err(
            Fault::StackOverflow { pc: pre.program_counter },
        ),
{
    if pre.stack.len() < STACK_SIZE {
        let ret = (pre.program_counter + 2) as u16;
        assert(pre.stack.push(ret).last() == ret);
        assert(pre.stack.push(ret).drop_last() =~= pre.stack);
    }
}

/// A conditional skip never faults and advances the program counter by
/// exactly 2 or exactly 4, never any other distance.
pub proof fn lemma_skip_advances(pre: MachineView, instruction: Instruction, rnd: u8)
    requires
        pre.wf(),
        is_skip_instruction(instruction),
        pre.program_counter + 4 <= u16::MAX,
    ensures
        step(pre, instruction, rnd) matches Ok(post) && (post.program_counter
            == pre.program_counter + 2 || post.program_counter == pre.program_counter + 4),
{
}

/// Relies on `rand::random::<u8>`: one byte drawn from the thread-local
/// random generator.  Nothing is promised of its value; callers state
/// what holds whatever byte comes back.
#[verifier::external_body]
fn random_byte() -> u8 {
    rand::random::<u8>()
}

/// Executes one decoded instruction with a caller-supplied random byte:
/// the machine moves exactly as `step` says, and a fault leaves every
/// component untouched.
///
/// The program counter must still have both fetched bytes in range, as
/// it does right after a successful fetch.
#[verifier::rlimit(60)]
pub fn execute_with_random(
    instruction: Instruction,
    rnd: u8,
    memory: &mut Memory,
    registers: &mut Registers,
    stack: &mut Stack,
    display: &mut Display,
    keyboard: &Keyboard,
) -> (result: Result<(), Fault>)
    requires
        instruction.wf(),
        old(memory).wf(),
        old(registers).wf(),
        old(display).wf(),
        keyboard.wf(),
        old(stack)@.len() == old(registers).stack_pointer,
        old(registers).stack_pointer <= STACK_SIZE,
        old(registers).program_counter + 1 < MEMORY_SIZE,
    ensures
        final(memory).wf(),
        final(registers).wf(),
        final(display).wf(),
        final(stack)@.len() == final(registers).stack_pointer,
        final(registers).stack_pointer <= STACK_SIZE,
        step_outcome(
            machine_view(*old(memory), *old(registers), old(stack)@, *old(display), *keyboard),
            machine_view(
                *final(memory),
                *final(registers),
                final(stack)@,
                *final(display),
                *keyboard,
            ),
            instruction,
            rnd,
            result,
        ),
{
    let ghost pre = machine_view(*old(memory), *old(registers), old(stack)@, *old(display), *keyboard);
    match instruction {
        Instruction::SYS { address } => {
            Err(Fault::UnimplementedOpcode { opcode: address, pc: registers.program_counter })
        },
        Instruction::CLS => {
            display.clear();
            registers.program_counter = registers.program_counter + 2;
            Ok(())
        },
        Instruction::RTS => {
            if registers.stack_pointer == 0 {
                return Err(Fault::StackUnderflow { pc: registers.program_counter });
            }
            let addr = stack.pop().unwrap();
            registers.stack_pointer = registers.stack_pointer - 1;
            registers.program_counter = addr;
            proof {
                assert(stack@ =~= pre.stack.drop_last());
            }
            Ok(())
        },
        Instruction::JMP { address } => {
            registers.program_counter = address;
            Ok(())
        },
        Instruction::JSR { address } => {
            if stack.len() >= STACK_SIZE {
                return Err(Fault::StackOverflow { pc: registers.program_counter });
            }
            stack.push(registers.program_counter + 2);
            registers.stack_pointer = registers.stack_pointer + 1;
            registers.program_counter = address;
            Ok(())
        },
        Instruction::SE { reg_id, value } => {
            if registers.vs[reg_id as usize] == value {
                registers.program_counter = registers.program_counter + 4;
            } else {
                registers.program_counter = registers.program_counter + 2;
            }
            Ok(())
        },
        Instruction::SNE { reg_id, value } => {
            if registers.vs[reg_id as usize] != value {
                registers.program_counter = registers.program_counter + 4;
            } else {
                registers.program_counter = registers.program_counter + 2;
            }
            Ok(())
        },
        Instruction::SEXY { x_reg_id, y_reg_id } => {
            if registers.vs[x_reg_id as usize] == registers.vs[y_reg_id as usize] {
                registers.program_counter = registers.program_counter + 4;
            } else {
                registers.program_counter = registers.program_counter + 2;
            }
            Ok(())
        },
        Instruction::MOV { reg_id, value } => {
            registers.vs.set(reg_id as usize, value);
            registers.program_counter = registers.program_counter + 2;
            Ok(())
        },
        Instruction::ADD { reg_id, value } => {
            let sum: u16 = registers.vs[reg_id as usize] as u16 + value as u16;
            registers.vs.set(reg_id as usize, (sum % 256) as u8);
            registers.program_counter = registers.program_counter + 2;
            Ok(())
        },
        Instruction::MOVXY { x_reg_id, y_reg_id } => {
            let y_val = registers.vs[y_reg_id as usize];
            registers.vs.set(x_reg_id as usize, y_val);
            registers.program_counter = registers.program_counter + 2;
            Ok(())
        },
        Instruction::ORXY { x_reg_id, y_reg_id } => {
            let v = registers.vs[x_reg_id as usize] | registers.vs[y_reg_id as usize];
            registers.vs.set(x_reg_id as usize, v);
            registers.program_counter = registers.program_counter + 2;
            Ok(())
        },
        Instruction::ANDXY { x_reg_id, y_reg_id } => {
            let v = registers.vs[x_reg_id as usize] & registers.vs[y_reg_id as usize];
            registers.vs.set(x_reg_id as usize, v);
            registers.program_counter = registers.program_counter + 2;
            Ok(())
        },
        Instruction::XORXY { x_reg_id, y_reg_id } => {
            let v = registers.vs[x_reg_id as usize] ^ registers.vs[y_reg_id as usize];
            registers.vs.set(x_reg_id as usize, v);
            registers.program_counter = registers.program_counter + 2;
            Ok(())
        },
        Instruction::ADDXY { x_reg_id, y_reg_id } => {
            let x_val = registers.vs[x_reg_id as usize];
            let y_val = registers.vs[y_reg_id as usize];
            let sum: u16 = x_val as u16 + y_val as u16;
            registers.vs.set(x_reg_id as usize, (sum % 256) as u8);
            registers.vs.set(FLAG_REGISTER, if sum > 255 { 1 } else { 0 });
            registers.program_counter = registers.program_counter + 2;
            Ok(())
        },
        Instruction::SUBXY { x_reg_id, y_reg_id } => {
            let x_val = registers.vs[x_reg_id as usize];
            let y_val = registers.vs[y_reg_id as usize];
            let diff: u16 = ((256u16 + x_val as u16) - y_val as u16) % 256;
            proof {
                lemma_mod_add_multiples_vanish(x_val - y_val, 256);
            }
            registers.vs.set(x_reg_id as usize, diff as u8);
            registers.vs.set(FLAG_REGISTER, if x_val < y_val { 1 } else { 0 });
            registers.program_counter = registers.program_counter + 2;
            Ok(())
        },
        Instruction::SHR { reg_id } => {
            let v = registers.vs[reg_id as usize];
            registers.vs.set(reg_id as usize, v >> 1u8);
            registers.vs.set(FLAG_REGISTER, v & 1);
            registers.program_counter = registers.program_counter + 2;
            Ok(())
        },
        Instruction::RSUBXY { x_reg_id, y_reg_id } => {
            let x_val = registers.vs[x_reg_id as usize];
            let y_val = registers.vs[y_reg_id as usize];
            let diff: u16 = ((256u16 + y_val as u16) - x_val as u16) % 256;
            proof {
                lemma_mod_add_multiples_vanish(y_val - x_val, 256);
            }
            registers.vs.set(x_reg_id as usize, diff as u8);
            registers.vs.set(FLAG_REGISTER, if y_val < x_val { 1 } else { 0 });
            registers.program_counter = registers.program_counter + 2;
            Ok(())
        },
        Instruction::SHL { reg_id } => {
            let v = registers.vs[reg_id as usize];
            registers.vs.set(reg_id as usize, v << 1u8);
            registers.vs.set(FLAG_REGISTER, (v >> 7u8) & 1);
            registers.program_counter = registers.program_counter + 2;
            Ok(())
        },
        Instruction::SNEXY { x_reg_id, y_reg_id } => {
            if registers.vs[x_reg_id as usize] != registers.vs[y_reg_id as usize] {
                registers.program_counter = registers.program_counter + 4;
            } else {
                registers.program_counter = registers.program_counter + 2;
            }
            Ok(())
        },
        Instruction::MOVI { address } => {
            registers.i = address;
            registers.program_counter = registers.program_counter + 2;
            Ok(())
        },
        Instruction::JMI { address } => {
            registers.program_counter = registers.vs[0] as u16 + address;
            Ok(())
        },
        Instruction::RAND { reg_id, value } => {
            registers.vs.set(reg_id as usize, rnd & value);
            registers.program_counter = registers.program_counter + 2;
            Ok(())
        },
        Instruction::DRW { x_reg_id, y_reg_id, value } => {
            if value > 0 && registers.i as usize + value as usize > MEMORY_SIZE {
                return Err(
                    Fault::OutOfBoundsAccess {
                        address: registers.i + value as u16 - 1,
                        pc: registers.program_counter,
                    },
                );
            }
            let mut sprite: Vec<u8> = Vec::new();
            let mut k: usize = 0;
            while k < value as usize
                invariant
                    k <= value as usize,
                    value > 0 ==> registers.i as int + value as int <= MEMORY_SIZE,
                    registers.i < 0x1000,
                    memory.wf(),
                    sprite@.len() == k,
                    forall|j: int| 0 <= j < k ==> sprite@[j] == memory@[registers.i + j],
                decreases value as usize - k,
            {
                let b = memory.read(registers.i as usize + k);
                sprite.push(b);
                k = k + 1;
            }
            proof {
                assert(sprite@ =~= memory@.subrange(
                    registers.i as int,
                    registers.i + value,
                ));
            }
            let x_val = registers.vs[x_reg_id as usize];
            let y_val = registers.vs[y_reg_id as usize];
            let did_flip = display.set_sprite(x_val as usize, y_val as usize, &sprite);
            registers.vs.set(FLAG_REGISTER, if did_flip { 1 } else { 0 });
            registers.program_counter = registers.program_counter + 2;
            Ok(())
        },
        Instruction::SKP { reg_id } => {
            let key = registers.vs[reg_id as usize];
            if keyboard.is_pressed(key) {
                registers.program_counter = registers.program_counter + 4;
            } else {
                registers.program_counter = registers.program_counter + 2;
            }
            Ok(())
        },
        Instruction::SKNP { reg_id } => {
            let key = registers.vs[reg_id as usize];
            if keyboard.is_pressed(key) {
                registers.program_counter = registers.program_counter + 2;
            } else {
                registers.program_counter = registers.program_counter + 4;
            }
            Ok(())
        },
        Instruction::GDELAY { reg_id } => {
            let t = registers.delay_timer;
            registers.vs.set(reg_id as usize, t);
            registers.program_counter = registers.program_counter + 2;
            Ok(())
        },
        Instruction::KEY { reg_id } => {
            let mut found: u8 = KEY_COUNT as u8;
            let mut k: u8 = 0;
            while k < KEY_COUNT as u8
                invariant
                    keyboard.wf(),
                    k <= KEY_COUNT,
                    found == KEY_COUNT || (found < k && key_pressed(keyboard@, found)
                        && first_pressed(keyboard@) == found),
                    found == KEY_COUNT ==> first_pressed(keyboard@) == first_pressed_from(
                        keyboard@,
                        k as int,
                    ),
                decreases KEY_COUNT - k,
            {
                if found == KEY_COUNT as u8 && keyboard.is_pressed(k) {
                    found = k;
                }
                k = k + 1;
            }
            if found < KEY_COUNT as u8 {
                registers.vs.set(reg_id as usize, found);
                registers.program_counter = registers.program_counter + 2;
            }
            Ok(())
        },
        Instruction::SDELAY { reg_id } => {
            registers.delay_timer = registers.vs[reg_id as usize];
            registers.program_counter = registers.program_counter + 2;
            Ok(())
        },
        Instruction::SSOUND { reg_id } => {
            registers.sound_timer = registers.vs[reg_id as usize];
            registers.program_counter = registers.program_counter + 2;
            Ok(())
        },
        Instruction::ADI { reg_id } => {
            let advanced: u16 = registers.i + registers.vs[reg_id as usize] as u16;
            registers.i = advanced & 0x0FFF;
            proof {
                assert(advanced & 0x0FFF == advanced % 4096) by (bit_vector);
            }
            registers.program_counter = registers.program_counter + 2;
            Ok(())
        },
        Instruction::FONT { reg_id } => {
            registers.i = FONT_OFFSET as u16 + GLYPH_SIZE as u16 * registers.vs[reg_id
                as usize] as u16;
            registers.program_counter = registers.program_counter + 2;
            Ok(())
        },
        Instruction::BCD { reg_id } => {
            if registers.i as usize + 2 >= MEMORY_SIZE {
                return Err(
                    Fault::OutOfBoundsAccess {
                        address: registers.i + 2,
                        pc: registers.program_counter,
                    },
                );
            }
            let v = registers.vs[reg_id as usize];
            memory.write(registers.i as usize, (v / 100) % 10);
            memory.write(registers.i as usize + 1, (v / 10) % 10);
            memory.write(registers.i as usize + 2, v % 10);
            registers.program_counter = registers.program_counter + 2;
            Ok(())
        },
        Instruction::STR { reg_id } => {
            if registers.i as usize + reg_id as usize >= MEMORY_SIZE {
                return Err(
                    Fault::OutOfBoundsAccess {
                        address: registers.i + reg_id as u16,
                        pc: registers.program_counter,
                    },
                );
            }
            let mut j: usize = 0;
            while j < reg_id as usize + 1
                invariant
                    j <= reg_id as usize + 1,
                    reg_id < 16,
                    registers.vs@.len() == REGISTER_COUNT,
                    registers.i as int + reg_id < MEMORY_SIZE,
                    memory@.len() == MEMORY_SIZE,
                    forall|a: int|
                        0 <= a < MEMORY_SIZE ==> memory@[a] == (if registers.i <= a
                            < registers.i + j {
                            registers.vs@[a - registers.i]
                        } else {
                            old(memory)@[a]
                        }),
                decreases reg_id as usize + 1 - j,
            {
                let v = registers.vs[j];
                memory.write(registers.i as usize + j, v);
                j = j + 1;
            }
            proof {
                assert(memory@ =~= Seq::new(
                    MEMORY_SIZE as nat,
                    |a: int|
                        if pre.index <= a <= pre.index + reg_id {
                            pre.vs[a - pre.index]
                        } else {
                            pre.mem[a]
                        },
                ));
            }
            let advanced: u16 = registers.i + reg_id as u16 + 1;
            registers.i = advanced & 0x0FFF;
            proof {
                assert(advanced & 0x0FFF == advanced % 4096) by (bit_vector);
            }
            registers.program_counter = registers.program_counter + 2;
            Ok(())
        },
        Instruction::LDR { reg_id } => {
            if registers.i as usize + reg_id as usize >= MEMORY_SIZE {
                return Err(
                    Fault::OutOfBoundsAccess {
                        address: registers.i + reg_id as u16,
                        pc: registers.program_counter,
                    },
                );
            }
            let mut j: usize = 0;
            while j < reg_id as usize + 1
                invariant
                    j <= reg_id as usize + 1,
                    reg_id < 16,
                    registers.vs@.len() == REGISTER_COUNT,
                    registers.i == old(registers).i,
                    registers.program_counter == old(registers).program_counter,
                    registers.delay_timer == old(registers).delay_timer,
                    registers.sound_timer == old(registers).sound_timer,
                    registers.stack_pointer == old(registers).stack_pointer,
                    registers.i as int + reg_id < MEMORY_SIZE,
                    memory.wf(),
                    forall|j2: int|
                        0 <= j2 < REGISTER_COUNT ==> registers.vs@[j2] == (if 0 <= j2 < j {
                            memory@[registers.i + j2]
                        } else {
                            old(registers).vs@[j2]
                        }),
                decreases reg_id as usize + 1 - j,
            {
                let b = memory.read(registers.i as usize + j);
                registers.vs.set(j, b);
                j = j + 1;
            }
            proof {
                assert(registers.vs@ =~= Seq::new(
                    REGISTER_COUNT as nat,
                    |j2: int|
                        if 0 <= j2 <= reg_id {
                            pre.mem[pre.index + j2]
                        } else {
                            pre.vs[j2]
                        },
                ));
            }
            let advanced: u16 = registers.i + reg_id as u16 + 1;
            registers.i = advanced & 0x0FFF;
            proof {
                assert(advanced & 0x0FFF == advanced % 4096) by (bit_vector);
            }
            registers.program_counter = registers.program_counter + 2;
            Ok(())
        },
    }
}

/// Executes one decoded instruction, drawing the random byte from the
/// injected random source: whatever byte the source yields, the machine
/// moves exactly as `step` says for that byte.
pub fn execute_instruction(
    instruction: Instruction,
    memory: &mut Memory,
    registers: &mut Registers,
    stack: &mut Stack,
    display: &mut Display,
    keyboard: &Keyboard,
) -> (result: Result<(), Fault>)
    requires
        instruction.wf(),
        old(memory).wf(),
        old(registers).wf(),
        old(display).wf(),
        keyboard.wf(),
        old(stack)@.len() == old(registers).stack_pointer,
        old(registers).stack_pointer <= STACK_SIZE,
        old(registers).program_counter + 1 < MEMORY_SIZE,
    ensures
        final(memory).wf(),
        final(registers).wf(),
        final(display).wf(),
        final(stack)@.len() == final(registers).stack_pointer,
        final(registers).stack_pointer <= STACK_SIZE,
        exists|b: u8|
            #[trigger] step_outcome(
                machine_view(
                    *old(memory),
                    *old(registers),
                    old(stack)@,
                    *old(display),
                    *keyboard,
                ),
                machine_view(
                    *final(memory),
                    *final(registers),
                    final(stack)@,
                    *final(display),
                    *keyboard,
                ),
                instruction,
                b,
                result,
            ),
{
    let rnd = random_byte();
    let result = execute_with_random(
        instruction,
        rnd,
        memory,
        registers,
        stack,
        display,
        keyboard,
    );
    proof {
        assert(step_outcome(
            machine_view(*old(memory), *old(registers), old(stack)@, *old(display), *keyboard),
            machine_view(*memory, *registers, stack@, *display, *keyboard),
            instruction,
            rnd,
            result,
        ));
    }
    result
}

} // verus!
