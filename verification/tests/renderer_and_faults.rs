use chip8::cpu::Cpu;
use chip8::display::Display;
use chip8::executions::execute_with_random;
use chip8::fault::Fault;
use chip8::instructions::Instruction;
use chip8::keyboard::Keyboard;
use chip8::memory::Memory;
use chip8::registers::Registers;
use chip8::Renderer;

/// A test renderer that records every pixel it is handed and how often
/// it was flushed.
struct RecordingRenderer {
    pixels: Vec<(usize, usize, bool)>,
    flushes: usize,
}

impl Renderer for RecordingRenderer {
    fn pixel(&mut self, x: usize, y: usize, is_set: bool) {
        self.pixels.push((x, y, is_set));
    }

    fn flush(&mut self) {
        self.flushes += 1;
    }
}

#[test]
fn render_pass_hands_over_every_pixel_then_flushes() {
    // Draw the two leftmost pixels of the top row, then render.
    let program: Vec<u8> = vec![
        0xA2, 0x06, // I = 0x206
        0xD0, 0x01, // DRW V0,V0,1
        0x00, 0x00, 0xC0, // sprite row 0b1100_0000
    ];
    let mut cpu = Cpu::new(&program);
    cpu.tick().unwrap();
    cpu.tick().unwrap();
    let mut renderer = RecordingRenderer { pixels: Vec::new(), flushes: 0 };
    cpu.render_pass(&mut renderer);
    assert_eq!(renderer.flushes, 1);
    assert_eq!(renderer.pixels.len(), 64 * 32);
    assert_eq!(renderer.pixels[0], (0, 0, true));
    assert_eq!(renderer.pixels[1], (1, 0, true));
    assert_eq!(renderer.pixels[2], (2, 0, false));
    assert_eq!(renderer.pixels[64], (0, 1, false));
}

#[test]
fn sprite_read_past_memory_is_an_out_of_bounds_fault() {
    let mut memory = Memory::new(&Vec::new());
    let mut registers = Registers::new();
    registers.program_counter = 0x200;
    registers.i = 0xFFF;
    let mut stack: Vec<u16> = Vec::new();
    let mut display = Display::new();
    let keyboard = Keyboard::new();
    assert_eq!(
        execute_with_random(
            Instruction::DRW { x_reg_id: 0, y_reg_id: 1, value: 2 },
            0,
            &mut memory,
            &mut registers,
            &mut stack,
            &mut display,
            &keyboard,
        ),
        Err(Fault::OutOfBoundsAccess { address: 0x1000, pc: 0x200 })
    );
    // A one-row sprite still fits at the last byte.
    execute_with_random(
        Instruction::DRW { x_reg_id: 0, y_reg_id: 1, value: 1 },
        0,
        &mut memory,
        &mut registers,
        &mut stack,
        &mut display,
        &keyboard,
    )
    .expect("a sprite ending at the last byte is in bounds");
}

#[test]
fn register_store_past_memory_is_an_out_of_bounds_fault() {
    let mut memory = Memory::new(&Vec::new());
    let mut registers = Registers::new();
    registers.program_counter = 0x200;
    registers.i = 0xFFE;
    let mut stack: Vec<u16> = Vec::new();
    let mut display = Display::new();
    let keyboard = Keyboard::new();
    assert_eq!(
        execute_with_random(
            Instruction::STR { reg_id: 2 },
            0,
            &mut memory,
            &mut registers,
            &mut stack,
            &mut display,
            &keyboard,
        ),
        Err(Fault::OutOfBoundsAccess { address: 0x1000, pc: 0x200 })
    );
    assert_eq!(registers.i, 0xFFE, "the fault changed nothing");
    assert_eq!(
        execute_with_random(
            Instruction::LDR { reg_id: 2 },
            0,
            &mut memory,
            &mut registers,
            &mut stack,
            &mut display,
            &keyboard,
        ),
        Err(Fault::OutOfBoundsAccess { address: 0x1000, pc: 0x200 })
    );
}

#[test]
fn digit_write_past_memory_is_an_out_of_bounds_fault() {
    let mut memory = Memory::new(&Vec::new());
    let mut registers = Registers::new();
    registers.program_counter = 0x200;
    registers.i = 0xFFE;
    let mut stack: Vec<u16> = Vec::new();
    let mut display = Display::new();
    let keyboard = Keyboard::new();
    assert_eq!(
        execute_with_random(
            Instruction::BCD { reg_id: 0 },
            0,
            &mut memory,
            &mut registers,
            &mut stack,
            &mut display,
            &keyboard,
        ),
        Err(Fault::OutOfBoundsAccess { address: 0x1000, pc: 0x200 })
    );
    registers.i = 0xFFD;
    execute_with_random(
        Instruction::BCD { reg_id: 0 },
        0,
        &mut memory,
        &mut registers,
        &mut stack,
        &mut display,
        &keyboard,
    )
    .expect("three digits ending at the last byte are in bounds");
}

#[test]
fn index_register_keeps_its_low_twelve_bits() {
    let mut memory = Memory::new(&Vec::new());
    let mut registers = Registers::new();
    registers.program_counter = 0x200;
    registers.i = 0xFFF;
    registers.vs[0] = 0x10;
    let mut stack: Vec<u16> = Vec::new();
    let mut display = Display::new();
    let keyboard = Keyboard::new();
    execute_with_random(
        Instruction::ADI { reg_id: 0 },
        0,
        &mut memory,
        &mut registers,
        &mut stack,
        &mut display,
        &keyboard,
    )
    .expect("adding to the index register does not fault");
    assert_eq!(registers.i, 0x00F, "0xFFF + 0x10, kept to 12 bits");
}
