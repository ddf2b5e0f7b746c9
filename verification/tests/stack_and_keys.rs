use chip8::cpu::Cpu;
use chip8::cpu::STACK_SIZE;
use chip8::display::Display;
use chip8::executions::execute_with_random;
use chip8::fault::Fault;
use chip8::instructions::Instruction;
use chip8::keyboard::Keyboard;
use chip8::memory::Memory;
use chip8::registers::Registers;

#[test]
fn nesting_to_capacity_succeeds_and_one_more_overflows() {
    let mut memory = Memory::new(&Vec::new());
    let mut registers = Registers::new();
    registers.program_counter = 0x200;
    let mut stack: Vec<u16> = Vec::new();
    let mut display = Display::new();
    let keyboard = Keyboard::new();
    let call = Instruction::JSR { address: 0x200 };
    for depth in 1..=STACK_SIZE {
        execute_with_random(
            call,
            0,
            &mut memory,
            &mut registers,
            &mut stack,
            &mut display,
            &keyboard,
        )
        .expect("calls up to the stack capacity succeed");
        assert_eq!(registers.stack_pointer as usize, depth);
    }
    assert_eq!(
        execute_with_random(
            call,
            0,
            &mut memory,
            &mut registers,
            &mut stack,
            &mut display,
            &keyboard,
        ),
        Err(Fault::StackOverflow { pc: 0x200 })
    );
    assert_eq!(registers.stack_pointer as usize, STACK_SIZE, "the fault changed nothing");
}

#[test]
fn returning_from_an_empty_stack_underflows() {
    let mut memory = Memory::new(&Vec::new());
    let mut registers = Registers::new();
    registers.program_counter = 0x200;
    let mut stack: Vec<u16> = Vec::new();
    let mut display = Display::new();
    let keyboard = Keyboard::new();
    assert_eq!(
        execute_with_random(
            Instruction::RTS,
            0,
            &mut memory,
            &mut registers,
            &mut stack,
            &mut display,
            &keyboard,
        ),
        Err(Fault::StackUnderflow { pc: 0x200 })
    );
    assert_eq!(registers.program_counter, 0x200);
}

#[test]
fn press_and_release_are_independent_and_idempotent() {
    let mut keyboard = Keyboard::new();
    for key in 0..16 {
        assert!(!keyboard.is_pressed(key));
        assert!(keyboard.is_released(key));
    }
    keyboard.set_pressed(5);
    keyboard.set_pressed(5);
    assert!(keyboard.is_pressed(5));
    assert!(!keyboard.is_pressed(4));
    keyboard.set_released(5);
    keyboard.set_released(5);
    assert!(keyboard.is_released(5));
    keyboard.set_released(7);
    assert!(keyboard.is_released(7));
    assert!(!keyboard.is_pressed(200), "codes outside the 16 keys are never pressed");
}

#[test]
fn skip_if_pressed_reacts_to_the_keyboard() {
    // LD V0,5 then SKP V0.
    let program: Vec<u8> = vec![0x60, 0x05, 0xE0, 0x9E];
    let mut cpu = Cpu::new(&program);
    cpu.tick().unwrap();
    cpu.tick().unwrap();
    assert_eq!(cpu.program_counter(), 0x204, "key 5 up: no skip");

    let mut cpu = Cpu::new(&program);
    cpu.pressed_key(5);
    cpu.tick().unwrap();
    cpu.tick().unwrap();
    assert_eq!(cpu.program_counter(), 0x206, "key 5 down: skip");
}

#[test]
fn skip_if_not_pressed_is_the_inverse() {
    // LD V0,5 then SKNP V0.
    let program: Vec<u8> = vec![0x60, 0x05, 0xE0, 0xA1];
    let mut cpu = Cpu::new(&program);
    cpu.tick().unwrap();
    cpu.tick().unwrap();
    assert_eq!(cpu.program_counter(), 0x206, "key 5 up: skip");

    let mut cpu = Cpu::new(&program);
    cpu.pressed_key(5);
    cpu.tick().unwrap();
    cpu.tick().unwrap();
    assert_eq!(cpu.program_counter(), 0x204, "key 5 down: no skip");
}

#[test]
fn wait_for_key_blocks_until_a_press() {
    let program: Vec<u8> = vec![0xF5, 0x0A];
    let mut cpu = Cpu::new(&program);
    // No key pressed: the instruction runs again on every tick.
    cpu.tick().unwrap();
    cpu.tick().unwrap();
    assert_eq!(cpu.program_counter(), 0x200);
    assert_eq!(cpu.register(5), 0);
    // A press lets the tick complete and records the key.
    cpu.pressed_key(9);
    cpu.tick().unwrap();
    assert_eq!(cpu.program_counter(), 0x202);
    assert_eq!(cpu.register(5), 9);
}

#[test]
fn wait_for_key_takes_the_lowest_pressed_code() {
    let program: Vec<u8> = vec![0xF5, 0x0A];
    let mut cpu = Cpu::new(&program);
    cpu.pressed_key(9);
    cpu.pressed_key(3);
    cpu.tick().unwrap();
    assert_eq!(cpu.register(5), 3);
}

#[test]
fn released_key_stops_a_skip() {
    let program: Vec<u8> = vec![0x60, 0x05, 0xE0, 0x9E];
    let mut cpu = Cpu::new(&program);
    cpu.pressed_key(5);
    cpu.released_key(5);
    cpu.tick().unwrap();
    cpu.tick().unwrap();
    assert_eq!(cpu.program_counter(), 0x204);
}
