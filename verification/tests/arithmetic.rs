use chip8::display::Display;
use chip8::executions::execute_with_random;
use chip8::instructions::Instruction;
use chip8::keyboard::Keyboard;
use chip8::memory::Memory;
use chip8::registers::Registers;

/// A machine with the given general-register values, ready for one
/// direct instruction execution.
fn machine(vs: &[(usize, u8)]) -> (Memory, Registers, Vec<u16>, Display, Keyboard) {
    let memory = Memory::new(&Vec::new());
    let mut registers = Registers::new();
    for &(reg, value) in vs {
        registers.vs[reg] = value;
    }
    (memory, registers, Vec::new(), Display::new(), Keyboard::new())
}

fn run(
    instruction: Instruction,
    parts: &mut (Memory, Registers, Vec<u16>, Display, Keyboard),
) {
    let (memory, registers, stack, display, keyboard) = parts;
    execute_with_random(instruction, 0, memory, registers, stack, display, keyboard)
        .expect("instruction should execute");
}

#[test]
fn add_immediate_wraps_modulo_256() {
    // The full table: plain sums, the wraparound at 255, and both ends.
    for &(initial, imm, expected) in &[
        (0u8, 0u8, 0u8),
        (5, 3, 8),
        (250, 10, 4),
        (255, 1, 0),
        (255, 255, 254),
        (128, 128, 0),
    ] {
        let mut parts = machine(&[(0, initial)]);
        run(Instruction::ADD { reg_id: 0, value: imm }, &mut parts);
        assert_eq!(parts.1.vs[0], expected);
        assert_eq!(parts.1.program_counter, 2);
    }
}

#[test]
fn register_add_sets_carry_iff_sum_exceeds_255() {
    for &(a, b, expected, carry) in &[
        (0u8, 0u8, 0u8, 0u8),
        (1, 2, 3, 0),
        (200, 100, 44, 1),
        (255, 1, 0, 1),
        (255, 255, 254, 1),
        (100, 155, 255, 0),
    ] {
        let mut parts = machine(&[(0, a), (1, b)]);
        run(Instruction::ADDXY { x_reg_id: 0, y_reg_id: 1 }, &mut parts);
        assert_eq!(parts.1.vs[0], expected);
        assert_eq!(parts.1.vs[0xF], carry);
    }
}

#[test]
fn subtraction_flags_follow_the_borrow_convention() {
    // VF is 1 exactly when a borrow occurs (minuend < subtrahend).
    for &(a, b, expected, borrow) in &[
        (5u8, 3u8, 2u8, 0u8),
        (3, 5, 254, 1),
        (7, 7, 0, 0),
        (0, 1, 255, 1),
        (255, 0, 255, 0),
    ] {
        let mut parts = machine(&[(0, a), (1, b)]);
        run(Instruction::SUBXY { x_reg_id: 0, y_reg_id: 1 }, &mut parts);
        assert_eq!(parts.1.vs[0], expected, "SUBXY result for {} - {}", a, b);
        assert_eq!(parts.1.vs[0xF], borrow, "SUBXY flag for {} - {}", a, b);
    }
    // The reversed subtraction follows the same convention with the
    // operands swapped.
    for &(a, b, expected, borrow) in &[
        (3u8, 5u8, 2u8, 0u8),
        (5, 3, 254, 1),
        (7, 7, 0, 0),
        (1, 0, 255, 1),
    ] {
        let mut parts = machine(&[(0, a), (1, b)]);
        run(Instruction::RSUBXY { x_reg_id: 0, y_reg_id: 1 }, &mut parts);
        assert_eq!(parts.1.vs[0], expected, "RSUBXY result for {} - {}", b, a);
        assert_eq!(parts.1.vs[0xF], borrow, "RSUBXY flag for {} - {}", b, a);
    }
}

#[test]
fn bitwise_register_operations() {
    let mut parts = machine(&[(2, 0b1100), (3, 0b1010)]);
    run(Instruction::ORXY { x_reg_id: 2, y_reg_id: 3 }, &mut parts);
    assert_eq!(parts.1.vs[2], 0b1110);

    let mut parts = machine(&[(2, 0b1100), (3, 0b1010)]);
    run(Instruction::ANDXY { x_reg_id: 2, y_reg_id: 3 }, &mut parts);
    assert_eq!(parts.1.vs[2], 0b1000);

    let mut parts = machine(&[(2, 0b1100), (3, 0b1010)]);
    run(Instruction::XORXY { x_reg_id: 2, y_reg_id: 3 }, &mut parts);
    assert_eq!(parts.1.vs[2], 0b0110);

    let mut parts = machine(&[(4, 77)]);
    run(Instruction::MOVXY { x_reg_id: 5, y_reg_id: 4 }, &mut parts);
    assert_eq!(parts.1.vs[5], 77);
}

#[test]
fn shifts_capture_the_dropped_bit() {
    let mut parts = machine(&[(0, 0x07)]);
    run(Instruction::SHR { reg_id: 0 }, &mut parts);
    assert_eq!(parts.1.vs[0], 0x03);
    assert_eq!(parts.1.vs[0xF], 1);

    let mut parts = machine(&[(0, 0x06)]);
    run(Instruction::SHR { reg_id: 0 }, &mut parts);
    assert_eq!(parts.1.vs[0], 0x03);
    assert_eq!(parts.1.vs[0xF], 0);

    let mut parts = machine(&[(0, 0x81)]);
    run(Instruction::SHL { reg_id: 0 }, &mut parts);
    assert_eq!(parts.1.vs[0], 0x02);
    assert_eq!(parts.1.vs[0xF], 1);

    let mut parts = machine(&[(0, 0x41)]);
    run(Instruction::SHL { reg_id: 0 }, &mut parts);
    assert_eq!(parts.1.vs[0], 0x82);
    assert_eq!(parts.1.vs[0xF], 0);
}

#[test]
fn skip_instructions_advance_by_exactly_two_or_four() {
    // Every member of the skip family, in both the taken and the
    // untaken direction, moves the program counter by 4 or by 2.
    let cases: &[(Instruction, &[(usize, u8)], u16)] = &[
        (Instruction::SE { reg_id: 0, value: 5 }, &[(0, 5)], 4),
        (Instruction::SE { reg_id: 0, value: 5 }, &[(0, 6)], 2),
        (Instruction::SNE { reg_id: 0, value: 5 }, &[(0, 6)], 4),
        (Instruction::SNE { reg_id: 0, value: 5 }, &[(0, 5)], 2),
        (Instruction::SEXY { x_reg_id: 0, y_reg_id: 1 }, &[(0, 9), (1, 9)], 4),
        (Instruction::SEXY { x_reg_id: 0, y_reg_id: 1 }, &[(0, 9), (1, 8)], 2),
        (Instruction::SNEXY { x_reg_id: 0, y_reg_id: 1 }, &[(0, 9), (1, 8)], 4),
        (Instruction::SNEXY { x_reg_id: 0, y_reg_id: 1 }, &[(0, 9), (1, 9)], 2),
        (Instruction::SKP { reg_id: 0 }, &[(0, 3)], 2),
        (Instruction::SKNP { reg_id: 0 }, &[(0, 3)], 4),
    ];
    for (instruction, vs, advance) in cases {
        let mut parts = machine(vs);
        run(*instruction, &mut parts);
        assert_eq!(parts.1.program_counter, *advance);
    }
}

#[test]
fn store_and_load_runs_advance_the_index() {
    let mut parts = machine(&[(0, 11), (1, 22), (2, 33), (3, 99)]);
    parts.1.i = 0x300;
    run(Instruction::STR { reg_id: 2 }, &mut parts);
    assert_eq!(parts.0.read(0x300), 11);
    assert_eq!(parts.0.read(0x301), 22);
    assert_eq!(parts.0.read(0x302), 33);
    assert_eq!(parts.0.read(0x303), 0);
    assert_eq!(parts.1.i, 0x303);

    // Load the stored run back into fresh registers.
    parts.1.i = 0x300;
    for reg in 0..4 {
        parts.1.vs[reg] = 0;
    }
    run(Instruction::LDR { reg_id: 2 }, &mut parts);
    assert_eq!(parts.1.vs[0], 11);
    assert_eq!(parts.1.vs[1], 22);
    assert_eq!(parts.1.vs[2], 33);
    assert_eq!(parts.1.vs[3], 0);
    assert_eq!(parts.1.i, 0x303);
}

#[test]
fn binary_coded_decimal_writes_three_digits() {
    let mut parts = machine(&[(2, 237)]);
    parts.1.i = 0x300;
    run(Instruction::BCD { reg_id: 2 }, &mut parts);
    assert_eq!(parts.0.read(0x300), 2);
    assert_eq!(parts.0.read(0x301), 3);
    assert_eq!(parts.0.read(0x302), 7);
    assert_eq!(parts.1.i, 0x300, "the index register is unchanged");

    let mut parts = machine(&[(2, 9)]);
    parts.1.i = 0x300;
    run(Instruction::BCD { reg_id: 2 }, &mut parts);
    assert_eq!(parts.0.read(0x300), 0);
    assert_eq!(parts.0.read(0x301), 0);
    assert_eq!(parts.0.read(0x302), 9);
}

#[test]
fn random_masks_with_the_immediate() {
    // Whatever the random source yields, bits outside the mask are 0;
    // with the caller-supplied byte the result is exact.
    let mut parts = machine(&[]);
    let (memory, registers, stack, display, keyboard) = &mut parts;
    execute_with_random(
        Instruction::RAND { reg_id: 0, value: 0x0F },
        0xAB,
        memory,
        registers,
        stack,
        display,
        keyboard,
    )
    .expect("random instruction should execute");
    assert_eq!(parts.1.vs[0], 0x0B);
}
