use chip8::cpu::Cpu;
use chip8::fault::Fault;

/// A machine loaded with the given program bytes, after `ticks`
/// successful ticks.
fn run_program(bytes: &[u8], ticks: usize) -> Cpu {
    let program: Vec<u8> = bytes.to_vec();
    let mut cpu = Cpu::new(&program);
    for _ in 0..ticks {
        cpu.tick().expect("tick should not fault");
    }
    cpu
}

#[test]
fn clear_screen_program_blanks_every_pixel() {
    // Program bytes 00 E0 (CLS), one tick: every display pixel is false.
    let cpu = run_program(&[0x00, 0xE0], 1);
    for y in 0..32 {
        for x in 0..64 {
            assert!(!cpu.pixel(x, y));
        }
    }
    assert_eq!(cpu.program_counter(), 0x202);
}

#[test]
fn load_then_add_program_leaves_eight_in_v0() {
    // LD V0,5 then ADD V0,3; after two ticks V0 == 8 and the program
    // counter has advanced by 4 from the program base.
    let cpu = run_program(&[0x60, 0x05, 0x70, 0x03], 2);
    assert_eq!(cpu.register(0), 8);
    assert_eq!(cpu.program_counter(), 0x204);
}

#[test]
fn load_index_program_sets_the_index_register() {
    // LD I,0x20A; after one tick the index register holds 0x20A.
    let cpu = run_program(&[0xA2, 0x0A], 1);
    assert_eq!(cpu.index_register(), 0x20A);
}

#[test]
fn ret_returns_to_after_the_second_call() {
    // Two calls without a return, then one return: the program counter
    // lands just after the second call, not the first.
    let cpu = run_program(
        &[
            0x22, 0x04, // 0x200: CALL 0x204
            0x00, 0x00, // 0x202: (never reached)
            0x22, 0x08, // 0x204: CALL 0x208
            0x00, 0x00, // 0x206: (the expected return target)
            0x00, 0xEE, // 0x208: RET
        ],
        3,
    );
    assert_eq!(cpu.program_counter(), 0x206);
    assert_eq!(cpu.stack_pointer(), 1);
}

#[test]
fn call_then_ret_resumes_after_the_call() {
    let cpu = run_program(
        &[
            0x22, 0x04, // 0x200: CALL 0x204
            0x00, 0x00, // 0x202: (the expected return target)
            0x00, 0xEE, // 0x204: RET
        ],
        2,
    );
    assert_eq!(cpu.program_counter(), 0x202);
    assert_eq!(cpu.stack_pointer(), 0);
}

#[test]
fn unmatched_pattern_is_a_decode_fault() {
    let program: Vec<u8> = vec![0x5A, 0xB1];
    let mut cpu = Cpu::new(&program);
    assert_eq!(
        cpu.tick(),
        Err(Fault::DecodeFault { opcode: 0x5AB1, pc: 0x200 })
    );
    // The fault left the machine unchanged.
    assert_eq!(cpu.program_counter(), 0x200);
}

#[test]
fn machine_routine_jump_is_an_unimplemented_opcode_fault() {
    let program: Vec<u8> = vec![0x01, 0x23];
    let mut cpu = Cpu::new(&program);
    assert_eq!(
        cpu.tick(),
        Err(Fault::UnimplementedOpcode { opcode: 0x123, pc: 0x200 })
    );
}

#[test]
fn fetch_outside_memory_is_an_out_of_bounds_fault() {
    // JMP 0xFFF: the next fetch would need bytes 0xFFF and 0x1000.
    let program: Vec<u8> = vec![0x1F, 0xFF];
    let mut cpu = Cpu::new(&program);
    cpu.tick().expect("the jump itself succeeds");
    assert_eq!(
        cpu.tick(),
        Err(Fault::OutOfBoundsAccess { address: 0xFFF, pc: 0xFFF })
    );
}

#[test]
fn jump_sets_the_program_counter_directly() {
    let cpu = run_program(&[0x12, 0x34], 1);
    assert_eq!(cpu.program_counter(), 0x234);
}

#[test]
fn jump_with_offset_adds_v0() {
    let cpu = run_program(&[0x60, 0x05, 0xB2, 0x06], 2);
    assert_eq!(cpu.program_counter(), 0x20B);
}

#[test]
fn font_address_is_five_bytes_per_glyph() {
    // LD V3,7 then LD F,V3: the index points at glyph 7, five bytes in
    // from the glyph base.
    let cpu = run_program(&[0x63, 0x07, 0xF3, 0x29], 2);
    assert_eq!(cpu.index_register(), 35);
    // The glyph for 0 sits at the base itself.
    assert_eq!(cpu.memory_byte(0), 0xF0);
    assert_eq!(cpu.memory_byte(4), 0xF0);
}

#[test]
fn add_to_index_accumulates() {
    let cpu = run_program(&[0xA1, 0x23, 0x64, 0x05, 0xF4, 0x1E], 3);
    assert_eq!(cpu.index_register(), 0x128);
}

#[test]
fn random_with_zero_mask_is_zero() {
    let cpu = run_program(&[0xC1, 0x00], 1);
    assert_eq!(cpu.register(1), 0);
}

#[test]
fn random_stays_within_the_mask() {
    let cpu = run_program(&[0xC0, 0x0F], 1);
    assert_eq!(cpu.register(0) & 0xF0, 0);
}

#[test]
fn timers_load_store_and_count_down() {
    // LD V0,5; LD DT,V0; LD ST,V0; LD V1,DT.
    let mut cpu = run_program(&[0x60, 0x05, 0xF0, 0x15, 0xF0, 0x18, 0xF1, 0x07], 4);
    assert_eq!(cpu.delay_timer(), 5);
    assert_eq!(cpu.sound_timer(), 5);
    assert_eq!(cpu.register(1), 5);
    cpu.tick_timers();
    assert_eq!(cpu.delay_timer(), 4);
    assert_eq!(cpu.sound_timer(), 4);
    for _ in 0..10 {
        cpu.tick_timers();
    }
    assert_eq!(cpu.delay_timer(), 0, "timers stop at zero");
    assert_eq!(cpu.sound_timer(), 0);
}

#[test]
fn program_bytes_are_loaded_at_the_program_base() {
    let program: Vec<u8> = vec![0x12, 0x00, 0xAB];
    let cpu = Cpu::new(&program);
    assert_eq!(cpu.memory_byte(0x200), 0x12);
    assert_eq!(cpu.memory_byte(0x201), 0x00);
    assert_eq!(cpu.memory_byte(0x202), 0xAB);
    assert_eq!(cpu.memory_byte(0x100), 0, "outside font and program, memory is zero");
    assert_eq!(cpu.program_counter(), 0x200);
    assert_eq!(cpu.index_register(), 0);
    for reg in 0..16 {
        assert_eq!(cpu.register(reg), 0);
    }
}

#[test]
fn store_registers_program_roundtrip() {
    // V0=11, V1=22; I=0x300; store V0..=V1; reset I; load back into a
    // machine whose registers were overwritten meanwhile.
    let cpu = run_program(
        &[
            0x60, 0x0B, // V0 = 11
            0x61, 0x16, // V1 = 22
            0xA3, 0x00, // I = 0x300
            0xF1, 0x55, // store V0..=V1
            0x60, 0x00, // V0 = 0
            0x61, 0x00, // V1 = 0
            0xA3, 0x00, // I = 0x300
            0xF1, 0x65, // load V0..=V1
        ],
        8,
    );
    assert_eq!(cpu.register(0), 11);
    assert_eq!(cpu.register(1), 22);
    assert_eq!(cpu.memory_byte(0x300), 11);
    assert_eq!(cpu.memory_byte(0x301), 22);
    assert_eq!(cpu.index_register(), 0x302);
}
