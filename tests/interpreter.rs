use chip8::{decode, Chip8, Chip8Error, Instruction, FONTSET, PROGRAM_START};

fn machine_with(program: &[u8]) -> Chip8 {
    let mut m = Chip8::new();
    m.load_rom(program).expect("program fits");
    m
}

fn run(m: &mut Chip8, cycles: usize) {
    for _ in 0..cycles {
        m.step(0).expect("cycle succeeds");
    }
}

fn lit_cells(m: &Chip8) -> usize {
    m.get_display().iter().filter(|&&c| c).count()
}

#[test]
fn new_machine_starts_at_program_start_with_font() {
    let m = Chip8::new();
    assert_eq!(m.pc(), 0x200);
    assert_eq!(m.index_register(), 0);
    assert_eq!(m.stack_pointer(), 0);
    assert_eq!(m.delay_timer(), 0);
    assert_eq!(m.sound_timer(), 0);
    for a in 0..80u16 {
        assert_eq!(m.memory_at(a), FONTSET[a as usize]);
    }
    assert_eq!(m.memory_at(80), 0);
    for x in 0..16u8 {
        assert_eq!(m.register(x), 0);
    }
    assert_eq!(lit_cells(&m), 0);
}

#[test]
fn add_immediate_wraps_and_leaves_vf() {
    for x in 0..15u8 {
        let mut m = machine_with(&[0x6F, 0x07, 0x60 | x, 250, 0x70 | x, 10]);
        run(&mut m, 3);
        assert_eq!(m.register(x), 4);
        assert_eq!(m.register(0xF), 7);
        assert_eq!(m.pc(), 0x206);
    }
}

#[test]
fn add_registers_sets_carry() {
    let mut m = machine_with(&[0x61, 255, 0x62, 1, 0x81, 0x24]);
    run(&mut m, 3);
    assert_eq!(m.register(1), 0);
    assert_eq!(m.register(0xF), 1);

    let mut m = machine_with(&[0x61, 10, 0x62, 1, 0x81, 0x24]);
    run(&mut m, 3);
    assert_eq!(m.register(1), 11);
    assert_eq!(m.register(0xF), 0);
}

#[test]
fn subtract_registers_sets_no_borrow() {
    let mut m = machine_with(&[0x61, 5, 0x62, 10, 0x81, 0x25]);
    run(&mut m, 3);
    assert_eq!(m.register(1), 251);
    assert_eq!(m.register(0xF), 0);

    let mut m = machine_with(&[0x61, 10, 0x62, 5, 0x81, 0x25]);
    run(&mut m, 3);
    assert_eq!(m.register(1), 5);
    assert_eq!(m.register(0xF), 1);
}

#[test]
fn flag_write_wins_when_target_is_vf() {
    let mut m = machine_with(&[0x6F, 200, 0x61, 100, 0x8F, 0x14]);
    run(&mut m, 3);
    assert_eq!(m.register(0xF), 1);
}

#[test]
fn reverse_subtract_and_shifts() {
    let mut m = machine_with(&[0x61, 10, 0x62, 3, 0x81, 0x27]);
    run(&mut m, 3);
    assert_eq!(m.register(1), 249);
    assert_eq!(m.register(0xF), 0);

    let mut m = machine_with(&[0x61, 0x81, 0x81, 0x06]);
    run(&mut m, 2);
    assert_eq!(m.register(1), 0x40);
    assert_eq!(m.register(0xF), 1);

    let mut m = machine_with(&[0x61, 0x81, 0x81, 0x0E]);
    run(&mut m, 2);
    assert_eq!(m.register(1), 0x02);
    assert_eq!(m.register(0xF), 1);
}

#[test]
fn logic_operations() {
    let mut m = machine_with(&[0x61, 0b1100, 0x62, 0b1010, 0x83, 0x10, 0x83, 0x21, 0x84, 0x10, 0x84, 0x22, 0x85, 0x10, 0x85, 0x23]);
    run(&mut m, 8);
    assert_eq!(m.register(3), 0b1110);
    assert_eq!(m.register(4), 0b1000);
    assert_eq!(m.register(5), 0b0110);
}

#[test]
fn draw_twice_restores_screen() {
    // I = glyph "0", draw it at (0, 0) twice.
    let mut m = machine_with(&[0xA0, 0x00, 0xD0, 0x15, 0xD0, 0x15]);
    run(&mut m, 2);
    assert_eq!(m.register(0xF), 0);
    assert_eq!(lit_cells(&m), 14);
    assert!(m.get_display()[0]);
    assert!(m.get_display()[3]);
    assert!(!m.get_display()[4]);
    run(&mut m, 1);
    assert_eq!(m.register(0xF), 1);
    assert_eq!(lit_cells(&m), 0);
    assert_eq!(m.pc(), 0x206);
}

#[test]
fn draw_wraps_on_both_axes() {
    // Glyph "0" top row is 0xF0; draw one row at (62, 31).
    let mut m = machine_with(&[0x60, 62, 0x61, 31, 0xA0, 0x00, 0xD0, 0x11]);
    run(&mut m, 4);
    let d = m.get_display();
    assert!(d[31 * 64 + 62]);
    assert!(d[31 * 64 + 63]);
    assert!(d[31 * 64]);
    assert!(d[31 * 64 + 1]);
    assert_eq!(lit_cells(&m), 4);
}

#[test]
fn clear_screen() {
    let mut m = machine_with(&[0xA0, 0x00, 0xD0, 0x15, 0x00, 0xE0]);
    run(&mut m, 2);
    assert!(lit_cells(&m) > 0);
    run(&mut m, 1);
    assert_eq!(lit_cells(&m), 0);
    assert_eq!(m.pc(), 0x206);
}

#[test]
fn wait_for_key_blocks_until_pressed() {
    let mut m = machine_with(&[0xF5, 0x0A]);
    m.step(0).unwrap();
    assert_eq!(m.pc(), 0x200);
    m.step(0).unwrap();
    assert_eq!(m.pc(), 0x200);
    m.key_down(0x3);
    m.step(0).unwrap();
    assert_eq!(m.register(5), 0x3);
    assert_eq!(m.pc(), 0x202);
}

#[test]
fn wait_for_key_takes_lowest_pressed() {
    let mut m = machine_with(&[0xF5, 0x0A]);
    m.key_down(0xC);
    m.key_down(0x7);
    m.step(0).unwrap();
    assert_eq!(m.register(5), 0x7);
}

#[test]
fn wait_for_key_through_cycle() {
    let mut m = machine_with(&[0xF2, 0x0A]);
    m.cycle().unwrap();
    assert_eq!(m.pc(), 0x200);
    m.key_down(0x3);
    m.cycle().unwrap();
    assert_eq!(m.register(2), 0x3);
    assert_eq!(m.pc(), 0x202);
}

#[test]
fn store_then_load_round_trip() {
    let mut m = machine_with(&[
        0x60, 1, 0x61, 2, 0x62, 3, 0x63, 4, 0xA3, 0x00, 0xF3, 0x55, // store
        0x60, 0, 0x61, 0, 0x62, 0, 0x63, 0, 0xF3, 0x65, // load
    ]);
    run(&mut m, 6);
    for k in 0..4u16 {
        assert_eq!(m.memory_at(0x300 + k), (k + 1) as u8);
    }
    run(&mut m, 5);
    for k in 0..4u8 {
        assert_eq!(m.register(k), k + 1);
    }
    assert_eq!(m.index_register(), 0x300);
}

#[test]
fn delay_timer_stops_at_zero() {
    let mut m = machine_with(&[0x12, 0x00]);
    for _ in 0..300 {
        m.step(0).unwrap();
        assert_eq!(m.delay_timer(), 0);
    }

    let mut m = machine_with(&[0x60, 2, 0xF0, 0x15, 0x12, 0x04]);
    run(&mut m, 2);
    assert_eq!(m.delay_timer(), 1);
    run(&mut m, 1);
    assert_eq!(m.delay_timer(), 0);
    run(&mut m, 5);
    assert_eq!(m.delay_timer(), 0);
}

#[test]
fn sound_timer_counts_down_on_its_own() {
    let mut m = machine_with(&[0x60, 3, 0xF0, 0x18, 0xF1, 0x07, 0x12, 0x06]);
    run(&mut m, 2);
    assert_eq!(m.sound_timer(), 2);
    assert_eq!(m.delay_timer(), 0);
    run(&mut m, 1);
    assert_eq!(m.register(1), 0);
    assert_eq!(m.sound_timer(), 1);
    run(&mut m, 4);
    assert_eq!(m.sound_timer(), 0);
    assert_eq!(m.delay_timer(), 0);
}

#[test]
fn read_delay_timer() {
    let mut m = machine_with(&[0x60, 9, 0xF0, 0x15, 0xF1, 0x07]);
    run(&mut m, 3);
    // Set to 9, ticked once at the end of the setting cycle.
    assert_eq!(m.register(1), 8);
}

#[test]
fn bcd_of_255() {
    let mut m = machine_with(&[0x60, 255, 0xA3, 0x00, 0xF0, 0x33]);
    run(&mut m, 3);
    assert_eq!(m.memory_at(0x300), 2);
    assert_eq!(m.memory_at(0x301), 5);
    assert_eq!(m.memory_at(0x302), 5);
}

#[test]
fn bcd_outside_program_region_faults() {
    let mut m = machine_with(&[0x60, 255, 0xA1, 0x00, 0xF0, 0x33]);
    run(&mut m, 2);
    assert_eq!(m.step(0), Err(Chip8Error::OutOfBounds));
    assert_eq!(m.pc(), 0x204);
    assert_eq!(m.memory_at(0x100), 0);

    let mut m = machine_with(&[0xAF, 0xFE, 0xF0, 0x33]);
    run(&mut m, 1);
    assert_eq!(m.step(0), Err(Chip8Error::OutOfBounds));
}

#[test]
fn store_past_end_faults() {
    let mut m = machine_with(&[0xAF, 0xFE, 0xF3, 0x55]);
    run(&mut m, 1);
    assert_eq!(m.step(0), Err(Chip8Error::OutOfBounds));
    assert_eq!(m.memory_at(0xFFE), 0);
}

#[test]
fn load_past_end_faults() {
    let mut m = machine_with(&[0xAF, 0xFE, 0xF3, 0x65]);
    run(&mut m, 1);
    assert_eq!(m.step(0), Err(Chip8Error::OutOfBounds));
}

#[test]
fn draw_past_end_faults() {
    let mut m = machine_with(&[0xAF, 0xFF, 0xD0, 0x02]);
    run(&mut m, 1);
    assert_eq!(m.step(0), Err(Chip8Error::OutOfBounds));
    assert_eq!(lit_cells(&m), 0);
}

#[test]
fn font_glyph_address() {
    let mut m = machine_with(&[0x60, 0x1A, 0xF0, 0x29]);
    run(&mut m, 2);
    assert_eq!(m.index_register(), 50);
}

#[test]
fn add_to_index() {
    let mut m = machine_with(&[0x60, 0xFF, 0xAF, 0xFF, 0xF0, 0x1E]);
    run(&mut m, 3);
    assert_eq!(m.index_register(), 0x10FE);
}

#[test]
fn call_and_return() {
    // 0x200: call 0x206; 0x202: V1 = 7; 0x204: jump 0x204; 0x206: V2 = 9; 0x208: return
    let mut m = machine_with(&[0x22, 0x06, 0x61, 7, 0x12, 0x04, 0x62, 9, 0x00, 0xEE]);
    run(&mut m, 1);
    assert_eq!(m.pc(), 0x206);
    assert_eq!(m.stack_pointer(), 1);
    run(&mut m, 2);
    assert_eq!(m.pc(), 0x202);
    assert_eq!(m.stack_pointer(), 0);
    run(&mut m, 1);
    assert_eq!(m.register(1), 7);
    assert_eq!(m.register(2), 9);
}

#[test]
fn stack_overflow_faults() {
    let mut m = machine_with(&[0x22, 0x00]);
    run(&mut m, 16);
    assert_eq!(m.stack_pointer(), 16);
    assert_eq!(m.step(0), Err(Chip8Error::StackOverflow));
    assert_eq!(m.stack_pointer(), 16);
}

#[test]
fn stack_underflow_faults() {
    let mut m = machine_with(&[0x00, 0xEE]);
    assert_eq!(m.step(0), Err(Chip8Error::StackUnderflow));
    assert_eq!(m.pc(), 0x200);
}

#[test]
fn fetch_past_end_faults() {
    let mut m = machine_with(&[0x1F, 0xFF]);
    run(&mut m, 1);
    assert_eq!(m.pc(), 0xFFF);
    assert_eq!(m.step(0), Err(Chip8Error::OutOfBounds));
    assert_eq!(m.pc(), 0xFFF);
}

#[test]
fn jump_with_offset() {
    let mut m = machine_with(&[0x60, 4, 0xB3, 0x00]);
    run(&mut m, 2);
    assert_eq!(m.pc(), 0x304);
}

#[test]
fn conditional_skips() {
    let mut m = machine_with(&[0x60, 5, 0x30, 5]);
    run(&mut m, 2);
    assert_eq!(m.pc(), 0x206);

    let mut m = machine_with(&[0x60, 5, 0x40, 5]);
    run(&mut m, 2);
    assert_eq!(m.pc(), 0x204);

    let mut m = machine_with(&[0x60, 5, 0x61, 5, 0x50, 0x10]);
    run(&mut m, 3);
    assert_eq!(m.pc(), 0x208);

    let mut m = machine_with(&[0x60, 5, 0x61, 5, 0x90, 0x10]);
    run(&mut m, 3);
    assert_eq!(m.pc(), 0x206);
}

#[test]
fn key_skips() {
    let mut m = machine_with(&[0x60, 0x4, 0xE0, 0x9E]);
    m.key_down(0x4);
    run(&mut m, 2);
    assert_eq!(m.pc(), 0x206);

    let mut m = machine_with(&[0x60, 0x4, 0xE0, 0xA1]);
    m.key_down(0x4);
    m.key_up(0x4);
    run(&mut m, 2);
    assert_eq!(m.pc(), 0x206);
}

#[test]
fn key_skip_with_invalid_key_faults() {
    let mut m = machine_with(&[0x60, 0x10, 0xE0, 0x9E]);
    run(&mut m, 1);
    assert_eq!(m.step(0), Err(Chip8Error::InvalidKey));
    assert_eq!(m.pc(), 0x202);
}

#[test]
fn out_of_range_key_is_ignored() {
    let mut m = Chip8::new();
    m.key_down(0x10);
    for k in 0..16u8 {
        assert!(!m.is_key_down(k));
    }
    assert!(!m.is_key_down(0x10));
    m.key_down(0xF);
    assert!(m.is_key_down(0xF));
}

#[test]
fn random_uses_given_byte_masked() {
    let mut m = machine_with(&[0xC0, 0x0F]);
    m.step(0xAB).unwrap();
    assert_eq!(m.register(0), 0x0B);
}

#[test]
fn random_through_cycle_respects_mask() {
    let mut m = machine_with(&[0xC0, 0x0F]);
    m.cycle().unwrap();
    assert!(m.register(0) <= 0x0F);
    assert_eq!(m.pc(), 0x202);
}

#[test]
fn unknown_instruction_is_skipped() {
    let mut m = machine_with(&[0x51, 0x21, 0xFF, 0xFF]);
    run(&mut m, 2);
    assert_eq!(m.pc(), 0x204);
}

#[test]
fn load_rom_size_limit() {
    let mut m = Chip8::new();
    assert_eq!(m.load_rom(&vec![0xAA; 4096 - PROGRAM_START + 1]), Err(Chip8Error::OutOfBounds));
    assert_eq!(m.memory_at(0x200), 0);
    assert_eq!(m.load_rom(&vec![0xAA; 4096 - PROGRAM_START]), Ok(()));
    assert_eq!(m.memory_at(0x200), 0xAA);
    assert_eq!(m.memory_at(0xFFF), 0xAA);
    assert_eq!(m.memory_at(0x1FF), 0);
    assert_eq!(m.pc(), 0x200);
}

#[test]
fn decode_patterns() {
    assert_eq!(decode(0x00E0), Instruction::Clear);
    assert_eq!(decode(0x00EE), Instruction::Return);
    assert_eq!(decode(0x1ABC), Instruction::Jump { addr: 0xABC });
    assert_eq!(decode(0x8124), Instruction::AddReg { x: 1, y: 2 });
    assert_eq!(decode(0x812E), Instruction::ShiftLeft { x: 1 });
    assert_eq!(decode(0xD12F), Instruction::Draw { x: 1, y: 2, n: 0xF });
    assert_eq!(decode(0xE39E), Instruction::SkipKey { x: 3 });
    assert_eq!(decode(0xF165), Instruction::LoadRegs { x: 1 });
    assert_eq!(decode(0xC3A5), Instruction::Random { x: 3, kk: 0xA5 });
    assert_eq!(decode(0x5121), Instruction::Unknown);
    assert_eq!(decode(0x8128), Instruction::Unknown);
    assert_eq!(decode(0x0123), Instruction::Unknown);
    assert_eq!(decode(0xF0FF), Instruction::Unknown);
}
