use chip8::{decode, lowest_held, ExecError, Instruction, Sprite, State};

const NO_KEYS: [bool; 16] = [false; 16];

fn machine(program: &[u8]) -> State {
    let mut s = State::new(700);
    assert!(s.load_program(program));
    s
}

fn run(s: &mut State, cycles: usize) {
    for _ in 0..cycles {
        s.step(&NO_KEYS).unwrap();
    }
}

#[test]
fn load_then_add_two_cycles() {
    let mut s = machine(&[0x60, 0x0A, 0x70, 0x05]);
    run(&mut s, 2);
    assert_eq!(s.register(0), 0x0F);
    assert_eq!(s.pc(), 0x204);
}

#[test]
fn draw_full_row_twice_collides() {
    // I = 0x206, draw V0,V0 with one row twice; the sprite byte sits at 0x206.
    let mut s = machine(&[0xA2, 0x06, 0xD0, 0x01, 0xD0, 0x01, 0xFF]);
    run(&mut s, 1);
    let frame = s.step(&NO_KEYS).unwrap();
    let frame = frame.expect("a draw returns the frame");
    for x in 0..64u8 {
        assert_eq!(s.pixel(x, 0), x < 8);
        assert_eq!(frame[x as usize], x < 8);
    }
    for y in 1..32u8 {
        for x in 0..64u8 {
            assert!(!s.pixel(x, y));
        }
    }
    assert_eq!(s.register(0xF), 0);
    run(&mut s, 1);
    for x in 0..64u8 {
        assert!(!s.pixel(x, 0));
    }
    assert_eq!(s.register(0xF), 1);
}

#[test]
fn store_bcd_of_234() {
    let mut s = machine(&[0x63, 0xEA, 0xA3, 0x00, 0xF3, 0x33]);
    run(&mut s, 3);
    assert_eq!(s.memory_at(0x300), 2);
    assert_eq!(s.memory_at(0x301), 3);
    assert_eq!(s.memory_at(0x302), 4);
}

#[test]
fn add_immediate_wraps_past_255() {
    let mut s = machine(&[0x65, 0xFF, 0x75, 0x02]);
    run(&mut s, 2);
    assert_eq!(s.register(5), 0x01);
    assert_eq!(s.register(0xF), 0);
}

#[test]
fn add_with_carry_sets_flag() {
    let mut s = machine(&[0x61, 0xF0, 0x62, 0x20, 0x81, 0x24]);
    run(&mut s, 3);
    assert_eq!(s.register(1), 0x10);
    assert_eq!(s.register(0xF), 1);
}

#[test]
fn add_with_carry_without_overflow() {
    let mut s = machine(&[0x61, 0x70, 0x62, 0x0F, 0x6F, 0x09, 0x81, 0x24]);
    run(&mut s, 4);
    assert_eq!(s.register(1), 0x7F);
    assert_eq!(s.register(0xF), 0);
}

#[test]
fn clear_then_draw_twice_restores_frame() {
    // Font digit 0 at V0 = 3, V1 = 4; draw twice after a clear.
    let mut s = machine(&[0x60, 0x03, 0x61, 0x04, 0xA0, 0x50, 0x00, 0xE0, 0xD0, 0x15, 0xD0, 0x15]);
    run(&mut s, 4);
    let after_clear = s.display();
    let first = s.step(&NO_KEYS).unwrap().unwrap();
    assert_eq!(s.register(0xF), 0);
    // Digit 0's first row is 0xF0: columns 3..7 of row 4 are on.
    for x in 0..64u8 {
        assert_eq!(first[4 * 64 + x as usize], (3..7).contains(&x));
    }
    let lit = first.iter().filter(|p| **p).count();
    assert_eq!(lit, 14);
    let second = s.step(&NO_KEYS).unwrap().unwrap();
    assert_eq!(second, after_clear);
    assert_eq!(s.register(0xF), 1);
}

#[test]
fn call_then_return_restores_pc() {
    let mut program = vec![0u8; 0x102];
    program[0] = 0x23;
    program[1] = 0x00;
    program[0x100] = 0x00;
    program[0x101] = 0xEE;
    let mut s = machine(&program);
    run(&mut s, 1);
    assert_eq!(s.pc(), 0x300);
    assert_eq!(s.stack_pointer(), 1);
    run(&mut s, 1);
    assert_eq!(s.pc(), 0x202);
    assert_eq!(s.stack_pointer(), 0);
}

#[test]
fn skip_taken_advances_four() {
    let mut s = machine(&[0x30, 0x00]);
    run(&mut s, 1);
    assert_eq!(s.pc(), 0x204);
}

#[test]
fn skip_not_taken_advances_two() {
    let mut s = machine(&[0x30, 0x01]);
    run(&mut s, 1);
    assert_eq!(s.pc(), 0x202);
}

#[test]
fn skip_on_register_compare() {
    let mut s = machine(&[0x61, 0x07, 0x62, 0x07, 0x51, 0x20]);
    run(&mut s, 3);
    assert_eq!(s.pc(), 0x208);
    let mut s = machine(&[0x61, 0x07, 0x62, 0x07, 0x91, 0x20]);
    run(&mut s, 3);
    assert_eq!(s.pc(), 0x206);
}

#[test]
fn skip_on_key() {
    let mut keys = [false; 16];
    keys[7] = true;
    let mut s = machine(&[0x63, 0x07, 0xE3, 0x9E]);
    s.step(&keys).unwrap();
    s.step(&keys).unwrap();
    assert_eq!(s.pc(), 0x206);
    let mut s = machine(&[0x63, 0x07, 0xE3, 0xA1]);
    s.step(&keys).unwrap();
    s.step(&keys).unwrap();
    assert_eq!(s.pc(), 0x204);
    let mut s = machine(&[0x63, 0x07, 0xE3, 0xA1]);
    run(&mut s, 2);
    assert_eq!(s.pc(), 0x206);
}

#[test]
fn invalid_opcode_is_reported() {
    let mut s = machine(&[0x50, 0x01]);
    assert_eq!(s.step(&NO_KEYS), Err(ExecError::InvalidOpcode { word: 0x5001 }));
    assert_eq!(s.pc(), 0x200);
}

#[test]
fn return_on_empty_stack_underflows() {
    let mut s = machine(&[0x00, 0xEE]);
    assert_eq!(s.step(&NO_KEYS), Err(ExecError::StackUnderflow));
    assert_eq!(s.pc(), 0x200);
    assert_eq!(s.stack_pointer(), 0);
}

#[test]
fn seventeenth_nested_call_overflows() {
    let mut s = machine(&[0x22, 0x00]);
    run(&mut s, 16);
    assert_eq!(s.stack_pointer(), 16);
    assert_eq!(s.step(&NO_KEYS), Err(ExecError::StackOverflow));
    assert_eq!(s.stack_pointer(), 16);
    assert_eq!(s.pc(), 0x200);
}

#[test]
fn fetch_at_top_wraps_to_program_start() {
    // Jump to 0xFFE, where 60 01 (V0 = 1) sits in the last two bytes.
    let mut program = vec![0u8; 4096 - 0x200];
    program[0] = 0x1F;
    program[1] = 0xFE;
    program[4094 - 0x200] = 0x60;
    program[4095 - 0x200] = 0x01;
    let mut s = machine(&program);
    run(&mut s, 1);
    assert_eq!(s.pc(), 0xFFE);
    run(&mut s, 1);
    assert_eq!(s.register(0), 0x01);
    assert_eq!(s.pc(), 0x200);
}

#[test]
fn fetch_at_4095_wraps_to_program_start() {
    // V0 = 0xFF, jump to V0 + 0xF00 = 0xFFF; that cycle reads nothing.
    let mut s = machine(&[0x60, 0xFF, 0xBF, 0x00]);
    run(&mut s, 2);
    assert_eq!(s.pc(), 0xFFF);
    assert_eq!(s.step(&NO_KEYS), Ok(None));
    assert_eq!(s.pc(), 0x200);
    assert_eq!(s.register(0), 0xFF);
}

#[test]
fn skip_at_top_wraps_to_program_start() {
    // At 0xFFC: 30 00 (skip if V0 == 0), taken: 0xFFE would follow, then wrap.
    let mut program = vec![0u8; 4096 - 0x200];
    program[0] = 0x1F;
    program[1] = 0xFC;
    program[4092 - 0x200] = 0x30;
    program[4093 - 0x200] = 0x00;
    let mut s = machine(&program);
    run(&mut s, 2);
    assert_eq!(s.pc(), 0x200);
}

#[test]
fn wait_key_repeats_until_pressed() {
    let mut s = machine(&[0xF1, 0x0A, 0x62, 0x01]);
    run(&mut s, 3);
    assert_eq!(s.pc(), 0x200);
    assert_eq!(s.register(1), 0);
    assert_eq!(s.register(2), 0);
    let mut keys = [false; 16];
    keys[9] = true;
    keys[5] = true;
    assert_eq!(s.step(&keys), Ok(None));
    assert_eq!(s.register(1), 5);
    assert_eq!(s.pc(), 0x202);
    run(&mut s, 1);
    assert_eq!(s.register(2), 1);
}

#[test]
fn wait_key_with_key_held_completes_at_once() {
    let mut keys = [false; 16];
    keys[0xC] = true;
    let mut s = machine(&[0xF4, 0x0A]);
    s.step(&keys).unwrap();
    assert_eq!(s.register(4), 0xC);
    assert_eq!(s.pc(), 0x202);
}

#[test]
fn lowest_held_key() {
    let mut keys = [false; 16];
    assert_eq!(lowest_held(&keys), None);
    keys[15] = true;
    keys[3] = true;
    assert_eq!(lowest_held(&keys), Some(3));
}

#[test]
fn subtract_and_reverse_subtract() {
    let mut s = machine(&[0x61, 0x05, 0x62, 0x08, 0x81, 0x25]);
    run(&mut s, 3);
    assert_eq!(s.register(1), 0xFD);
    assert_eq!(s.register(0xF), 0);
    let mut s = machine(&[0x61, 0x05, 0x62, 0x08, 0x81, 0x27]);
    run(&mut s, 3);
    assert_eq!(s.register(1), 0x03);
    assert_eq!(s.register(0xF), 1);
}

#[test]
fn shifts_report_the_bit_shifted_out() {
    let mut s = machine(&[0x61, 0x81, 0x81, 0x06]);
    run(&mut s, 2);
    assert_eq!(s.register(1), 0x40);
    assert_eq!(s.register(0xF), 1);
    let mut s = machine(&[0x61, 0x81, 0x81, 0x0E]);
    run(&mut s, 2);
    assert_eq!(s.register(1), 0x02);
    assert_eq!(s.register(0xF), 1);
}

#[test]
fn bitwise_operations() {
    let mut s = machine(&[0x61, 0x0C, 0x62, 0x0A, 0x63, 0x0C, 0x64, 0x0C, 0x81, 0x21, 0x83, 0x22, 0x84, 0x23]);
    run(&mut s, 7);
    assert_eq!(s.register(1), 0x0E);
    assert_eq!(s.register(3), 0x08);
    assert_eq!(s.register(4), 0x06);
}

#[test]
fn store_and_load_registers_inclusive() {
    let mut s = machine(&[0x60, 0x11, 0x61, 0x22, 0x62, 0x33, 0xA3, 0x00, 0xF1, 0x55, 0x60, 0x00, 0x61, 0x00, 0xF1, 0x65]);
    run(&mut s, 5);
    assert_eq!(s.memory_at(0x300), 0x11);
    assert_eq!(s.memory_at(0x301), 0x22);
    assert_eq!(s.memory_at(0x302), 0x00);
    run(&mut s, 3);
    assert_eq!(s.register(0), 0x11);
    assert_eq!(s.register(1), 0x22);
    assert_eq!(s.register(2), 0x33);
}

#[test]
fn font_digit_address() {
    let mut s = machine(&[0x60, 0x0A, 0xF0, 0x29]);
    run(&mut s, 2);
    assert_eq!(s.index(), 0x50 + 5 * 10);
    assert_eq!(s.memory_at(s.index()), 0xF0);
    assert_eq!(s.memory_at(s.index() + 4), 0x90);
}

#[test]
fn font_installed_at_start() {
    let s = State::new(700);
    assert_eq!(s.pc(), 0x200);
    for d in 0..16u8 {
        let glyph = Sprite::new(d);
        assert_eq!(glyph.key, d);
        for j in 0..5u16 {
            assert_eq!(s.memory_at(0x50 + 5 * d as u16 + j), glyph.hex[j as usize]);
        }
    }
    assert_eq!(s.memory_at(0x4F), 0);
    assert_eq!(s.memory_at(0xA0), 0);
}

#[test]
fn sprite_for_digit_b() {
    assert_eq!(Sprite::new(0xB).hex, [0xE0, 0x90, 0xE0, 0x90, 0xE0]);
    assert_eq!(Sprite::new(1).hex, [0x20, 0x60, 0x20, 0x20, 0x70]);
}

#[test]
fn index_add_wraps_at_4096() {
    let mut s = machine(&[0xAF, 0xFF, 0x60, 0x03, 0xF0, 0x1E]);
    run(&mut s, 3);
    assert_eq!(s.index(), 0x002);
}

#[test]
fn jump_with_offset() {
    let mut s = machine(&[0x60, 0x10, 0xB3, 0x00]);
    run(&mut s, 2);
    assert_eq!(s.pc(), 0x310);
}

#[test]
fn draw_clips_at_right_and_bottom_edges() {
    // V0 = 62, V1 = 31: two columns and one row remain visible.
    let mut s = machine(&[0x60, 0x3E, 0x61, 0x1F, 0xA2, 0x0A, 0xD0, 0x12, 0x00, 0x00, 0xFF, 0xFF]);
    run(&mut s, 4);
    let d = s.display();
    assert_eq!(d.iter().filter(|p| **p).count(), 2);
    assert!(s.pixel(62, 31));
    assert!(s.pixel(63, 31));
    assert!(!s.pixel(0, 31));
    assert!(!s.pixel(62, 0));
}

#[test]
fn draw_origin_wraps_into_frame() {
    // V0 = 64 + 1, V1 = 32 + 2: origin (1, 2).
    let mut s = machine(&[0x60, 0x41, 0x61, 0x22, 0xA2, 0x0A, 0xD0, 0x11, 0x00, 0x00, 0x80]);
    run(&mut s, 4);
    assert!(s.pixel(1, 2));
    assert_eq!(s.display().iter().filter(|p| **p).count(), 1);
}

#[test]
fn random_masked_by_immediate() {
    let mut s = machine(&[0xC2, 0x0F]);
    assert_eq!(s.cycle(&NO_KEYS, 0xAB), Ok(false));
    assert_eq!(s.register(2), 0x0B);
    let mut s = machine(&[0xC2, 0x00]);
    s.step(&NO_KEYS).unwrap();
    assert_eq!(s.register(2), 0);
}

#[test]
fn timers_and_buzzer() {
    let mut s = machine(&[0x60, 0x02, 0xF0, 0x18, 0xF0, 0x15, 0xF1, 0x07]);
    run(&mut s, 3);
    assert!(s.buzzer_active());
    assert_eq!(s.delay_timer(), 2);
    s.tick_timers();
    run(&mut s, 1);
    assert_eq!(s.register(1), 1);
    s.tick_timers();
    s.tick_timers();
    assert!(!s.buzzer_active());
    assert_eq!(s.sound_timer(), 0);
    assert_eq!(s.delay_timer(), 0);
}

#[test]
fn step_reports_unchanged_frame() {
    let mut s = machine(&[0x60, 0x01, 0x00, 0xE0]);
    assert_eq!(s.step(&NO_KEYS), Ok(None));
    assert!(s.step(&NO_KEYS).unwrap().is_some());
}

#[test]
fn period_from_frequency() {
    assert_eq!(State::new(700).period_nanos(), 1_428_571);
    assert_eq!(State::new(1).period_nanos(), 1_000_000_000);
    assert_eq!(State::new(0).period_nanos(), u64::MAX);
    assert_eq!(State::new(700).freq(), 700);
}

#[test]
fn oversized_program_is_refused() {
    let mut s = State::new(700);
    assert!(!s.load_program(&vec![1u8; 4096 - 0x200 + 1]));
    assert_eq!(s.memory_at(0x200), 0);
    assert!(s.load_program(&vec![1u8; 4096 - 0x200]));
    assert_eq!(s.memory_at(0xFFF), 1);
}

#[test]
fn decode_table() {
    assert_eq!(decode(0x00, 0xE0), Some(Instruction::Clear));
    assert_eq!(decode(0x00, 0xEE), Some(Instruction::Return));
    assert_eq!(decode(0x00, 0x00), Some(Instruction::Nop));
    assert_eq!(decode(0x03, 0x45), Some(Instruction::Sys { addr: 0x345 }));
    assert_eq!(decode(0xD1, 0x2F), Some(Instruction::Draw { x: 1, y: 2, n: 0xF }));
    assert_eq!(decode(0x8A, 0xBE), Some(Instruction::ShiftLeft { x: 0xA, y: 0xB }));
    assert_eq!(decode(0xF7, 0x65), Some(Instruction::LoadRegs { x: 7 }));
    assert_eq!(decode(0x80, 0x08), None);
    assert_eq!(decode(0xE0, 0x00), None);
    assert_eq!(decode(0xF0, 0x00), None);
    assert_eq!(decode(0x90, 0x01), None);
}
