use chip8::error::Chip8Error;
use chip8::instruction::{decode, Instruction};
use chip8::machine::Emulator;

fn machine(program: &[u8]) -> Emulator {
    let mut m = Emulator::new();
    assert_eq!(m.load_rom(program), Ok(()));
    m
}

fn run(m: &mut Emulator, steps: usize) {
    for _ in 0..steps {
        assert_eq!(m.step_with_byte(0), Ok(()));
    }
}

fn lit_count(m: &Emulator) -> usize {
    m.framebuffer().iter().filter(|c| **c).count()
}

#[test]
fn new_machine_has_font_and_start_address() {
    let m = Emulator::new();
    assert_eq!(m.pc(), 0x200);
    assert_eq!(m.index(), 0);
    assert_eq!(m.stack_depth(), 0);
    assert_eq!(m.memory_at(0), 0xF0);
    assert_eq!(m.memory_at(5), 0x20);
    assert_eq!(m.memory_at(79), 0x80);
    assert_eq!(m.memory_at(80), 0);
    assert_eq!(m.memory_at(0x200), 0);
    for r in 0..16u8 {
        assert_eq!(m.register(r), 0);
    }
    assert_eq!(lit_count(&m), 0);
}

#[test]
fn load_rom_copies_image_to_program_area() {
    let m = machine(&[0x12, 0x34, 0x56]);
    assert_eq!(m.memory_at(0x1FF), 0);
    assert_eq!(m.memory_at(0x200), 0x12);
    assert_eq!(m.memory_at(0x201), 0x34);
    assert_eq!(m.memory_at(0x202), 0x56);
    assert_eq!(m.memory_at(0x203), 0);
}

#[test]
fn load_rom_accepts_largest_image() {
    let mut m = Emulator::new();
    let image = vec![0xAAu8; 4096 - 0x200];
    assert_eq!(m.load_rom(&image), Ok(()));
    assert_eq!(m.memory_at(4095), 0xAA);
}

#[test]
fn load_rom_rejects_oversized_image() {
    let mut m = Emulator::new();
    let image = vec![0xAAu8; 4096 - 0x200 + 1];
    assert_eq!(m.load_rom(&image), Err(Chip8Error::ImageTooLarge));
    assert_eq!(m.memory_at(0x200), 0);
}

#[test]
fn decode_fields() {
    assert_eq!(decode(0x00E0), Some(Instruction::ClearScreen));
    assert_eq!(decode(0x00EE), Some(Instruction::Return));
    assert_eq!(decode(0x1ABC), Some(Instruction::Jump(0xABC)));
    assert_eq!(decode(0x8A45), Some(Instruction::Sub(0xA, 0x4)));
    assert_eq!(decode(0xD12F), Some(Instruction::Draw(1, 2, 0xF)));
    assert_eq!(decode(0xF733), Some(Instruction::StoreBcd(7)));
    assert_eq!(decode(0xB123), None);
    assert_eq!(decode(0x8008), None);
}

#[test]
fn load_immediate_sets_register() {
    let mut m = machine(&[0x6A, 0x42]);
    run(&mut m, 1);
    assert_eq!(m.register(0xA), 0x42);
    assert_eq!(m.pc(), 0x202);
}

#[test]
fn add_immediate_wraps_without_flag() {
    let mut m = machine(&[0x60, 0xF0, 0x70, 0x20]);
    run(&mut m, 2);
    assert_eq!(m.register(0), 0x10);
    assert_eq!(m.register(0xF), 0);
}

#[test]
fn add_registers_with_carry() {
    let mut m = machine(&[0x60, 200, 0x61, 100, 0x80, 0x14]);
    run(&mut m, 3);
    assert_eq!(m.register(0), 44);
    assert_eq!(m.register(0xF), 1);
}

#[test]
fn add_registers_without_carry() {
    let mut m = machine(&[0x60, 200, 0x61, 55, 0x80, 0x14]);
    run(&mut m, 3);
    assert_eq!(m.register(0), 255);
    assert_eq!(m.register(0xF), 0);
}

#[test]
fn subtract_sets_flag_when_greater() {
    let mut m = machine(&[0x60, 5, 0x61, 3, 0x80, 0x15]);
    run(&mut m, 3);
    assert_eq!(m.register(0), 2);
    assert_eq!(m.register(0xF), 1);
}

#[test]
fn subtract_wraps_and_clears_flag() {
    let mut m = machine(&[0x60, 3, 0x61, 5, 0x80, 0x15]);
    run(&mut m, 3);
    assert_eq!(m.register(0), 254);
    assert_eq!(m.register(0xF), 0);
}

#[test]
fn subtract_equal_clears_flag() {
    let mut m = machine(&[0x60, 7, 0x61, 7, 0x80, 0x15]);
    run(&mut m, 3);
    assert_eq!(m.register(0), 0);
    assert_eq!(m.register(0xF), 0);
}

#[test]
fn reverse_subtract() {
    let mut m = machine(&[0x60, 3, 0x61, 5, 0x80, 0x17]);
    run(&mut m, 3);
    assert_eq!(m.register(0), 2);
    assert_eq!(m.register(0xF), 1);
}

#[test]
fn shift_right_and_left() {
    let mut m = machine(&[0x60, 0x81, 0x80, 0x06, 0x61, 0x81, 0x81, 0x0E]);
    run(&mut m, 2);
    assert_eq!(m.register(0), 0x40);
    assert_eq!(m.register(0xF), 1);
    run(&mut m, 2);
    assert_eq!(m.register(1), 0x02);
    assert_eq!(m.register(0xF), 1);
}

#[test]
fn bitwise_operations() {
    let mut m = machine(&[
        0x60, 0x0C, 0x61, 0x0A, 0x62, 0x0C, 0x63, 0x0C, 0x80, 0x11, 0x82, 0x12, 0x83, 0x13, 0x84,
        0x10,
    ]);
    run(&mut m, 8);
    assert_eq!(m.register(0), 0x0E);
    assert_eq!(m.register(2), 0x08);
    assert_eq!(m.register(3), 0x06);
    assert_eq!(m.register(4), 0x0A);
}

#[test]
fn skips_advance_by_four_when_condition_holds() {
    let mut m = machine(&[0x60, 0x05, 0x30, 0x05]);
    run(&mut m, 2);
    assert_eq!(m.pc(), 0x206);
    let mut m = machine(&[0x60, 0x05, 0x30, 0x06]);
    run(&mut m, 2);
    assert_eq!(m.pc(), 0x204);
    let mut m = machine(&[0x60, 0x05, 0x40, 0x06]);
    run(&mut m, 2);
    assert_eq!(m.pc(), 0x206);
    let mut m = machine(&[0x60, 0x05, 0x61, 0x05, 0x50, 0x10]);
    run(&mut m, 3);
    assert_eq!(m.pc(), 0x208);
    let mut m = machine(&[0x60, 0x05, 0x61, 0x05, 0x90, 0x10]);
    run(&mut m, 3);
    assert_eq!(m.pc(), 0x206);
}

#[test]
fn jump_sets_pc() {
    let mut m = machine(&[0x1A, 0xBC]);
    run(&mut m, 1);
    assert_eq!(m.pc(), 0xABC);
}

#[test]
fn call_then_return_resumes_after_call() {
    // 0x200: call 0x206; 0x202: ...; 0x206: load V1, return
    let mut m = machine(&[0x22, 0x06, 0x00, 0x00, 0x00, 0x00, 0x61, 0x09, 0x00, 0xEE]);
    run(&mut m, 1);
    assert_eq!(m.pc(), 0x206);
    assert_eq!(m.stack_depth(), 1);
    run(&mut m, 2);
    assert_eq!(m.pc(), 0x202);
    assert_eq!(m.stack_depth(), 0);
    assert_eq!(m.register(1), 9);
}

#[test]
fn sixteen_nested_calls_then_overflow() {
    let mut program = Vec::new();
    for k in 0..17u16 {
        let target = 0x200 + 2 * (k + 1);
        program.push(0x20 | (target >> 8) as u8);
        program.push((target & 0xFF) as u8);
    }
    let mut m = machine(&program);
    run(&mut m, 16);
    assert_eq!(m.stack_depth(), 16);
    assert_eq!(m.pc(), 0x220);
    assert_eq!(m.step_with_byte(0), Err(Chip8Error::StackOverflow));
    assert_eq!(m.stack_depth(), 16);
    assert_eq!(m.pc(), 0x220);
}

#[test]
fn return_on_empty_stack_underflows() {
    let mut m = machine(&[0x00, 0xEE]);
    assert_eq!(m.step_with_byte(0), Err(Chip8Error::StackUnderflow));
    assert_eq!(m.pc(), 0x200);
}

#[test]
fn unsupported_opcode_changes_nothing() {
    for word in [0x0123u16, 0xB123, 0x8008, 0xE1FF, 0xF1FF] {
        let mut m = machine(&[0x6A, 0x42, (word >> 8) as u8, (word & 0xFF) as u8]);
        run(&mut m, 1);
        assert_eq!(m.step_with_byte(0), Err(Chip8Error::UnsupportedOpcode(word)));
        assert_eq!(m.pc(), 0x202);
        assert_eq!(m.register(0xA), 0x42);
        assert_eq!(m.index(), 0);
        assert_eq!(m.stack_depth(), 0);
    }
}

#[test]
fn fetch_beyond_memory_faults() {
    let mut m = machine(&[0x1F, 0xFF]);
    run(&mut m, 1);
    assert_eq!(m.pc(), 0xFFF);
    assert_eq!(m.fetch(), Err(Chip8Error::MemoryFault));
    assert_eq!(m.step_with_byte(0), Err(Chip8Error::MemoryFault));
    assert_eq!(m.pc(), 0xFFF);
}

#[test]
fn fetch_reads_high_byte_first() {
    let m = machine(&[0xAB, 0xCD]);
    assert_eq!(m.fetch(), Ok(0xABCD));
}

#[test]
fn draw_twice_restores_and_reports_collision() {
    // I = 0x300, sprite row 0xFF at 0x300, draw at (0, 0) twice.
    let mut program = vec![0xA3, 0x00, 0x60, 0x00, 0x61, 0x00, 0xD0, 0x11, 0xD0, 0x11];
    program.resize(0x100, 0);
    program.push(0xFF);
    let mut m = machine(&program);
    run(&mut m, 4);
    assert_eq!(lit_count(&m), 8);
    for cx in 0..8 {
        assert!(m.pixel(cx, 0));
    }
    assert_eq!(m.register(0xF), 0);
    run(&mut m, 1);
    assert_eq!(lit_count(&m), 0);
    assert_eq!(m.register(0xF), 1);
}

#[test]
fn draw_wraps_horizontally() {
    let mut program = vec![0xA3, 0x00, 0x60, 60, 0x61, 0x00, 0xD0, 0x11];
    program.resize(0x100, 0);
    program.push(0xFF);
    let mut m = machine(&program);
    run(&mut m, 4);
    for cx in [60, 61, 62, 63, 0, 1, 2, 3] {
        assert!(m.pixel(cx, 0));
    }
    assert_eq!(lit_count(&m), 8);
    assert!(!m.pixel(4, 0));
    assert!(!m.pixel(59, 0));
    assert!(!m.pixel(0, 1));
}

#[test]
fn draw_wraps_vertically_and_reduces_coordinates() {
    // Vx = 64 + 2 and Vy = 31: rows 31 and 0, starting at column 2.
    let mut program = vec![0xA3, 0x00, 0x60, 66, 0x61, 31, 0xD0, 0x12];
    program.resize(0x100, 0);
    program.push(0x80);
    program.push(0x01);
    let mut m = machine(&program);
    run(&mut m, 4);
    assert!(m.pixel(2, 31));
    assert!(m.pixel(9, 0));
    assert_eq!(lit_count(&m), 2);
    assert_eq!(m.register(0xF), 0);
}

#[test]
fn draw_collision_is_cumulative() {
    // The second sprite overlaps only in its first bit; the flag must stay set.
    let mut program = vec![0xA3, 0x00, 0xD0, 0x01, 0xA3, 0x01, 0xD0, 0x01];
    program.resize(0x100, 0);
    program.push(0x80);
    program.push(0xC0);
    let mut m = machine(&program);
    run(&mut m, 4);
    assert_eq!(m.register(0xF), 1);
    assert!(!m.pixel(0, 0));
    assert!(m.pixel(1, 0));
}

#[test]
fn draw_beyond_memory_faults() {
    let mut m = machine(&[0xAF, 0xFF, 0xD0, 0x02]);
    run(&mut m, 1);
    assert_eq!(m.step_with_byte(0), Err(Chip8Error::MemoryFault));
    assert_eq!(m.pc(), 0x202);
}

#[test]
fn clear_screen_unlights_everything() {
    let mut program = vec![0xA3, 0x00, 0xD0, 0x01, 0x00, 0xE0];
    program.resize(0x100, 0);
    program.push(0xFF);
    let mut m = machine(&program);
    run(&mut m, 2);
    assert_eq!(lit_count(&m), 8);
    run(&mut m, 1);
    assert_eq!(lit_count(&m), 0);
    assert_eq!(m.pc(), 0x206);
}

#[test]
fn bcd_store_of_157() {
    let mut m = machine(&[0x60, 157, 0xA3, 0x00, 0xF0, 0x33]);
    run(&mut m, 3);
    assert_eq!(m.memory_at(0x300), 1);
    assert_eq!(m.memory_at(0x301), 5);
    assert_eq!(m.memory_at(0x302), 7);
}

#[test]
fn bcd_store_beyond_memory_faults() {
    let mut m = machine(&[0xAF, 0xFE, 0xF0, 0x33]);
    run(&mut m, 1);
    assert_eq!(m.step_with_byte(0), Err(Chip8Error::MemoryFault));
}

#[test]
fn dump_and_load_registers() {
    let mut m = machine(&[
        0x60, 1, 0x61, 2, 0x62, 3, 0xA3, 0x00, 0xF1, 0x55, 0x60, 9, 0x61, 9, 0x62, 9, 0xF1, 0x65,
    ]);
    run(&mut m, 5);
    assert_eq!(m.memory_at(0x300), 1);
    assert_eq!(m.memory_at(0x301), 2);
    assert_eq!(m.memory_at(0x302), 0);
    run(&mut m, 4);
    assert_eq!(m.register(0), 1);
    assert_eq!(m.register(1), 2);
    assert_eq!(m.register(2), 9);
}

#[test]
fn dump_registers_beyond_memory_faults() {
    let mut m = machine(&[0xAF, 0xFE, 0xF2, 0x55]);
    run(&mut m, 1);
    assert_eq!(m.step_with_byte(0), Err(Chip8Error::MemoryFault));
    assert_eq!(m.memory_at(0xFFE), 0);
}

#[test]
fn font_glyph_address_uses_low_nibble() {
    let mut m = machine(&[0x60, 0x07, 0xF0, 0x29, 0x60, 0x1A, 0xF0, 0x29]);
    run(&mut m, 2);
    assert_eq!(m.index(), 35);
    run(&mut m, 2);
    assert_eq!(m.index(), 50);
}

#[test]
fn add_to_index() {
    let mut m = machine(&[0xA1, 0x00, 0x60, 0x20, 0xF0, 0x1E]);
    run(&mut m, 3);
    assert_eq!(m.index(), 0x120);
}

#[test]
fn random_is_masked() {
    let mut m = machine(&[0xC3, 0x0F]);
    assert_eq!(m.step_with_byte(0xAB), Ok(()));
    assert_eq!(m.register(3), 0x0B);
}

#[test]
fn random_from_source_respects_mask() {
    for _ in 0..32 {
        let mut m = machine(&[0xC3, 0x0F]);
        assert_eq!(m.step(), Ok(()));
        assert!(m.register(3) <= 0x0F);
        assert_eq!(m.pc(), 0x202);
    }
}

#[test]
fn keypad_skips() {
    let mut keys = [false; 16];
    keys[5] = true;
    let mut m = machine(&[0x60, 0x05, 0xE0, 0x9E]);
    m.set_keys(keys);
    run(&mut m, 2);
    assert_eq!(m.pc(), 0x206);
    let mut m = machine(&[0x60, 0x05, 0xE0, 0xA1]);
    m.set_keys(keys);
    run(&mut m, 2);
    assert_eq!(m.pc(), 0x204);
    let mut m = machine(&[0x60, 0x06, 0xE0, 0xA1]);
    m.set_keys(keys);
    run(&mut m, 2);
    assert_eq!(m.pc(), 0x206);
}

#[test]
fn timers_set_read_and_tick() {
    let mut m = machine(&[0x60, 0x02, 0xF0, 0x15, 0xF0, 0x18, 0xF1, 0x07]);
    run(&mut m, 3);
    assert_eq!(m.delay_timer(), 2);
    assert_eq!(m.sound_timer(), 2);
    m.tick_timers();
    assert_eq!(m.delay_timer(), 1);
    assert_eq!(m.sound_timer(), 1);
    run(&mut m, 1);
    assert_eq!(m.register(1), 1);
    m.tick_timers();
    m.tick_timers();
    assert_eq!(m.delay_timer(), 0);
    assert_eq!(m.sound_timer(), 0);
}
