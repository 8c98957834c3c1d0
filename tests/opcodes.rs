use chip8::describe::describe;
use chip8::opcode::{decode, Op};
use chip8::Chip8;

fn machine(rom: &[u8]) -> Chip8 {
    let mut chip8 = Chip8::new();
    chip8.load_rom_data(rom.to_vec());
    chip8
}

fn run(chip8: &mut Chip8, cycles: usize) {
    for _ in 0..cycles {
        chip8.step_with(0, 0);
    }
}

#[test]
fn add_with_carry_sets_flag_iff_overflow() {
    for (a, b) in [(200u8, 100u8), (255, 1), (100, 155), (0, 0), (128, 128), (1, 254)] {
        let mut chip8 = machine(&[0x81, 0x24]);
        chip8.processor.v[1] = a;
        chip8.processor.v[2] = b;
        run(&mut chip8, 1);
        assert_eq!(chip8.processor.v[1], a.wrapping_add(b));
        let carry = (a as u16 + b as u16) > 255;
        assert_eq!(chip8.processor.v[0xF], carry as u8);
    }
}

#[test]
fn subtract_sets_flag_iff_no_borrow() {
    for (a, b) in [(5u8, 3u8), (3, 5), (7, 7), (0, 255), (255, 0)] {
        let mut chip8 = machine(&[0x81, 0x25]);
        chip8.processor.v[1] = a;
        chip8.processor.v[2] = b;
        run(&mut chip8, 1);
        assert_eq!(chip8.processor.v[1], a.wrapping_sub(b));
        assert_eq!(chip8.processor.v[0xF], (a >= b) as u8);
    }
}

#[test]
fn reverse_subtract_sets_flag_iff_no_borrow() {
    let mut chip8 = machine(&[0x81, 0x27]);
    chip8.processor.v[1] = 10;
    chip8.processor.v[2] = 3;
    run(&mut chip8, 1);
    assert_eq!(chip8.processor.v[1], 3u8.wrapping_sub(10));
    assert_eq!(chip8.processor.v[0xF], 0);
}

#[test]
fn flag_register_as_target_keeps_flag() {
    let mut chip8 = machine(&[0x8F, 0x14]);
    chip8.processor.v[0xF] = 200;
    chip8.processor.v[1] = 100;
    run(&mut chip8, 1);
    assert_eq!(chip8.processor.v[0xF], 1);
}

#[test]
fn logic_ops_clear_flag() {
    let mut chip8 = machine(&[0x81, 0x21, 0x83, 0x22, 0x85, 0x23]);
    chip8.processor.v[1] = 0b1100;
    chip8.processor.v[2] = 0b1010;
    chip8.processor.v[3] = 0b1100;
    chip8.processor.v[5] = 0b1100;
    chip8.processor.v[0xF] = 9;
    run(&mut chip8, 1);
    assert_eq!(chip8.processor.v[1], 0b1110);
    assert_eq!(chip8.processor.v[0xF], 0);
    run(&mut chip8, 1);
    assert_eq!(chip8.processor.v[3], 0b1000);
    run(&mut chip8, 1);
    assert_eq!(chip8.processor.v[5], 0b0110);
    assert_eq!(chip8.processor.v[0xF], 0);
}

#[test]
fn shifts_without_and_with_quirk() {
    let mut chip8 = machine(&[0x81, 0x26, 0x83, 0x2E]);
    chip8.processor.v[1] = 0b0000_0101;
    chip8.processor.v[2] = 0b1000_0000;
    chip8.processor.v[3] = 0b1000_0001;
    run(&mut chip8, 1);
    assert_eq!(chip8.processor.v[1], 0b10);
    assert_eq!(chip8.processor.v[0xF], 1);
    run(&mut chip8, 1);
    assert_eq!(chip8.processor.v[3], 0b10);
    assert_eq!(chip8.processor.v[0xF], 1);

    let mut quirky = machine(&[0x81, 0x26, 0x83, 0x2E]);
    quirky.processor.shift_quirk_enabled = true;
    quirky.processor.v[1] = 0xFF;
    quirky.processor.v[2] = 0b0000_0010;
    run(&mut quirky, 1);
    assert_eq!(quirky.processor.v[1], 1);
    assert_eq!(quirky.processor.v[0xF], 0);
    run(&mut quirky, 1);
    assert_eq!(quirky.processor.v[3], 0b100);
    assert_eq!(quirky.processor.v[0xF], 0);
}

#[test]
fn add_immediate_wraps_and_leaves_flag() {
    let mut chip8 = machine(&[0x71, 0x10]);
    chip8.processor.v[1] = 0xF8;
    chip8.processor.v[0xF] = 7;
    run(&mut chip8, 1);
    assert_eq!(chip8.processor.v[1], 0x08);
    assert_eq!(chip8.processor.v[0xF], 7);
}

#[test]
fn skips_on_immediate_and_register_compare() {
    let mut chip8 = machine(&[0x31, 0x05]);
    chip8.processor.v[1] = 5;
    run(&mut chip8, 1);
    assert_eq!(chip8.processor.pc, 0x204);

    let mut chip8 = machine(&[0x41, 0x05]);
    chip8.processor.v[1] = 5;
    run(&mut chip8, 1);
    assert_eq!(chip8.processor.pc, 0x202);

    let mut chip8 = machine(&[0x51, 0x20]);
    chip8.processor.v[1] = 4;
    chip8.processor.v[2] = 4;
    run(&mut chip8, 1);
    assert_eq!(chip8.processor.pc, 0x204);

    let mut chip8 = machine(&[0x91, 0x20]);
    chip8.processor.v[1] = 4;
    chip8.processor.v[2] = 4;
    run(&mut chip8, 1);
    assert_eq!(chip8.processor.pc, 0x202);
}

#[test]
fn call_and_return() {
    let mut chip8 = machine(&[0x23, 0x00]);
    chip8.bus.memory.write(0x300, 0x00);
    chip8.bus.memory.write(0x301, 0xEE);
    run(&mut chip8, 1);
    assert_eq!(chip8.processor.pc, 0x300);
    assert_eq!(chip8.processor.sp, 1);
    assert_eq!(chip8.processor.stack[0], 0x202);
    run(&mut chip8, 1);
    assert_eq!(chip8.processor.pc, 0x202);
    assert_eq!(chip8.processor.sp, 0);
}

#[test]
fn return_with_empty_stack_moves_on() {
    let mut chip8 = machine(&[0x00, 0xEE]);
    run(&mut chip8, 1);
    assert_eq!(chip8.processor.pc, 0x202);
    assert_eq!(chip8.processor.sp, 0);
}

#[test]
fn call_with_full_stack_moves_on() {
    let mut chip8 = machine(&[0x22, 0x00]);
    chip8.processor.sp = 16;
    run(&mut chip8, 1);
    assert_eq!(chip8.processor.pc, 0x202);
    assert_eq!(chip8.processor.sp, 16);
}

#[test]
fn jumps() {
    let mut chip8 = machine(&[0x1A, 0xBC]);
    run(&mut chip8, 1);
    assert_eq!(chip8.processor.pc, 0xABC);

    let mut chip8 = machine(&[0xB3, 0x00]);
    chip8.processor.v[0] = 0x10;
    run(&mut chip8, 1);
    assert_eq!(chip8.processor.pc, 0x310);
}

#[test]
fn random_masks_drawn_byte() {
    let mut chip8 = machine(&[0xC1, 0x0F]);
    chip8.step_with(0, 0xAB);
    assert_eq!(chip8.processor.v[1], 0x0B);

    let mut chip8 = machine(&[0xC1, 0x00]);
    chip8.processor.v[1] = 9;
    chip8.step();
    assert_eq!(chip8.processor.v[1], 0);
}

#[test]
fn key_skips() {
    let mut chip8 = machine(&[0xE1, 0x9E]);
    chip8.processor.v[1] = 4;
    chip8.update_key_state(4, true);
    run(&mut chip8, 1);
    assert_eq!(chip8.processor.pc, 0x204);

    let mut chip8 = machine(&[0xE1, 0xA1]);
    chip8.processor.v[1] = 4;
    run(&mut chip8, 1);
    assert_eq!(chip8.processor.pc, 0x204);

    let mut chip8 = machine(&[0xE1, 0xA1]);
    chip8.processor.v[1] = 200;
    run(&mut chip8, 1);
    assert_eq!(chip8.processor.pc, 0x204);
}

#[test]
fn wait_for_key_halts_until_press() {
    let mut chip8 = machine(&[0xF3, 0x0A, 0x60, 0x01]);
    run(&mut chip8, 1);
    assert_eq!(chip8.processor.pc, 0x202);
    run(&mut chip8, 3);
    assert_eq!(chip8.processor.pc, 0x202);
    assert_eq!(chip8.processor.v[0], 0);
    chip8.update_key_state(0xC, true);
    run(&mut chip8, 1);
    assert_eq!(chip8.processor.v[3], 0xC);
    assert_eq!(chip8.processor.v[0], 1);
    assert_eq!(chip8.processor.pc, 0x204);
}

#[test]
fn timers_from_and_to_registers() {
    let mut chip8 = machine(&[0xF1, 0x15, 0xF2, 0x18, 0xF3, 0x07]);
    chip8.processor.v[1] = 30;
    chip8.processor.v[2] = 40;
    run(&mut chip8, 3);
    assert_eq!(chip8.bus.clock.delay_timer(), 30);
    assert_eq!(chip8.bus.clock.sound_timer(), 40);
    assert_eq!(chip8.processor.v[3], 30);
}

#[test]
fn index_add_and_font_glyph() {
    let mut chip8 = machine(&[0xA1, 0x00, 0xF1, 0x1E, 0xF2, 0x29]);
    chip8.processor.v[1] = 0x22;
    chip8.processor.v[2] = 0x1B;
    run(&mut chip8, 2);
    assert_eq!(chip8.processor.i, 0x122);
    run(&mut chip8, 1);
    assert_eq!(chip8.processor.i, 5 * 0xB);
}

#[test]
fn index_add_wraps_at_sixteen_bits() {
    let mut chip8 = machine(&[0xF1, 0x1E]);
    chip8.processor.i = 0xFFF0;
    chip8.processor.v[1] = 0x20;
    run(&mut chip8, 1);
    assert_eq!(chip8.processor.i, 0x0010);
}

#[test]
fn binary_coded_decimal() {
    let mut chip8 = machine(&[0xA3, 0x00, 0xF1, 0x33]);
    chip8.processor.v[1] = 254;
    run(&mut chip8, 2);
    assert_eq!(chip8.bus.memory.read(0x300), 2);
    assert_eq!(chip8.bus.memory.read(0x301), 5);
    assert_eq!(chip8.bus.memory.read(0x302), 4);
}

#[test]
fn load_registers_block() {
    let mut chip8 = machine(&[0xA3, 0x00, 0xF2, 0x65]);
    chip8.bus.memory.write(0x300, 7);
    chip8.bus.memory.write(0x301, 8);
    chip8.bus.memory.write(0x302, 9);
    chip8.processor.v[3] = 42;
    run(&mut chip8, 2);
    assert_eq!(&chip8.processor.v[0..4], &[7, 8, 9, 42]);
    assert_eq!(chip8.processor.i, 0x303);
}

#[test]
fn draw_collision_sets_flag() {
    let mut chip8 = machine(&[0xD0, 0x15, 0xD0, 0x15]);
    run(&mut chip8, 1);
    assert_eq!(chip8.processor.v[0xF], 0);
    run(&mut chip8, 1);
    assert_eq!(chip8.processor.v[0xF], 1);
    let rgb = chip8.bus.graphics.as_rgb8();
    assert!(rgb.iter().all(|&b| b == 0));
}

#[test]
fn draw_wraps_start_and_clips_sprite() {
    let mut chip8 = machine(&[0xD1, 0x25]);
    chip8.processor.v[1] = 64 + 62;
    chip8.processor.v[2] = 32 + 30;
    run(&mut chip8, 1);
    let fg = chip8.bus.graphics.foreground_rgb().as_array();
    let rgb = chip8.bus.graphics.as_rgb8();
    let on = |x: usize, y: usize| rgb[(y * 64 + x) * 3..(y * 64 + x) * 3 + 3] == fg;
    assert!(on(62, 30) && on(63, 30));
    assert!(on(62, 31) && !on(63, 31));
    assert!(!on(0, 30) && !on(0, 0));
}

#[test]
fn draw_waits_for_tick_when_configured() {
    let mut chip8 = machine(&[0xD0, 0x15]);
    chip8.processor.vblank_wait = true;
    chip8.step_with(0, 0);
    assert_eq!(chip8.processor.pc, 0x200);
    assert!(chip8.processor.instructions.is_empty());
    chip8.step_with(16_666_667, 0);
    assert_eq!(chip8.processor.pc, 0x202);
    assert_eq!(chip8.processor.instructions.len(), 1);
}

#[test]
fn invalid_opcode_moves_on() {
    let mut chip8 = machine(&[0x00, 0x01, 0x8A, 0xB9, 0xE1, 0x00, 0xF1, 0xFF]);
    run(&mut chip8, 4);
    assert_eq!(chip8.processor.pc, 0x208);
    assert_eq!(chip8.processor.instructions[0].display, "Invalid instruction");
}

#[test]
fn program_counter_outside_memory_stalls() {
    let mut chip8 = machine(&[]);
    chip8.processor.pc = 4096;
    run(&mut chip8, 3);
    assert_eq!(chip8.processor.pc, 4096);
    assert!(chip8.processor.instructions.is_empty());
}

#[test]
fn decode_dispatches_by_nibbles() {
    assert!(decode(0x00E0) == Op::Clear);
    assert!(decode(0x00EE) == Op::Return);
    assert!(decode(0x8AB4) == Op::AddReg { x: 0xA, y: 0xB });
    assert!(decode(0xD125) == Op::Draw { x: 1, y: 2, n: 5 });
    assert!(decode(0xF365) == Op::Load { x: 3 });
    assert!(decode(0xF366) == Op::Invalid);
    assert!(decode(0x2ABC) == Op::Call { nnn: 0xABC });
}

#[test]
fn descriptions() {
    assert_eq!(describe(Op::LoadImm { x: 0xA, nn: 2 }), "Set VA to 2");
    assert_eq!(describe(Op::AddImm { x: 0xA, nn: 203 }), "Add 203 to VA");
    assert_eq!(describe(Op::Jump { nnn: 0x2AB }), "Jump to addr 0x02AB");
    assert_eq!(describe(Op::Draw { x: 0, y: 1, n: 15 }), "Draw 15 byte sprite from I at (V0, V1)");
    assert_eq!(describe(Op::Clear), "Clear the screen");
}

#[test]
fn reset_keeps_palette_and_quirks() {
    let mut chip8 = machine(&[0x60, 0x07, 0xD0, 0x05]);
    chip8.processor.shift_quirk_enabled = true;
    chip8.processor.vblank_wait = false;
    let red = chip8::graphics::Rgb { red: 200, green: 0, blue: 0 };
    chip8.bus.graphics.set_foreground_color(red);
    run(&mut chip8, 2);
    chip8.reset_and_load(vec![0x12, 0x00]);
    assert!(chip8.processor.shift_quirk_enabled);
    assert!(chip8.bus.graphics.foreground_rgb() == red);
    assert_eq!(chip8.processor.pc, 0x200);
    assert_eq!(chip8.processor.v[0], 0);
    assert!(chip8.processor.instructions.is_empty());
    assert!(chip8.bus.graphics.as_rgb8().iter().all(|&b| b == 0));
    assert_eq!(chip8.bus.memory.read(0x200), 0x12);
    assert_eq!(chip8.bus.memory.read(0x202), 0);
}
