use chip8::graphics::{Rgb, WIDTH};
use chip8::Chip8;

fn lit(chip8: &Chip8, x: usize, y: usize) -> bool {
    let rgb = chip8.bus.graphics.as_rgb8();
    let at = (y * WIDTH + x) * 3;
    let pixel = Rgb::from_array([rgb[at], rgb[at + 1], rgb[at + 2]]);
    pixel == chip8.bus.graphics.foreground_rgb()
}

#[test]
fn load_then_add_immediate() {
    let mut chip8 = Chip8::new();
    chip8.load_rom_data(vec![0x6A, 0x02, 0x7A, 0x03]);
    chip8.step();
    chip8.step();
    assert_eq!(chip8.processor.v[0xA], 5);
    assert_eq!(chip8.processor.pc, 0x204);
}

#[test]
fn clear_then_draw_font_zero() {
    let mut chip8 = Chip8::new();
    chip8.load_rom_data(vec![0x00, 0xE0, 0xD0, 0x05]);
    chip8.step();
    chip8.step();
    let glyph: [u8; 5] = [0xF0, 0x90, 0x90, 0x90, 0xF0];
    for y in 0..32 {
        for x in 0..64 {
            let expected = y < 5 && x < 8 && (glyph[y] >> (7 - x)) & 1 == 1;
            assert_eq!(lit(&chip8, x, y), expected, "pixel ({x}, {y})");
        }
    }
    assert_eq!(chip8.processor.v[0xF], 0);
    assert_eq!(chip8.processor.pc, 0x204);
}

#[test]
fn store_registers_block() {
    let mut chip8 = Chip8::new();
    chip8.load_rom_data(vec![0xA2, 0x0A, 0xF5, 0x55]);
    for k in 0..6 {
        chip8.processor.v[k] = (k + 1) as u8;
    }
    chip8.step();
    assert_eq!(chip8.processor.i, 0x20A);
    chip8.step();
    for k in 0..6 {
        assert_eq!(chip8.bus.memory.read(0x20A + k), (k + 1) as u8);
    }
    assert_eq!(chip8.bus.memory.read(0x210), 0);
    assert_eq!(chip8.processor.i, 0x210);
}

#[test]
fn trace_keeps_newest_hundred() {
    let mut rom = Vec::new();
    for k in 0..150u16 {
        let opcode = 0x6000 | (k & 0x0FFF);
        rom.push((opcode >> 8) as u8);
        rom.push((opcode & 0xFF) as u8);
    }
    let mut chip8 = Chip8::new();
    chip8.load_rom_data(rom);
    for _ in 0..150 {
        chip8.step();
    }
    let trace = &chip8.processor.instructions;
    assert_eq!(trace.len(), 100);
    assert_eq!(trace[0].address, 0x200 + 2 * 149);
    assert_eq!(trace[0].opcode, 0x6000 | 149);
    for (n, record) in trace.iter().enumerate() {
        assert_eq!(record.address, 0x200 + 2 * (149 - n));
    }
    assert_eq!(trace[99].address, 0x200 + 2 * 50);
    assert_eq!(trace[99].opcode, 0x6000 | 50);
}
