use chip8::clock::Clock;
use chip8::graphics::{Buffer, Rgb, PIXEL_COUNT, RGB8_LEN, WIDTH};
use chip8::input::{Input, KeyRequestResponse};
use chip8::memory::Memory;

const PERIOD_NS: u64 = 16_666_667;

fn pixel(buffer: &Buffer, x: usize, y: usize) -> Rgb {
    let rgb = buffer.as_rgb8();
    let at = (y * WIDTH + x) * 3;
    Rgb::from_array([rgb[at], rgb[at + 1], rgb[at + 2]])
}

fn pattern(buffer: &Buffer) -> Vec<bool> {
    let fg = buffer.foreground_rgb();
    let rgb = buffer.as_rgb8();
    (0..PIXEL_COUNT)
        .map(|i| Rgb::from_array([rgb[3 * i], rgb[3 * i + 1], rgb[3 * i + 2]]) == fg)
        .collect()
}

#[test]
fn rgb_array_round_trip() {
    let c = Rgb { red: 1, green: 2, blue: 3 };
    assert_eq!(c.as_array(), [1, 2, 3]);
    assert!(Rgb::from_array([1, 2, 3]) == c);
}

#[test]
fn new_buffer_is_blank_white_on_black() {
    let buffer = Buffer::new();
    assert!(buffer.foreground_rgb() == Rgb { red: 255, green: 255, blue: 255 });
    assert!(buffer.background_rgb() == Rgb { red: 0, green: 0, blue: 0 });
    let rgb = buffer.as_rgb8();
    assert_eq!(rgb.len(), RGB8_LEN);
    assert!(rgb.iter().all(|&b| b == 0));
}

#[test]
fn draw_byte_sets_bits_msb_first() {
    let mut buffer = Buffer::new();
    assert!(!buffer.draw_byte(3, 2, 0b1010_0001));
    let fg = buffer.foreground_rgb();
    let on: Vec<bool> = (0..12).map(|x| pixel(&buffer, x, 2) == fg).collect();
    let expected = [
        false, false, false, true, false, true, false, false, false, false, true, false,
    ];
    assert_eq!(on, expected);
}

#[test]
fn draw_byte_reports_collision_and_xors() {
    let mut buffer = Buffer::new();
    assert!(!buffer.draw_byte(0, 0, 0xF0));
    assert!(buffer.draw_byte(0, 0, 0x18));
    let fg = buffer.foreground_rgb();
    let on: Vec<bool> = (0..8).map(|x| pixel(&buffer, x, 0) == fg).collect();
    assert_eq!(on, [true, true, true, false, true, false, false, false]);
}

#[test]
fn draw_twice_restores_pixels() {
    let mut buffer = Buffer::new();
    buffer.draw_byte(10, 5, 0x3C);
    let before = buffer.as_rgb8();
    assert!(!buffer.draw_byte(20, 5, 0x81));
    assert!(buffer.draw_byte(20, 5, 0x81));
    assert_eq!(buffer.as_rgb8().to_vec(), before.to_vec());
    assert!(buffer.draw_byte(12, 5, 0x81));
    assert!(buffer.draw_byte(12, 5, 0x81));
    assert_eq!(buffer.as_rgb8().to_vec(), before.to_vec());
}

#[test]
fn second_draw_collides_where_first_drew() {
    let mut buffer = Buffer::new();
    buffer.draw_byte(0, 0, 0x0F);
    let first = buffer.draw_byte(0, 0, 0xFF);
    assert!(first);
    let second = buffer.draw_byte(0, 0, 0xFF);
    assert!(second);
}

#[test]
fn draw_byte_clips_at_right_edge() {
    let mut buffer = Buffer::new();
    assert!(!buffer.draw_byte(60, 1, 0xFF));
    let fg = buffer.foreground_rgb();
    for x in 60..64 {
        assert!(pixel(&buffer, x, 1) == fg);
    }
    for x in 0..8 {
        assert!(pixel(&buffer, x, 2) != fg);
    }
}

#[test]
fn draw_byte_below_or_right_of_screen_does_nothing() {
    let mut buffer = Buffer::new();
    let before = buffer.as_rgb8();
    assert!(!buffer.draw_byte(0, 32, 0xFF));
    assert!(!buffer.draw_byte(64, 0, 0xFF));
    assert_eq!(buffer.as_rgb8().to_vec(), before.to_vec());
}

#[test]
fn foreground_swap_keeps_pattern() {
    let mut buffer = Buffer::new();
    buffer.draw_byte(0, 0, 0xA5);
    buffer.draw_byte(30, 20, 0x3C);
    let before_pattern = pattern(&buffer);
    let before_pixels = buffer.as_rgb8();
    let red = Rgb { red: 200, green: 10, blue: 10 };
    buffer.set_foreground_color(red);
    assert!(buffer.foreground_rgb() == red);
    assert_eq!(pattern(&buffer), before_pattern);
    buffer.set_foreground_color(Rgb { red: 255, green: 255, blue: 255 });
    assert_eq!(buffer.as_rgb8().to_vec(), before_pixels.to_vec());
}

#[test]
fn background_swap_repaints_off_pixels() {
    let mut buffer = Buffer::new();
    buffer.draw_byte(0, 0, 0x80);
    let blue = Rgb { red: 0, green: 0, blue: 200 };
    buffer.set_background_color(blue);
    assert!(pixel(&buffer, 1, 0) == blue);
    assert!(pixel(&buffer, 0, 0) == buffer.foreground_rgb());
    buffer.clear();
    assert!(pixel(&buffer, 0, 0) == blue);
}

#[test]
fn new_memory_holds_font_then_zeroes() {
    let memory = Memory::new();
    assert_eq!(memory.read(0), 0xF0);
    assert_eq!(memory.read(5), 0x20);
    assert_eq!(memory.read(79), 0x80);
    assert_eq!(memory.read(80), 0);
    assert_eq!(memory.read(0x200), 0);
    assert_eq!(memory.read(4096), 0);
}

#[test]
fn load_rom_pads_with_zeroes() {
    let mut memory = Memory::new();
    memory.write(0x300, 7);
    memory.load_rom(vec![1, 2, 3]);
    assert_eq!(memory.read(0x200), 1);
    assert_eq!(memory.read(0x202), 3);
    assert_eq!(memory.read(0x203), 0);
    assert_eq!(memory.read(0x300), 0);
    assert_eq!(memory.read(0), 0xF0);
}

#[test]
fn load_rom_truncates_oversized_program() {
    let mut memory = Memory::new();
    let rom: Vec<u8> = (0..4000u32).map(|k| (k % 251) as u8 + 1).collect();
    memory.load_rom(rom.clone());
    assert_eq!(memory.read(0xFFF), rom[3583]);
    assert_eq!(memory.read(0x200), rom[0]);
    assert_eq!(memory.read(0x1000), 0);
}

#[test]
fn write_outside_memory_is_ignored() {
    let mut memory = Memory::new();
    memory.write(5000, 9);
    assert_eq!(memory.read(5000), 0);
    memory.write(4095, 9);
    assert_eq!(memory.read(4095), 9);
}

#[test]
fn key_request_answered_once() {
    let mut input = Input::new();
    input.request_key_press(7);
    assert!(input.waiting());
    input.update(0xB, true);
    assert!(!input.waiting());
    let answer = input.request_response();
    assert!(answer == Some(KeyRequestResponse { key_code: 0xB, register: 7 }));
    assert!(input.request_response().is_none());
}

#[test]
fn key_update_is_edge_triggered() {
    let mut input = Input::new();
    input.update(3, true);
    assert!(input.is_key_pressed(3));
    input.request_key_press(2);
    input.update(3, true);
    assert!(input.waiting());
    assert!(input.request_response().is_none());
    input.update(3, false);
    assert!(!input.is_key_pressed(3));
    assert!(input.waiting());
    input.update(3, true);
    assert!(!input.waiting());
    assert!(input.request_response() == Some(KeyRequestResponse { key_code: 3, register: 2 }));
}

#[test]
fn key_release_does_not_answer() {
    let mut input = Input::new();
    input.update(1, true);
    input.request_key_press(0);
    input.update(1, false);
    assert!(input.waiting());
    assert!(input.request_response().is_none());
}

#[test]
fn no_key_above_fifteen() {
    let input = Input::new();
    assert!(!input.is_key_pressed(16));
    assert!(!input.is_key_pressed(255));
}

#[test]
fn clock_counts_down_once_per_period() {
    let mut clock = Clock::new();
    clock.set_delay_timer(3);
    clock.set_sound_timer(1);
    for n in 1..=5u64 {
        clock.tick(n * PERIOD_NS);
        assert!(clock.vblank_interrupt());
    }
    assert_eq!(clock.delay_timer(), 0);
    assert_eq!(clock.sound_timer(), 0);
    assert_eq!(clock.tick_count(), 5);
}

#[test]
fn clock_delay_decreases_by_number_of_ticks() {
    let mut clock = Clock::new();
    clock.set_delay_timer(10);
    for n in 1..=4u64 {
        clock.tick(n * PERIOD_NS);
    }
    assert_eq!(clock.delay_timer(), 6);
}

#[test]
fn clock_does_not_tick_before_period() {
    let mut clock = Clock::new();
    clock.set_delay_timer(2);
    clock.tick(PERIOD_NS - 1);
    assert!(!clock.vblank_interrupt());
    assert_eq!(clock.delay_timer(), 2);
    clock.tick(PERIOD_NS);
    assert!(clock.vblank_interrupt());
    assert_eq!(clock.delay_timer(), 1);
    clock.tick(PERIOD_NS + 5);
    assert!(!clock.vblank_interrupt());
    assert_eq!(clock.delay_timer(), 1);
}

#[test]
fn clock_consumes_one_period_per_tick() {
    let mut clock = Clock::new();
    clock.set_delay_timer(9);
    clock.tick(10 * PERIOD_NS);
    clock.tick(10 * PERIOD_NS);
    clock.tick(10 * PERIOD_NS);
    assert_eq!(clock.delay_timer(), 6);
    assert_eq!(clock.tick_count(), 3);
}

#[test]
fn clock_update_ticks_after_a_period_of_host_time() {
    let mut clock = Clock::new();
    clock.set_delay_timer(5);
    let start = std::time::Instant::now();
    while start.elapsed() < std::time::Duration::from_millis(40) {}
    clock.update();
    assert!(clock.vblank_interrupt());
    assert_eq!(clock.delay_timer(), 4);
}

#[test]
fn memory_bytes_round_trip() {
    let mut memory = Memory::new();
    memory.load_rom(vec![0xAB, 0xCD]);
    let bytes = memory.to_bytes();
    assert_eq!(bytes.len(), 4096);
    let back = Memory::from_bytes(&bytes).expect("4096 bytes");
    assert_eq!(back.to_bytes(), bytes);
    assert_eq!(back.read(0x201), 0xCD);
}

#[test]
fn memory_from_wrong_length_is_rejected() {
    assert!(Memory::from_bytes(&vec![0u8; 4095]).is_none());
    assert!(Memory::from_bytes(&vec![0u8; 4097]).is_none());
    assert!(Memory::from_bytes(&Vec::new()).is_none());
}

#[test]
fn buffer_parts_round_trip() {
    let mut buffer = Buffer::new();
    buffer.draw_byte(8, 8, 0x99);
    let pixels = buffer.to_pixels();
    let back = Buffer::from_parts(&pixels, buffer.foreground_rgb(), buffer.background_rgb())
        .expect("valid parts");
    assert_eq!(back.as_rgb8().to_vec(), buffer.as_rgb8().to_vec());
}

#[test]
fn buffer_from_bad_parts_is_rejected() {
    let white = Rgb { red: 255, green: 255, blue: 255 };
    let black = Rgb { red: 0, green: 0, blue: 0 };
    let grey = Rgb { red: 9, green: 9, blue: 9 };
    assert!(Buffer::from_parts(&vec![black; PIXEL_COUNT - 1], white, black).is_none());
    let mut pixels = vec![black; PIXEL_COUNT];
    pixels[100] = grey;
    assert!(Buffer::from_parts(&pixels, white, black).is_none());
    pixels[100] = white;
    assert!(Buffer::from_parts(&pixels, white, black).is_some());
}

#[test]
fn input_from_parts_checks_registers() {
    let keys = [false; 16];
    assert!(Input::from_parts(keys, true, 16, None).is_none());
    let bad_key = KeyRequestResponse { key_code: 16, register: 0 };
    assert!(Input::from_parts(keys, false, 0, Some(bad_key)).is_none());
    let bad_reg = KeyRequestResponse { key_code: 1, register: 16 };
    assert!(Input::from_parts(keys, false, 0, Some(bad_reg)).is_none());
    let good = KeyRequestResponse { key_code: 2, register: 15 };
    let mut input = Input::from_parts(keys, false, 15, Some(good)).expect("valid parts");
    assert_eq!(input.request_reg(), 15);
    assert!(input.pending_response() == Some(good));
    assert!(input.request_response() == Some(good));
    assert_eq!(input.keys(), keys);
}

#[test]
fn clock_with_timers_starts_from_given_values() {
    let mut clock = Clock::with_timers(7, 2);
    assert_eq!(clock.delay_timer(), 7);
    assert_eq!(clock.sound_timer(), 2);
    assert!(!clock.vblank_interrupt());
    clock.tick(PERIOD_NS);
    assert_eq!(clock.delay_timer(), 6);
    assert_eq!(clock.sound_timer(), 1);
}
