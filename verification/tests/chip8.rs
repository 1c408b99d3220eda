use impostor::chip8::{Chip8, Trap};
use impostor::ram::Ram;
use impostor::Clock;

fn interpreter(program: Vec<u8>) -> Chip8<Ram<u8>> {
    let mut ram = Ram::new(0x1000);
    ram.fill(program, 0x200);
    Chip8::new(ram)
}

#[test]
fn a_new_interpreter() {
    let chip = interpreter(vec![]);
    assert_eq!(chip.pc, 0x200);
    assert_eq!(chip.sp, 0xf);
    assert_eq!(chip.index, 0);
    assert_eq!(chip.reg, [0; 16]);
    assert!(chip.screen.iter().all(|pixel| *pixel == 0));
    assert!(chip.keys.iter().all(|key| !*key));
    assert!(!chip.redraw);
}

#[test]
fn loads_and_adds() {
    let mut chip = interpreter(vec![0x60, 0xf0, 0x70, 0x20, 0x61, 0x05, 0x80, 0x10]);
    chip.step_with(0);
    assert_eq!(chip.reg[0], 0xf0);
    chip.step_with(0);
    assert_eq!(chip.reg[0], 0x10);
    chip.step_with(0);
    chip.step_with(0);
    assert_eq!(chip.reg[0], 0x05);
    assert_eq!(chip.pc, 0x208);
}

#[test]
fn arithmetic_sets_register_fifteen() {
    // v0 = $ff, v1 = $02; v0 += v1; v0 -= v1; v0 -= v1 twice more; v0 >>= 1.
    let mut chip = interpreter(vec![
        0x60, 0xff, 0x61, 0x02, 0x80, 0x14, 0x80, 0x15, 0x80, 0x15, 0x62, 0x03, 0x82, 0x06,
    ]);
    chip.step_with(0);
    chip.step_with(0);
    chip.step_with(0);
    assert_eq!(chip.reg[0], 0x01);
    assert_eq!(chip.reg[0xf], 1);
    chip.step_with(0);
    assert_eq!(chip.reg[0], 0xff);
    assert_eq!(chip.reg[0xf], 0);
    chip.step_with(0);
    assert_eq!(chip.reg[0], 0xfd);
    assert_eq!(chip.reg[0xf], 1);
    chip.step_with(0);
    chip.step_with(0);
    assert_eq!(chip.reg[2], 0x01);
    assert_eq!(chip.reg[0xf], 1);
}

#[test]
fn chip8_logic() {
    let mut chip = interpreter(vec![0x60, 0xf0, 0x61, 0x3c, 0x80, 0x11, 0x80, 0x12, 0x80, 0x13]);
    chip.step_with(0);
    chip.step_with(0);
    chip.step_with(0);
    assert_eq!(chip.reg[0], 0xfc);
    chip.step_with(0);
    assert_eq!(chip.reg[0], 0x3c);
    chip.step_with(0);
    assert_eq!(chip.reg[0], 0x00);
}

#[test]
fn skips() {
    let mut chip = interpreter(vec![0x30, 0x00, 0x00, 0x00, 0x40, 0x00, 0x50, 0x10, 0x00, 0x00, 0x90, 0x10]);
    chip.step_with(0);
    assert_eq!(chip.pc, 0x204);
    chip.step_with(0);
    assert_eq!(chip.pc, 0x206);
    chip.step_with(0);
    assert_eq!(chip.pc, 0x20a);
    chip.step_with(0);
    assert_eq!(chip.pc, 0x20c);
}

#[test]
fn jumps_calls_and_returns() {
    let mut chip = interpreter(vec![0x22, 0x06, 0x12, 0x00, 0x00, 0x00, 0x00, 0xee]);
    chip.step_with(0);
    assert_eq!(chip.pc, 0x206);
    assert_eq!(chip.sp, 0xe);
    assert_eq!(chip.stack[0xf], 0x202);
    chip.step_with(0);
    assert_eq!(chip.pc, 0x202);
    assert_eq!(chip.sp, 0xf);
    chip.step_with(0);
    assert_eq!(chip.pc, 0x200);
}

#[test]
fn jump_with_offset_and_index() {
    let mut chip = interpreter(vec![0x60, 0x04, 0xa1, 0x23, 0xf0, 0x1e, 0xf0, 0x29, 0xb3, 0x00]);
    chip.step_with(0);
    chip.step_with(0);
    assert_eq!(chip.index, 0x123);
    chip.step_with(0);
    assert_eq!(chip.index, 0x127);
    chip.step_with(0);
    assert_eq!(chip.index, 20);
    chip.step_with(0);
    assert_eq!(chip.pc, 0x304);
}

#[test]
fn the_random_byte_is_masked() {
    let mut chip = interpreter(vec![0xc0, 0x0f, 0xc1, 0xf0]);
    chip.step_with(0xa5);
    assert_eq!(chip.reg[0], 0x05);
    chip.step_with(0xa5);
    assert_eq!(chip.reg[1], 0xa0);
}

#[test]
fn a_step_draws_its_own_random_byte() {
    let mut chip = interpreter(vec![0xc0, 0x00, 0x61, 0x07]);
    chip.step();
    assert_eq!(chip.reg[0], 0);
    chip.step();
    assert_eq!(chip.reg[1], 7);
}

#[test]
fn timers() {
    let mut chip = interpreter(vec![0x60, 0x2a, 0xf0, 0x15, 0xf0, 0x18, 0xf1, 0x07]);
    chip.step_with(0);
    chip.step_with(0);
    chip.step_with(0);
    assert_eq!(chip.delay_timer, 0x2a);
    assert_eq!(chip.sound_timer, 0x2a);
    chip.delay_timer = 0x11;
    chip.step_with(0);
    assert_eq!(chip.reg[1], 0x11);
}

#[test]
fn decimal_digits() {
    let mut chip = interpreter(vec![0x60, 0xea, 0xa3, 0x00, 0xf0, 0x33, 0xa3, 0x00, 0xf2, 0x65]);
    chip.step_with(0);
    chip.step_with(0);
    chip.step_with(0);
    assert_eq!(chip.read8(0x300), 2);
    assert_eq!(chip.read8(0x301), 3);
    assert_eq!(chip.read8(0x302), 4);
    chip.step_with(0);
    chip.step_with(0);
    assert_eq!(&chip.reg[0..3], &[2, 3, 4]);
    assert_eq!(chip.index, 0x300);
}

#[test]
fn waiting_for_a_key() {
    let mut chip = interpreter(vec![0xf3, 0x0a]);
    chip.step_with(0);
    // No key is down: the instruction is run again.
    assert_eq!(chip.pc, 0x200);
    chip.keys[9] = true;
    chip.keys[4] = true;
    chip.step_with(0);
    assert_eq!(chip.pc, 0x202);
    assert_eq!(chip.reg[3], 4);
}

#[test]
fn skips_on_keys() {
    let mut chip = interpreter(vec![0x60, 0x05, 0xe0, 0x9e, 0xe0, 0xa1, 0x00, 0x00, 0xe0, 0x9e, 0x00, 0x00, 0xe0, 0xa1]);
    chip.step_with(0);
    chip.step_with(0);
    assert_eq!(chip.pc, 0x204);
    chip.step_with(0);
    assert_eq!(chip.pc, 0x208);
    chip.keys[5] = true;
    chip.step_with(0);
    assert_eq!(chip.pc, 0x20c);
    chip.step_with(0);
    assert_eq!(chip.pc, 0x20e);
}

#[test]
fn drawing_a_sprite() {
    // v0 = 62, v1 = 30; I = $300; draw three rows at (v0, v1).
    let mut chip = interpreter(vec![0x60, 0x3e, 0x61, 0x1e, 0xa3, 0x00, 0xd0, 0x13, 0xd0, 0x13, 0x00, 0xe0]);
    chip.write8(0x300, 0xff);
    chip.write8(0x301, 0x81);
    chip.write8(0x302, 0xff);
    chip.step_with(0);
    chip.step_with(0);
    chip.step_with(0);
    chip.step_with(0);
    assert!(chip.redraw);
    assert_eq!(chip.reg[0xf], 0);
    // The sprite is cut at the right and at the bottom edge.
    assert_eq!(chip.screen[30 * 64 + 62], 1);
    assert_eq!(chip.screen[30 * 64 + 63], 1);
    assert_eq!(chip.screen[31 * 64 + 62], 1);
    assert_eq!(chip.screen[31 * 64 + 63], 0);
    assert_eq!(chip.screen.iter().filter(|pixel| **pixel == 1).count(), 3);
    // Drawing it again erases it and reports the collision.
    chip.step_with(0);
    assert_eq!(chip.reg[0xf], 1);
    assert!(chip.screen.iter().all(|pixel| *pixel == 0));
    chip.screen[5] = 1;
    chip.step_with(0);
    assert!(chip.screen.iter().all(|pixel| *pixel == 0));
}

#[test]
fn a_whole_sprite() {
    let mut chip = interpreter(vec![0xa3, 0x00, 0xd0, 0x02]);
    chip.write8(0x300, 0b1010_0101);
    chip.write8(0x301, 0b0000_0001);
    chip.step_with(0);
    chip.step_with(0);
    let first: Vec<u8> = chip.screen[0..8].to_vec();
    let second: Vec<u8> = chip.screen[64..72].to_vec();
    assert_eq!(first, vec![1, 0, 1, 0, 0, 1, 0, 1]);
    assert_eq!(second, vec![0, 0, 0, 0, 0, 0, 0, 1]);
}

#[test]
fn chip8_timers_count_down() {
    let mut chip = Chip8::new(Ram::new(4096));
    assert!(!chip.tick_timers());
    assert_eq!((chip.delay_timer, chip.sound_timer), (0, 0));
    chip.delay_timer = 3;
    chip.sound_timer = 2;
    assert!(!chip.tick_timers());
    assert_eq!((chip.delay_timer, chip.sound_timer), (2, 1));
    assert!(chip.tick_timers());
    assert_eq!((chip.delay_timer, chip.sound_timer), (1, 0));
    assert!(!chip.tick_timers());
    assert_eq!((chip.delay_timer, chip.sound_timer), (0, 0));
}

#[test]
fn chip8_font_has_sixteen_glyphs() {
    let font = impostor::chip8::font();
    assert_eq!(font.len(), 80);
    assert_eq!(&font[0..5], &[0xF0, 0x90, 0x90, 0x90, 0xF0]);
    assert_eq!(&font[5..10], &[0x20, 0x60, 0x20, 0x20, 0x70]);
    assert_eq!(&font[75..80], &[0xF0, 0x80, 0xF0, 0x80, 0x80]);
}

#[test]
fn chip8_traps() {
    let mut chip = interpreter(vec![0x61, 0x05, 0xff, 0xff]);
    assert_eq!(chip.trap(0x00e0), None);
    assert_eq!(chip.trap(0x00ee), Some(Trap::StackOutOfBounds));
    assert_eq!(chip.trap(0x0123), Some(Trap::InvalidOpcode));
    assert_eq!(chip.trap(0x2345), None);
    assert_eq!(chip.trap(0x8016), None);
    assert_eq!(chip.trap(0x8017), Some(Trap::InvalidOpcode));
    assert_eq!(chip.trap(0x801e), Some(Trap::InvalidOpcode));
    assert_eq!(chip.trap(0xe09e), None);
    assert_eq!(chip.trap(0xe0a1), None);
    assert_eq!(chip.trap(0xe000), Some(Trap::InvalidOpcode));
    assert_eq!(chip.trap(0xf007), None);
    assert_eq!(chip.trap(0xf029), None);
    assert_eq!(chip.trap(0xf033), None);
    assert_eq!(chip.trap(0xf0ff), Some(Trap::InvalidOpcode));
    assert_eq!(chip.trap(0xd123), None);
    chip.reg[0] = 16;
    assert_eq!(chip.trap(0xe09e), Some(Trap::NoSuchKey));
    assert_eq!(chip.trap(0xe000), Some(Trap::NoSuchKey));
    chip.sp = 0;
    assert_eq!(chip.trap(0x2345), Some(Trap::StackOutOfBounds));
    assert_eq!(chip.trap(0x00ee), None);
    chip.sp = 0x10;
    assert_eq!(chip.trap(0x2345), Some(Trap::StackOutOfBounds));
}

#[test]
fn chip8_step_in_two_halves() {
    let mut chip = interpreter(vec![0x61, 0x05, 0xc2, 0x0f, 0xff, 0xff]);
    let opcode = chip.read16_from_pc();
    assert_eq!(opcode, 0x6105);
    assert_eq!(chip.pc, 0x202);
    assert_eq!(chip.trap(opcode), None);
    chip.perform(opcode, 0);
    assert_eq!(chip.reg[1], 5);
    let opcode = chip.read16_from_pc();
    assert_eq!(opcode, 0xc20f);
    chip.perform(opcode, 0xa7);
    assert_eq!(chip.reg[2], 0x07);
    let opcode = chip.read16_from_pc();
    assert_eq!(opcode, 0xffff);
    assert!(chip.trap(opcode).is_some());
}
