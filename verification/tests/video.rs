use impostor::storage::block_offset;
use impostor::video::{cell, place, Key, Sprite, VideoUnit};
use impostor::AddressBusIO;

#[test]
fn sprite_new_is_hidden() {
    let sprite = Sprite::new();
    assert_eq!(sprite, Sprite { tile: 0, x: 0, y: 0, flags: 0 });
    assert!(!sprite.shown());
    assert_eq!(sprite.size(), 8);
}

#[test]
fn sprite_size_follows_flags() {
    let mut sprite = Sprite::new();
    sprite.flags = 0x09;
    assert!(sprite.shown());
    assert_eq!(sprite.size(), 16);
    sprite.flags = 0x11;
    assert_eq!(sprite.size(), 16);
    sprite.flags = 0xf9;
    assert_eq!(sprite.size(), 256);
    sprite.flags = 0xf0;
    assert!(!sprite.shown());
    assert_eq!(sprite.size(), 128);
}

#[test]
fn sheet_place_of_tiles() {
    assert_eq!(place(false, 0, 0, 0), 0);
    assert_eq!(place(false, 1, 0, 0), 8);
    assert_eq!(place(false, 31, 7, 0), 255);
    assert_eq!(place(false, 32, 0, 0), 8 * 256);
    assert_eq!(place(false, 33, 2, 3), (8 + 3) * 256 + 8 + 2);
    assert_eq!(place(false, 255, 7, 7), 63 * 256 + 255);
    assert_eq!(place(true, 1, 0, 0), 16);
    assert_eq!(place(true, 16, 0, 0), 16 * 256);
    assert_eq!(place(true, 17, 5, 9), (16 + 9) * 256 + 16 + 5);
    assert_eq!(place(true, 255, 15, 15), 255 * 256 + 255);
}

#[test]
fn map_cell_of_pixels() {
    assert_eq!(cell(false, 0, 0), 0);
    assert_eq!(cell(false, 7, 7), 0);
    assert_eq!(cell(false, 8, 0), 1);
    assert_eq!(cell(false, 0, 8), 32);
    assert_eq!(cell(false, 255, 255), 1023);
    assert_eq!(cell(true, 15, 15), 0);
    assert_eq!(cell(true, 16, 0), 1);
    assert_eq!(cell(true, 0, 16), 16);
    assert_eq!(cell(true, 255, 255), 255);
}

#[test]
fn sprite_sheet_offset_flips_and_scales() {
    let mut sprite = Sprite { tile: 2, x: 0, y: 0, flags: 0x01 };
    assert_eq!(sprite.sheet_offset(0, 0), 16);
    assert_eq!(sprite.sheet_offset(7, 1), 256 + 23);
    sprite.flags = 0x03;
    assert_eq!(sprite.sheet_offset(0, 0), 23);
    assert_eq!(sprite.sheet_offset(7, 0), 16);
    sprite.flags = 0x05;
    assert_eq!(sprite.sheet_offset(0, 0), 7 * 256 + 16);
    sprite.flags = 0x11;
    assert_eq!(sprite.sheet_offset(0, 0), 16);
    assert_eq!(sprite.sheet_offset(1, 1), 16);
    assert_eq!(sprite.sheet_offset(2, 3), 256 + 17);
    assert_eq!(sprite.sheet_offset(15, 15), 7 * 256 + 23);
    sprite.flags = 0x13;
    assert_eq!(sprite.sheet_offset(0, 0), 23);
    assert_eq!(sprite.sheet_offset(15, 0), 16);
}

#[test]
fn video_unit_starts_cleared() {
    let mut unit = VideoUnit::new();
    assert_eq!(unit.chr_ram.len(), 0x1_0000);
    for address in [0x0000u16, 0x03ff, 0x0400, 0x0fff, 0x1000, 0x10ff, 0x1100, 0x1107, 0x1108] {
        assert_eq!(unit.read(address), 0);
    }
    assert_eq!(unit.pixel(0, 0), 0);
    assert_eq!(unit.pixel(255, 255), 0);
}

#[test]
fn video_unit_background_blocks() {
    let mut unit = VideoUnit::new();
    unit.write(0x0000, 1);
    unit.write(0x03ff, 2);
    unit.write(0x0400, 3);
    unit.write(0x07ff, 4);
    unit.write(0x0800, 5);
    unit.write(0x0bff, 6);
    unit.write(0x0c00, 7);
    unit.write(0x0fff, 8);
    assert_eq!(unit.background0[0], 1);
    assert_eq!(unit.background0[1023], 2);
    assert_eq!(unit.background1[0], 3);
    assert_eq!(unit.background1[1023], 4);
    assert_eq!(unit.background2[0], 5);
    assert_eq!(unit.background2[1023], 6);
    assert_eq!(unit.background3[0], 7);
    assert_eq!(unit.background3[1023], 8);
    assert_eq!(unit.read(0x0000), 1);
    assert_eq!(unit.read(0x03ff), 2);
    assert_eq!(unit.read(0x0400), 3);
    assert_eq!(unit.read(0x07ff), 4);
    assert_eq!(unit.read(0x0800), 5);
    assert_eq!(unit.read(0x0bff), 6);
    assert_eq!(unit.read(0x0c00), 7);
    assert_eq!(unit.read(0x0fff), 8);
    assert_eq!(unit.tile(2, 1023), 6);
}

#[test]
fn video_unit_sprite_page() {
    let mut unit = VideoUnit::new();
    unit.write(0x1000, 0x11);
    unit.write(0x1001, 0x22);
    unit.write(0x1002, 0x33);
    unit.write(0x1003, 0x44);
    unit.write(0x10fc, 0x55);
    unit.write(0x10ff, 0x66);
    assert_eq!(unit.sprites[0], Sprite { tile: 0x11, x: 0x22, y: 0x33, flags: 0x44 });
    assert_eq!(unit.sprites[63], Sprite { tile: 0x55, x: 0, y: 0, flags: 0x66 });
    assert_eq!(unit.read(0x1000), 0x11);
    assert_eq!(unit.read(0x1001), 0x22);
    assert_eq!(unit.read(0x1002), 0x33);
    assert_eq!(unit.read(0x1003), 0x44);
    assert_eq!(unit.read(0x10fc), 0x55);
    assert_eq!(unit.read(0x10ff), 0x66);
}

#[test]
fn video_unit_registers() {
    let mut unit = VideoUnit::new();
    unit.write(0x1100, 0x0a);
    unit.write(0x1101, 0x0b);
    unit.write(0x1102, 0x0c);
    unit.write(0x1103, 0x0d);
    unit.write(0x1104, 0x0e);
    unit.write(0x1105, 0x0f);
    unit.write(0x1106, 0x77);
    unit.write(0x1107, 0x05);
    unit.write(0x1108, 0x99);
    assert_eq!(unit.background_color, 0x0a);
    assert_eq!(unit.scroll_x, 0x0b);
    assert_eq!(unit.scroll_y, 0x0c);
    assert_eq!(unit.current_col, 0x0d);
    assert_eq!(unit.current_row, 0x0e);
    assert_eq!(unit.chr_ram[0x0e0d], 0x0f);
    assert_eq!(unit.input, 0);
    assert_eq!(unit.background_mode, 0x05);
    assert_eq!(unit.read(0x1100), 0x0a);
    assert_eq!(unit.read(0x1101), 0x0b);
    assert_eq!(unit.read(0x1102), 0x0c);
    assert_eq!(unit.read(0x1103), 0x0d);
    assert_eq!(unit.read(0x1104), 0x0e);
    assert_eq!(unit.read(0x1105), 0x0f);
    assert_eq!(unit.read(0x1106), 0);
    assert_eq!(unit.read(0x1107), 0x05);
    assert_eq!(unit.read(0x1108), 0);
}

#[test]
fn video_unit_keys() {
    let mut unit = VideoUnit::new();
    unit.key(Key::Up, true);
    unit.key(Key::Left, true);
    unit.key(Key::LeftAlt, true);
    assert_eq!(unit.input, 0x89);
    assert_eq!(unit.read(0x1106), 0x89);
    unit.key(Key::Left, false);
    unit.key(Key::Down, false);
    assert_eq!(unit.input, 0x81);
    assert_eq!(Key::Down.bit(), 0x02);
    assert_eq!(Key::Right.bit(), 0x04);
    assert_eq!(Key::Space.bit(), 0x10);
    assert_eq!(Key::LeftShift.bit(), 0x20);
    assert_eq!(Key::RightShift.bit(), 0x40);
}

#[test]
fn video_unit_load_sheet_keeps_the_rest() {
    let mut unit = VideoUnit::new();
    unit.write(0x1103, 5);
    unit.write(0x1105, 0x42);
    unit.load_sheet(&vec![1, 2, 3]);
    assert_eq!(unit.chr_ram.len(), 0x1_0000);
    assert_eq!(&unit.chr_ram[0..6], &[1, 2, 3, 0, 0, 0x42]);
}

#[test]
fn video_unit_background_pixel() {
    let mut unit = VideoUnit::new();
    unit.background_color = 9;
    // tile 1 of the sheet has one coloured pixel at (3, 2)
    unit.chr_ram[2 * 256 + 8 + 3] = 0x21;
    // cell (2, 1) of block 0 shows tile 1
    unit.background0[32 + 2] = 1;
    assert_eq!(unit.background_pixel(16 + 3, 8 + 2), 0x21);
    assert_eq!(unit.background_pixel(16 + 4, 8 + 2), 9);
    assert_eq!(unit.background_pixel(0, 0), 9);
    // scrolling moves the map to the left and up
    unit.scroll_x = 3;
    unit.scroll_y = 2;
    assert_eq!(unit.background_pixel(16, 8), 0x21);
    // past the right edge the neighbouring block shows
    unit.background1[0] = 1;
    assert_eq!(unit.block(252, 0), 0);
    assert_eq!(unit.block(253, 0), 1);
    assert_eq!(unit.block(0, 254), 2);
    assert_eq!(unit.block(255, 255), 3);
    unit.scroll_x = 10;
    assert_eq!(unit.block(245, 0), 0);
    assert_eq!(unit.block(246, 0), 1);
    assert_eq!(unit.background_pixel(249, 0), 0x21);
    assert_eq!(unit.background_pixel(250, 0), 9);
    unit.scroll_x = 3;
    unit.background_mode = 0x06;
    assert_eq!(unit.block(0, 0), 3);
    assert_eq!(unit.block(255, 0), 2);
    assert_eq!(unit.block(0, 255), 1);
    assert_eq!(unit.block(255, 255), 0);
}

#[test]
fn video_unit_wide_tiles() {
    let mut unit = VideoUnit::new();
    unit.background_mode = 0x01;
    unit.chr_ram[(16 + 9) * 256 + 16 + 5] = 0x33;
    unit.background0[16 * 2 + 3] = 17;
    assert_eq!(unit.background_pixel(48 + 5, 32 + 9), 0x33);
    assert_eq!(unit.background_pixel(48 + 5, 32 + 10), 0);
}

#[test]
fn video_unit_sprites_cover_in_order() {
    let mut unit = VideoUnit::new();
    unit.background_color = 1;
    unit.chr_ram[8] = 0x10;
    unit.chr_ram[16] = 0x20;
    unit.sprites[0] = Sprite { tile: 1, x: 100, y: 50, flags: 0x01 };
    unit.sprites[5] = Sprite { tile: 2, x: 100, y: 50, flags: 0x01 };
    unit.sprites[6] = Sprite { tile: 2, x: 10, y: 10, flags: 0x00 };
    assert_eq!(unit.sprite_pixel(0, 100, 50), 0x10);
    assert_eq!(unit.sprite_pixel(5, 100, 50), 0x20);
    assert_eq!(unit.sprite_pixel(6, 10, 10), 0);
    assert_eq!(unit.sprite_pixel(0, 99, 50), 0);
    assert_eq!(unit.sprite_pixel(0, 101, 50), 0);
    assert_eq!(unit.pixel(100, 50), 0x20);
    unit.sprites[5].flags = 0;
    assert_eq!(unit.pixel(100, 50), 0x10);
    assert_eq!(unit.pixel(10, 10), 1);
    // a sprite near the edge shows only what fits
    unit.sprites[1] = Sprite { tile: 1, x: 255, y: 255, flags: 0x01 };
    assert_eq!(unit.pixel(255, 255), 0x10);
}

#[test]
fn video_unit_frame_is_every_pixel() {
    let mut unit = VideoUnit::new();
    unit.background_color = 7;
    unit.chr_ram[8] = 0x10;
    unit.sprites[0] = Sprite { tile: 1, x: 3, y: 2, flags: 0x11 };
    let frame = unit.frame();
    assert_eq!(frame.len(), 0x1_0000);
    assert_eq!(frame[2 * 256 + 3], 0x10);
    assert_eq!(frame[2 * 256 + 4], 0x10);
    assert_eq!(frame[3 * 256 + 4], 0x10);
    assert_eq!(frame[2 * 256 + 5], 7);
    assert_eq!(frame[0], 7);
    for y in [0u8, 2, 3, 200, 255] {
        for x in [0u8, 3, 4, 5, 255] {
            assert_eq!(frame[y as usize * 256 + x as usize], unit.pixel(x, y));
        }
    }
}

#[test]
fn block_offset_inside_and_outside() {
    assert_eq!(block_offset(0, 512, 2048), Some(0));
    assert_eq!(block_offset(2, 512, 2048), Some(1024));
    assert_eq!(block_offset(3, 512, 2048), None);
    assert_eq!(block_offset(3, 512, 2049), Some(1536));
    assert_eq!(block_offset(4, 512, 2048), None);
    assert_eq!(block_offset(0, 512, 0), None);
    assert_eq!(block_offset(0, 0, 1), Some(0));
    assert_eq!(block_offset(u64::MAX, 512, u64::MAX), None);
}
