use impostor::hex::{push_hex2, push_hex4};
use impostor::random::Random;
use impostor::{convert, Address};

#[test]
fn hex_text() {
    let mut text = String::new();
    push_hex2(&mut text, 0x00);
    push_hex2(&mut text, 0x9a);
    push_hex2(&mut text, 0xff);
    assert_eq!(text, "009AFF");
    let mut text = String::from("$");
    push_hex4(&mut text, 0x0bcd);
    assert_eq!(text, "$0BCD");
}

#[test]
fn conversions_truncate_and_extend() {
    let low: u8 = convert(0xaabbccddu32);
    assert_eq!(low, 0xdd);
    let wide: u32 = convert(0xddu8);
    assert_eq!(wide, 0x0000_00dd);
    let word: u16 = convert(0xffff_ffff_0000_1234u64);
    assert_eq!(word, 0x1234);
    let same: u64 = convert(0xffff_ffff_0000_1234u64);
    assert_eq!(same, 0xffff_ffff_0000_1234);
}

#[test]
fn address_arithmetic() {
    assert_eq!(u8::zero(), 0);
    assert_eq!(u16::one(), 1);
    assert!(3u16.at_most(3));
    assert!(!4u16.at_most(3));
    assert_eq!(0x1234u16.offset_from(0x1000), 0x0234);
    assert_eq!(0xfff0u16.wrapping_offset(0x0020), 0x0010);
    assert_eq!(0xf0u8.wrapping_offset(0x20), 0x10);
    assert_eq!(0xabu8.widen(), 0xab);
    assert_eq!(u8::narrow(0x1234), 0x34);
    assert_eq!(u32::narrow(0x1_2345_6789), 0x2345_6789);
}

#[test]
fn radix_parser_of_each_width() {
    assert_eq!(u8::from_str_radix("ff", 16).ok(), Some(0xff));
    assert_eq!(u16::from_str_radix("ffff", 16).ok(), Some(0xffff));
    assert_eq!(u32::from_str_radix("ffffffff", 16).ok(), Some(0xffff_ffff));
    assert_eq!(
        u64::from_str_radix("ffffffffffffffff", 16).ok(),
        Some(0xffff_ffff_ffff_ffff)
    );
    assert!(u8::from_str_radix("100", 16).is_err());
    assert_eq!(u8::from_str_radix("zz", 36).ok(), None);
    assert_eq!(u16::from_str_radix("zz", 36).ok(), Some(35 * 36 + 35));
}

#[test]
fn random_register() {
    let mut random: Random<u8> = Random::new();
    assert_eq!(random.value(), 0);
    random.latch(0x5a);
    assert_eq!(random.value(), 0x5a);
    let mut seen = std::collections::HashSet::new();
    for _ in 0..64 {
        random.roll();
        seen.insert(random.value());
    }
    assert!(seen.len() > 1);
}

#[test]
fn random_register_of_each_width() {
    let mut wide: Random<u64> = Random::new();
    assert_eq!(wide.value(), 0);
    let mut seen_other = false;
    for _ in 0..8 {
        wide.roll();
        if wide.value() != 0 {
            seen_other = true;
        }
    }
    assert!(seen_other);
    let mut word: Random<u16> = Random::new();
    word.roll();
    let held = word.value();
    assert_eq!(word.value(), held);
    let mut long: Random<u32> = Random::new();
    long.latch(7);
    assert_eq!(long.value(), 7);
    long.roll();
    let _ = <u8 as Address>::draw();
}

#[test]
fn piano_keys() {
    let notes = impostor::audio::notes();
    assert_eq!(notes.len(), 36);
    assert_eq!(notes[0], 440);
    assert_eq!(notes[12], 880);
    assert_eq!(notes[24], 1760);
    assert_eq!(notes[35], 3322);
    assert_eq!(impostor::audio::key(0), Some(0));
    assert_eq!(impostor::audio::key(35), Some(35));
    assert_eq!(impostor::audio::key(36), None);
    assert_eq!(impostor::audio::key(u64::MAX), None);
}

#[test]
fn a_roll_returns_what_the_register_then_holds() {
    let mut byte: Random<u8> = Random::new();
    let mut word: Random<u16> = Random::new();
    for _ in 0..32 {
        let drawn = byte.roll();
        assert_eq!(byte.value(), drawn);
        let drawn = word.roll();
        assert_eq!(word.value(), drawn);
    }
}
