use impostor::memcontroller::{MemoryController, MemoryControllerBoxed};
use impostor::ram::Ram;
use impostor::rom::Rom;
use impostor::AddressBusIO;

#[test]
fn decoder_forwards_relative_addresses() {
    let mut ram: Ram<u8> = Ram::new(0x80);
    let mut controller: MemoryController<u16, u8> = MemoryController::new();
    controller.map(0x0080, 0x00ff, &mut ram);
    controller.write(0x0080, 0x11);
    controller.write(0x00ff, 0x22);
    assert_eq!(controller.read(0x0080), 0x11);
    assert_eq!(controller.read(0x00ff), 0x22);
    drop(controller);
    assert_eq!(ram.read(0x00u16), 0x11);
    assert_eq!(ram.read(0x7fu16), 0x22);
}

#[test]
fn decoder_mirror() {
    let mut ram: Ram<u8> = Ram::new(0x80);
    let mut controller: MemoryController<u16, u8> = MemoryController::new();
    controller.map(0x0080, 0x00ff, &mut ram);
    controller.mirror(0x0180, 0x01ff, 0x0080);
    controller.write(0x0180, 0x42);
    assert_eq!(controller.read(0x0080), 0x42);
    controller.write(0x00ff, 0x24);
    assert_eq!(controller.read(0x01ff), 0x24);
}

#[test]
fn decoder_unmapped_reads_zero_and_drops_writes() {
    let mut ram: Ram<u8> = Ram::new(0x10);
    let mut controller: MemoryController<u16, u8> = MemoryController::new();
    controller.map(0x0100, 0x010f, &mut ram);
    controller.write(0x0200, 0x99);
    assert_eq!(controller.read(0x0200), 0);
    assert_eq!(controller.read(0x00ff), 0);
    assert_eq!(controller.read(0x0110), 0);
    assert!(!controller.panic_on_no_map);
}

#[test]
fn decoder_first_mapping_wins() {
    let mut first: Rom<u8> = Rom::new(vec![0xaa; 0x10]);
    let mut second: Rom<u8> = Rom::new(vec![0xbb; 0x20]);
    let mut controller: MemoryController<u16, u8> = MemoryController::new();
    controller.map(0x1000, 0x100f, &mut first);
    controller.map(0x1000, 0x101f, &mut second);
    assert_eq!(controller.read(0x1000), 0xaa);
    assert_eq!(controller.read(0x100f), 0xaa);
    assert_eq!(controller.read(0x1010), 0xbb);
    assert_eq!(controller.read(0x101f), 0xbb);
}

#[test]
fn decoder_first_mirror_wins_and_is_not_applied_twice() {
    let mut low: Rom<u8> = Rom::new(vec![0x11; 0x10]);
    let mut middle: Rom<u8> = Rom::new(vec![0x22; 0x10]);
    let mut high: Rom<u8> = Rom::new(vec![0x33; 0x10]);
    let mut controller: MemoryController<u16, u8> = MemoryController::new();
    controller.map(0x0000, 0x000f, &mut low);
    controller.map(0x0100, 0x010f, &mut middle);
    controller.map(0x0200, 0x020f, &mut high);
    // $0200 is moved to $0100, and $0100 is moved to $0000.
    controller.mirror(0x0200, 0x020f, 0x0100);
    controller.mirror(0x0100, 0x010f, 0x0000);
    // One rewrite only: $0200 ends at $0100, not at $0000.
    assert_eq!(controller.read(0x0200), 0x22);
    assert_eq!(controller.read(0x0100), 0x11);
    assert_eq!(controller.read(0x0000), 0x11);
}

#[test]
fn decoder_overlapping_mirrors_take_the_first() {
    let mut low: Rom<u8> = Rom::new(vec![0x11; 0x10]);
    let mut high: Rom<u8> = Rom::new(vec![0x33; 0x10]);
    let mut controller: MemoryController<u16, u8> = MemoryController::new();
    controller.map(0x0000, 0x000f, &mut low);
    controller.map(0x0200, 0x020f, &mut high);
    controller.mirror(0x4000, 0x400f, 0x0200);
    controller.mirror(0x4000, 0x400f, 0x0000);
    assert_eq!(controller.read(0x4005), 0x33);
}

#[test]
fn decoder_mirror_target_wraps() {
    let mut rom: Rom<u8> = Rom::new(vec![5, 6, 7, 8]);
    let mut controller: MemoryController<u8, u8> = MemoryController::new();
    controller.map(0x00, 0x03, &mut rom);
    controller.mirror(0x10, 0x1f, 0xfe);
    // $12 is moved to $FE + 2, which wraps to $00.
    assert_eq!(controller.read(0x12), 5);
    assert_eq!(controller.read(0x13), 6);
}

#[test]
fn decoder_with_mixed_slaves() {
    let mut ram: Ram<u8> = Ram::new(0x2000);
    let mut rom: Rom<u8> = Rom::new(vec![0xea; 0x4000]);
    let mut controller: MemoryController<u16, u8> = MemoryController::new();
    controller.map(0x0000, 0x1fff, &mut ram);
    controller.map(0xc000, 0xffff, &mut rom);
    controller.write(0x1234, 0x56);
    controller.write(0xc000, 0x56);
    assert_eq!(controller.read(0x1234), 0x56);
    assert_eq!(controller.read(0xc000), 0xea);
    assert_eq!(controller.read(0xffff), 0xea);
}

#[test]
fn decoder_of_one_slave_type() {
    let mut first: Ram<u8> = Ram::new(4);
    let mut second: Ram<u8> = Ram::new(4);
    let mut controller = MemoryController::new();
    controller.map(0x10u16, 0x13, &mut first);
    controller.map(0x20u16, 0x23, &mut second);
    controller.write(0x11, 1);
    controller.write(0x22, 2);
    let low: u8 = controller.read(0x11);
    let high: u8 = controller.read(0x22);
    assert_eq!(low, 1);
    assert_eq!(high, 2);
}

#[test]
fn boxed_decoder_owns_its_slaves() {
    let mut controller: MemoryControllerBoxed<u16, u8> = MemoryControllerBoxed::new();
    controller.map(0x0000, 0x000f, Box::new(Ram::<u8>::new(0x10)));
    controller.map(0x8000, 0x8003, Box::new(Rom::<u8>::new(vec![1, 2, 3, 4])));
    controller.map(0x8000, 0x8003, Box::new(Rom::<u8>::new(vec![9, 9, 9, 9])));
    controller.write(0x0003, 0x77);
    controller.write(0x8001, 0x77);
    controller.write(0x4000, 0x77);
    assert_eq!(controller.read(0x0003), 0x77);
    assert_eq!(controller.read(0x8001), 2);
    assert_eq!(controller.read(0x4000), 0);
}
