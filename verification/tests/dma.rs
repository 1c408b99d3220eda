use impostor::dma::{DmaRegisters, Transfer};
use impostor::AddressBusIO;

#[test]
fn idle_registers_ask_for_nothing() {
    let mut registers = DmaRegisters::new();
    assert_eq!(registers.next_transfer(512), None);
    assert_eq!(registers.read(2), 0);
    assert_eq!(registers.read(3), 0);
}

#[test]
fn registers_read_back() {
    let mut registers = DmaRegisters::new();
    registers.write(2, 3);
    registers.write(3, 1);
    registers.write(7, 0xff);
    assert_eq!(registers.read(2), 3);
    assert_eq!(registers.read(3), 1);
    assert_eq!(registers.read(0), 0);
    assert_eq!(registers.read(1), 0);
    assert_eq!(registers.read(7), 0);
}

#[test]
fn the_wide_registers_take_their_first_byte() {
    let mut registers = DmaRegisters::new();
    registers.write(0, 0x12);
    assert_eq!(registers.block, 0x12);
    assert_eq!(registers.block_counter, 1);
    registers.write(0, 0x34);
    assert_eq!(registers.block, 0x12);
    assert_eq!(registers.block_counter, 0);
    registers.write(0, 0x41);
    assert_eq!(registers.block, 0x53);
    registers.write(1, 0x80);
    registers.write(1, 0xff);
    assert_eq!(registers.address, 0x80);
    assert_eq!(registers.address_counter, 0);
}

#[test]
fn transfers_run_up_to_the_end() {
    let mut registers = DmaRegisters::new();
    registers.block = 10;
    registers.address = 0x4000;
    registers.write(2, 2);
    registers.write(3, 1);
    assert_eq!(
        registers.next_transfer(0x100),
        Some(Transfer { block: 8, address: 0x3e00, to_device: true })
    );
    registers.complete();
    registers.write(3, 0);
    assert_eq!(
        registers.next_transfer(0x100),
        Some(Transfer { block: 9, address: 0x3f00, to_device: false })
    );
    registers.complete();
    assert_eq!(registers.next_transfer(0x100), None);
}

#[test]
fn transfers_wrap() {
    let mut registers = DmaRegisters::new();
    registers.block = 1;
    registers.address = 0x0100;
    registers.write(2, 2);
    assert_eq!(
        registers.next_transfer(0x200),
        Some(Transfer { block: 0xffff, address: 0xfd00, to_device: false })
    );
}
