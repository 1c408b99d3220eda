use impostor::memcontroller::{
    MemoryControllerShared, MemoryControllerSmart, MemoryControllerThreadSafe,
};
use impostor::ram::Ram;
use impostor::rom::Rom;
use impostor::AddressBusIO;
use std::cell::RefCell;
use std::rc::Rc;
use std::sync::{Arc, Mutex};

struct Shared(Rc<RefCell<dyn AddressBusIO<u16, u8>>>);

impl AddressBusIO<u16, u8> for Shared {
    fn read(&mut self, address: u16) -> u8 {
        self.0.borrow_mut().read(address)
    }

    fn write(&mut self, address: u16, value: u8) {
        self.0.borrow_mut().write(address, value)
    }
}

struct Guarded(Arc<Mutex<dyn AddressBusIO<u16, u8> + Send + Sync>>);

impl AddressBusIO<u16, u8> for Guarded {
    fn read(&mut self, address: u16) -> u8 {
        self.0.lock().unwrap().read(address)
    }

    fn write(&mut self, address: u16, value: u8) {
        self.0.lock().unwrap().write(address, value)
    }
}

#[test]
fn shared_decoder_reaches_a_slave_that_others_hold() {
    let ram = Rc::new(RefCell::new(Ram::<u8>::new(0x100)));
    let mut controller = MemoryControllerShared::new();
    controller.map(0x1000, 0x10ff, Shared(ram.clone()));
    controller.map(0x2000, 0x20ff, Shared(ram.clone()));
    controller.write(0x1004, 0x17);
    assert_eq!(controller.read(0x2004), 0x17);
    assert_eq!(ram.borrow_mut().read(0x0004u16), 0x17);
    ram.borrow_mut().write(0x0005u16, 0x22);
    assert_eq!(controller.read(0x1005), 0x22);
    assert_eq!(controller.read(0x3000), 0);
    controller.write(0x3000, 1);
    assert_eq!(controller.read(0x3000), 0);
}

#[test]
fn shared_decoder_first_mapping_wins() {
    let mut controller: MemoryControllerShared<u16, u8, Ram<u8>> = MemoryControllerShared::new();
    let mut first = Ram::new(0x10);
    first.fill(vec![0xaa; 0x10], 0);
    let mut second = Ram::new(0x20);
    second.fill(vec![0xbb; 0x20], 0);
    controller.map(0x00, 0x0f, first);
    controller.map(0x08, 0x27, second);
    assert_eq!(controller.read(0x08), 0xaa);
    assert_eq!(controller.read(0x0f), 0xaa);
    assert_eq!(controller.read(0x10), 0xbb);
    controller.write(0x10, 0x33);
    assert_eq!(controller.mappings[1].connection.read(0x08u16), 0x33);
}

#[test]
fn thread_safe_decoder_reaches_a_slave_that_others_hold() {
    let ram = Arc::new(Mutex::new(Ram::<u8>::new(0x4000)));
    let mut cpu_side = MemoryControllerThreadSafe::new();
    cpu_side.map(0xb000, 0xcfff, Guarded(ram.clone()));
    let mut audio_side = MemoryControllerThreadSafe::new();
    audio_side.map(0x0000, 0x1fff, Guarded(ram.clone()));
    cpu_side.write(0xb010, 0x99);
    assert_eq!(audio_side.read(0x0010), 0x99);
    audio_side.write(0x0011, 0x77);
    assert_eq!(cpu_side.read(0xb011), 0x77);
    assert_eq!(cpu_side.read(0x0000), 0);
}

#[test]
fn smart_decoder_searches_borrowed_slaves_first() {
    let mut ram: Ram<u8> = Ram::new(0x2000);
    let mut rom: Rom<u8> = Rom::new(vec![0xea; 0x4000]);
    let video = Rc::new(RefCell::new(Ram::<u8>::new(0x4000)));
    {
        let mut controller: MemoryControllerSmart<u16, u8, Shared> = MemoryControllerSmart::new();
        controller.map_shared(0x4000, 0x7fff, Shared(video.clone()));
        controller.map_shared(0x0000, 0x00ff, Shared(video.clone()));
        controller.map(0x0000, 0x1fff, &mut ram);
        controller.map(0xc000, 0xffff, &mut rom);
        controller.write(0x0010, 0x11);
        controller.write(0x4010, 0x22);
        controller.write(0xc000, 0x33);
        assert_eq!(controller.read(0x0010), 0x11);
        assert_eq!(controller.read(0x4010), 0x22);
        assert_eq!(controller.read(0xc000), 0xea);
        assert_eq!(controller.read(0x3000), 0);
    }
    // the borrowed slave got the access at the address both cover
    assert_eq!(ram.read(0x0010u16), 0x11);
    assert_eq!(video.borrow_mut().read(0x0010u16), 0x22);
}
