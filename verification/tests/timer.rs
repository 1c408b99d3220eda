use impostor::memcontroller::MemoryController;
use impostor::timer::SimpleTimer;
use impostor::AddressBusIO;

#[test]
fn a_new_timer() {
    let mut timer: SimpleTimer<u8, u16> = SimpleTimer::new();
    assert_eq!(timer.read(0u16), 0);
    assert_eq!(timer.counter, 0);
    assert_eq!(timer.interrupt_line, 0);
}

#[test]
fn a_timer_counts_down_and_expires_once() {
    let mut timer: SimpleTimer<u8, u16> = SimpleTimer::new();
    timer.connect_to_interrupt_line(4);
    timer.write(0u16, 3);
    assert_eq!(timer.read(0u16), 3);
    assert_eq!(timer.tick(), None);
    assert_eq!(timer.read(0u16), 2);
    assert_eq!(timer.tick(), None);
    assert_eq!(timer.tick(), Some(4));
    assert_eq!(timer.read(0u16), 0);
}

#[test]
fn a_timer_of_one_tick() {
    let mut timer: SimpleTimer<u32, u8> = SimpleTimer::new();
    timer.connect_to_interrupt_line(6);
    timer.write(0u8, 1);
    assert_eq!(timer.tick(), Some(6));
}

#[test]
fn rewiring_keeps_the_counter() {
    let mut timer: SimpleTimer<u16, u16> = SimpleTimer::new();
    timer.write(0u16, 500);
    timer.connect_to_interrupt_line(40);
    assert_eq!(timer.read(0u16), 500);
    assert_eq!(timer.tick(), None);
    assert_eq!(timer.counter, 499);
}

#[test]
fn a_timer_has_one_register_at_every_address() {
    let mut timer: SimpleTimer<u8, u16> = SimpleTimer::new();
    timer.write(0x1234u16, 9);
    assert_eq!(timer.read(0x0000u16), 9);
    assert_eq!(timer.read(0xffffu16), 9);
    let mut controller: MemoryController<u16, u8> = MemoryController::new();
    controller.map(0xd000, 0xd000, &mut timer);
    controller.write(0xd000, 7);
    assert_eq!(controller.read(0xd000), 7);
    assert_eq!(controller.read(0xd001), 0);
}
