use impostor::adapter::BusAdapter;
use impostor::ram::Ram;
use impostor::{Address, AddressBusIO, Data, Unconnected};

struct TestAddressBusIO<T: Address, U: Data> {
    _address: T,
    _data: U,
}

impl<T: Address, U: Data> Default for TestAddressBusIO<T, U> {
    fn default() -> TestAddressBusIO<T, U> {
        TestAddressBusIO {
            _address: T::zero(),
            _data: U::zero(),
        }
    }
}

impl<T: Address, U: Data> AddressBusIO<T, U> for TestAddressBusIO<T, U> {
    fn read(&mut self, _address: T) -> U {
        U::one()
    }

    fn write(&mut self, address: T, value: U) {
        Unconnected.write(address, value)
    }
}

#[test]
fn converto_to_lower() {
    let mut bus: TestAddressBusIO<u8, u8> = TestAddressBusIO::default();
    let mut adapter = BusAdapter::new(&mut bus);
    assert_eq!(
        <dyn AddressBusIO<u32, u32>>::read(&mut adapter, 0xaabbccdd),
        1
    );
}

#[test]
fn adapter_truncates_the_address() {
    let mut ram: Ram<u8> = Ram::new(256);
    ram.write(0xddu8, 0x5a);
    let mut adapter: BusAdapter<u8, u8, Ram<u8>> = BusAdapter::new(&mut ram);
    let value: u32 = adapter.read(0xaabbccddu32);
    assert_eq!(value, 0x5a);
}

#[test]
fn adapter_round_trip_truncates_the_value() {
    let mut ram: Ram<u8> = Ram::new(256);
    let mut adapter: BusAdapter<u8, u8, Ram<u8>> = BusAdapter::new(&mut ram);
    adapter.write(0x11223344u32, 0xaabbccddu32);
    let value: u32 = adapter.read(0x11223344u32);
    assert_eq!(value, 0xdd);
    let low: u8 = ram.read(0x44u8);
    assert_eq!(low, 0xdd);
}

#[test]
fn adapter_widens_to_a_wide_slave() {
    let mut ram: Ram<u32> = Ram::new(0x300);
    let mut adapter: BusAdapter<u32, u32, Ram<u32>> = BusAdapter::new(&mut ram);
    adapter.write(0x0201u16, 0x7fu8);
    let value: u8 = adapter.read(0x0201u16);
    assert_eq!(value, 0x7f);
    let cell: u32 = ram.read(0x0201u32);
    assert_eq!(cell, 0x7f);
}

#[test]
fn adapter_reads_truncate_wide_data() {
    let mut ram: Ram<u32> = Ram::new(4);
    ram.write(1u32, 0x12345678);
    let mut adapter: BusAdapter<u32, u32, Ram<u32>> = BusAdapter::new(&mut ram);
    let value: u8 = adapter.read(1u16);
    assert_eq!(value, 0x78);
}
