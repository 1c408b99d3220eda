//! Read-only memory backed by a vector of cells.
use crate::{image, Access, Address, AddressBusIO, BusState, Data};
use vstd::prelude::*;

verus! {

/// A memory whose cells are given when it is made and never change.
pub struct Rom<T: Data> {
    cells: Vec<T>,
}

impl<T: Data> View for Rom<T> {
    type V = Seq<T>;

    closed spec fn view(&self) -> Seq<T> {
        self.cells@
    }
}

impl<T: Data> Rom<T> {
    /// A memory that holds `data`.
    pub fn new(data: Vec<T>) -> (rom: Rom<T>)
        ensures
            rom@ == data@,
    {
        Rom { cells: data }
    }
}

impl<T: Address, U: Data> AddressBusIO<T, U> for Rom<U> {
    open spec fn readable(&self, history: Seq<Access<T, U>>, address: T) -> bool {
        address.number() < self@.len()
    }

    /// A write touches no cell, so it is answered at every address.
    open spec fn writable(&self, history: Seq<Access<T, U>>, address: T) -> bool {
        true
    }

    open spec fn value(&self, history: Seq<Access<T, U>>, address: T) -> U {
        self@[address.number() as int]
    }

    fn read(&mut self, address: T) -> (value: U)
        ensures
            value == old(self)@[address.number() as int],
            final(self)@ == old(self)@,
    {
        let size = self.cells.len();
        let index = address.widen() as usize;
        self.cells[index]
    }

    fn write(&mut self, address: T, value: U)
        ensures
            final(self)@ == old(self)@,
    {
    }
}

/// A write changes nothing that can be observed of the memory: every later
/// read returns what it would have returned without the write.
pub proof fn write_changes_nothing<T: Address, U: Data>(rom: Rom<U>, address: T, value: U)
    ensures
        image::<T, U, Rom<U>>(&rom).writes(address),
        image::<T, U, Rom<U>>(&rom).after_write(address, value) == image::<T, U, Rom<U>>(&rom),
{
    let before = image::<T, U, Rom<U>>(&rom);
    let after = before.after_write(address, value);
    assert(after.value =~= before.value);
    assert(after.readable =~= before.readable);
    assert(after.writable =~= before.writable);
}

} // verus!
