//! Read/write memory backed by a vector of cells.
use crate::lemma_history_head;
use crate::{image, Access, Address, AddressBusIO, BusState, Data};
use vstd::prelude::*;

verus! {

/// A memory of fixed size whose cells can be read and written.
pub struct Ram<T: Data> {
    cells: Vec<T>,
}

/// The cells once `access` has been made on them: a write inside the memory
/// replaces one cell, anything else leaves them alone.
pub open spec fn store<T: Address, U: Data>(cells: Seq<U>, access: Access<T, U>) -> Seq<U> {
    match access {
        Access::Write { address, value } => if address.number() < cells.len() {
            cells.update(address.number() as int, value)
        } else {
            cells
        },
        Access::Read { .. } => cells,
    }
}

/// The cells once every access of `history` has been made, in order.
pub open spec fn stored<T: Address, U: Data>(cells: Seq<U>, history: Seq<Access<T, U>>) -> Seq<U>
    decreases history.len(),
{
    if history.len() == 0 {
        cells
    } else {
        stored(store(cells, history[0]), history.skip(1))
    }
}

/// Making one access and then `rest` is making `rest` on the cells that the
/// access leaves.
pub proof fn lemma_stored_step<T: Address, U: Data>(
    cells: Seq<U>,
    first: Access<T, U>,
    rest: Seq<Access<T, U>>,
)
    ensures
        stored(cells, seq![first] + rest) == stored(store(cells, first), rest),
{
    lemma_history_head(first, rest);
}

impl<T: Data> View for Ram<T> {
    type V = Seq<T>;

    closed spec fn view(&self) -> Seq<T> {
        self.cells@
    }
}

impl<T: Data> Ram<T> {
    /// A memory of `size` cells, all zero.
    pub fn new(size: usize) -> (ram: Ram<T>)
        ensures
            ram@.len() == size,
            forall|i: int| 0 <= i < size ==> #[trigger] ram@[i] == T::of(0),
    {
        let mut cells: Vec<T> = Vec::new();
        let mut count: usize = 0;
        while count < size
            invariant
                count <= size,
                cells@.len() == count,
                forall|i: int| 0 <= i < count ==> #[trigger] cells@[i] == T::of(0),
            decreases size - count,
        {
            cells.push(T::zero());
            count = count + 1;
        }
        Ram { cells }
    }

    /// How many cells of `data` a `fill` copies into a memory of `size`
    /// cells.
    pub open spec fn filled(size: nat, data: Seq<T>) -> nat {
        if data.len() <= size {
            data.len()
        } else {
            size
        }
    }

    /// Copies `data` into the cells from `offset` on. No more cells are
    /// copied than the memory has, and the copy must end inside the memory.
    pub fn fill(&mut self, data: Vec<T>, offset: usize)
        requires
            Self::filled(old(self)@.len(), data@) == 0 || offset + Self::filled(
                old(self)@.len(),
                data@,
            ) <= old(self)@.len(),
        ensures
            final(self)@.len() == old(self)@.len(),
            forall|i: int|
                0 <= i < old(self)@.len() ==> #[trigger] final(self)@[i] == if offset <= i < offset
                    + Self::filled(old(self)@.len(), data@) {
                    data@[i - offset]
                } else {
                    old(self)@[i]
                },
    {
        let size = self.cells.len();
        let count = if data.len() <= size {
            data.len()
        } else {
            size
        };
        let mut index: usize = 0;
        while index < count
            invariant
                index <= count,
                size == old(self)@.len(),
                count == Self::filled(old(self)@.len(), data@),
                count == 0 || offset + count <= old(self)@.len(),
                self.cells@.len() == old(self)@.len(),
                forall|i: int|
                    0 <= i < old(self)@.len() ==> #[trigger] self.cells@[i] == if offset <= i
                        < offset + index {
                        data@[i - offset]
                    } else {
                        old(self)@[i]
                    },
            decreases count - index,
        {
            self.cells.set(offset + index, data[index]);
            index = index + 1;
        }
    }

    /// The number of cells.
    pub fn size(&self) -> (size: usize)
        ensures
            size == self@.len(),
    {
        self.cells.len()
    }
}

impl<T: Address, U: Data> AddressBusIO<T, U> for Ram<U> {
    open spec fn readable(&self, history: Seq<Access<T, U>>, address: T) -> bool {
        address.number() < self@.len()
    }

    open spec fn writable(&self, history: Seq<Access<T, U>>, address: T) -> bool {
        address.number() < self@.len()
    }

    open spec fn value(&self, history: Seq<Access<T, U>>, address: T) -> U {
        stored(self@, history)[address.number() as int]
    }

    fn read(&mut self, address: T) -> (value: U)
        ensures
            value == old(self)@[address.number() as int],
            final(self)@ == old(self)@,
    {
        let size = self.cells.len();
        let index = address.widen() as usize;
        let value = self.cells[index];
        proof {
            assert forall|history: Seq<Access<T, U>>, at: T| #[trigger]
                self.value(history, at) == old(self).value(
                    seq![Access::Read { address }] + history,
                    at,
                ) by {
                lemma_stored_step(self@, Access::<T, U>::Read { address }, history);
            }
        }
        value
    }

    fn write(&mut self, address: T, value: U)
        ensures
            final(self)@ == old(self)@.update(address.number() as int, value),
    {
        let size = self.cells.len();
        let index = address.widen() as usize;
        self.cells.set(index, value);
        proof {
            assert forall|history: Seq<Access<T, U>>, at: T| #[trigger]
                self.value(history, at) == old(self).value(
                    seq![Access::Write { address, value }] + history,
                    at,
                ) by {
                lemma_stored_step(old(self)@, Access::Write { address, value }, history);
            }
        }
    }
}

/// A value written to a cell of the memory is the value read back from it.
pub proof fn write_then_read<T: Address, U: Data>(ram: Ram<U>, address: T, value: U)
    requires
        address.number() < ram@.len(),
    ensures
        image::<T, U, Ram<U>>(&ram).after_write(address, value).reads(address),
        image::<T, U, Ram<U>>(&ram).after_write(address, value).now(address) == value,
{
    let write = Access::Write { address, value };
    lemma_stored_step(ram@, write, Seq::empty());
    assert(seq![write] + Seq::empty() =~= seq![write]);
}

/// A write leaves every cell but the addressed one as it was.
pub proof fn write_keeps_other_cells<T: Address, U: Data>(
    ram: Ram<U>,
    address: T,
    value: U,
    other: T,
)
    requires
        address.number() < ram@.len(),
        other.number() < ram@.len(),
        other.number() != address.number(),
    ensures
        image::<T, U, Ram<U>>(&ram).after_write(address, value).now(other) == image::<
            T,
            U,
            Ram<U>,
        >(&ram).now(other),
{
    let write = Access::Write { address, value };
    lemma_stored_step(ram@, write, Seq::empty());
    assert(seq![write] + Seq::empty() =~= seq![write]);
}

} // verus!
