//! A bridge between a master and a slave whose lanes differ in width.
use crate::ram::{lemma_stored_step, Ram};
use crate::{cast, convert, image, lemma_history_head, Access, Address, AddressBusIO, Data};
use core::marker::PhantomData;
use vstd::prelude::*;

verus! {

/// Presents a slave with address lane `T` and data lane `U` to a master of
/// any other widths. Each access is converted on its own: addresses and
/// written values to the slave's widths, values read back to the master's.
/// A conversion to a narrower lane truncates and one to a wider lane
/// zero-extends; an access is never split into several.
pub struct BusAdapter<
    'a,
    T: Address,
    U: Data,
    S: AddressBusIO<T, U> + ?Sized = dyn AddressBusIO<T, U> + 'a,
> {
    pub connection: &'a mut S,
    pub lanes: PhantomData<(T, U)>,
}

impl<'a, T: Address, U: Data, S: AddressBusIO<T, U> + ?Sized> BusAdapter<'a, T, U, S> {
    /// An adapter in front of `bus`.
    pub fn new(bus: &'a mut S) -> (adapter: BusAdapter<'a, T, U, S>)
        ensures
            image(adapter.connection) == image(old(bus)),
    {
        BusAdapter { connection: bus, lanes: PhantomData }
    }
}

/// `access` as the slave sees it: its address, and the value of a write, in
/// the slave's widths.
pub open spec fn lowered<T: Address, U: Data, V: Address, Z: Data>(access: Access<T, U>) -> Access<
    V,
    Z,
> {
    match access {
        Access::Read { address } => Access::Read { address: cast::<T, V>(address) },
        Access::Write { address, value } => Access::Write {
            address: cast::<T, V>(address),
            value: cast::<U, Z>(value),
        },
    }
}

/// `history` as the slave sees it.
pub open spec fn lowered_history<T: Address, U: Data, V: Address, Z: Data>(
    history: Seq<Access<T, U>>,
) -> Seq<Access<V, Z>> {
    history.map_values(|access: Access<T, U>| lowered::<T, U, V, Z>(access))
}

/// The slave sees one more access at the front as one more access at the
/// front.
pub proof fn lemma_lowered_step<T: Address, U: Data, V: Address, Z: Data>(
    first: Access<T, U>,
    rest: Seq<Access<T, U>>,
)
    ensures
        lowered_history::<T, U, V, Z>(seq![first] + rest) == seq![lowered::<T, U, V, Z>(first)]
            + lowered_history::<T, U, V, Z>(rest),
{
    assert(lowered_history::<T, U, V, Z>(seq![first] + rest) =~= seq![
        lowered::<T, U, V, Z>(first),
    ] + lowered_history::<T, U, V, Z>(rest));
}

impl<
    'a,
    T: Address,
    U: Data,
    V: Address,
    Z: Data,
    S: AddressBusIO<V, Z> + ?Sized,
> AddressBusIO<T, U> for BusAdapter<'a, V, Z, S> {
    open spec fn readable(&self, history: Seq<Access<T, U>>, address: T) -> bool {
        self.connection.readable(lowered_history::<T, U, V, Z>(history), cast::<T, V>(address))
    }

    open spec fn writable(&self, history: Seq<Access<T, U>>, address: T) -> bool {
        self.connection.writable(lowered_history::<T, U, V, Z>(history), cast::<T, V>(address))
    }

    open spec fn value(&self, history: Seq<Access<T, U>>, address: T) -> U {
        cast::<Z, U>(
            self.connection.value(lowered_history::<T, U, V, Z>(history), cast::<T, V>(address)),
        )
    }

    fn read(&mut self, address: T) -> (value: U) {
        proof {
            assert(lowered_history::<T, U, V, Z>(Seq::empty()) =~= Seq::<Access<V, Z>>::empty());
        }
        let inner = self.connection.read(convert::<T, V>(address));
        proof {
            assert forall|history: Seq<Access<T, U>>, at: T|
                #![trigger self.value(history, at)]
                #![trigger self.readable(history, at)]
                #![trigger self.writable(history, at)]
                self.value(history, at) == old(self).value(
                    seq![Access::Read { address }] + history,
                    at,
                ) && self.readable(history, at) == old(self).readable(
                    seq![Access::Read { address }] + history,
                    at,
                ) && self.writable(history, at) == old(self).writable(
                    seq![Access::Read { address }] + history,
                    at,
                ) by {
                lemma_lowered_step::<T, U, V, Z>(Access::Read { address }, history);
            }
        }
        convert::<Z, U>(inner)
    }

    fn write(&mut self, address: T, value: U) {
        proof {
            assert(lowered_history::<T, U, V, Z>(Seq::empty()) =~= Seq::<Access<V, Z>>::empty());
        }
        self.connection.write(convert::<T, V>(address), convert::<U, Z>(value));
        proof {
            assert forall|history: Seq<Access<T, U>>, at: T|
                #![trigger self.value(history, at)]
                #![trigger self.readable(history, at)]
                #![trigger self.writable(history, at)]
                self.value(history, at) == old(self).value(
                    seq![Access::Write { address, value }] + history,
                    at,
                ) && self.readable(history, at) == old(self).readable(
                    seq![Access::Write { address, value }] + history,
                    at,
                ) && self.writable(history, at) == old(self).writable(
                    seq![Access::Write { address, value }] + history,
                    at,
                ) by {
                lemma_lowered_step::<T, U, V, Z>(Access::Write { address, value }, history);
            }
        }
    }
}

/// Through an adapter in front of a memory, a value written at an address
/// that falls inside the memory is read back at that address as the value
/// truncated to the memory's data width and extended again to the master's.
pub proof fn round_trip<'a, T: Address, U: Data, V: Address, Z: Data>(
    adapter: BusAdapter<'a, V, Z, Ram<Z>>,
    address: T,
    value: U,
)
    requires
        cast::<T, V>(address).number() < adapter.connection@.len(),
    ensures
        image::<T, U, BusAdapter<'a, V, Z, Ram<Z>>>(&adapter).writes(address),
        image::<T, U, BusAdapter<'a, V, Z, Ram<Z>>>(&adapter).after_write(address, value).reads(
            address,
        ),
        image::<T, U, BusAdapter<'a, V, Z, Ram<Z>>>(&adapter).after_write(address, value).now(
            address,
        ) == cast::<Z, U>(cast::<U, Z>(value)),
{
    let write = Access::Write { address, value };
    let seen = lowered::<T, U, V, Z>(write);
    assert(lowered_history::<T, U, V, Z>(Seq::empty()) =~= Seq::<Access<V, Z>>::empty());
    assert(seq![write] + Seq::empty() =~= seq![write]);
    assert(lowered_history::<T, U, V, Z>(seq![write]) =~= seq![seen]);
    lemma_stored_step(adapter.connection@, seen, Seq::empty());
    assert(seq![seen] + Seq::empty() =~= seq![seen]);
}

} // verus!
