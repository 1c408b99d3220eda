//! A countdown that raises an interrupt line when it runs out.
//!
//! The counter is loaded by a write and read back by a read. While it
//! runs it loses one at each tick, a millisecond apart; the tick that brings
//! it to zero stops it and names the interrupt line to raise. What this
//! module holds is the counter and the decision; whoever owns the clock
//! makes the ticks and raises the line.
use crate::lemma_history_head;
use crate::{Access, Address, AddressBusIO, Data};
use vstd::prelude::*;

verus! {

/// The counter once the accesses of `history` have been made, with no tick
/// between them: what the last write loaded, or `counter` where nothing was
/// written.
pub open spec fn reloaded<T: Address, U: Data>(counter: U, history: Seq<Access<T, U>>) -> U
    decreases history.len(),
{
    if history.len() == 0 {
        counter
    } else {
        match history[0] {
            Access::Read { .. } => reloaded(counter, history.skip(1)),
            Access::Write { value, .. } => reloaded(value, history.skip(1)),
        }
    }
}

/// The counter of a timer and the interrupt line it is wired to.
pub struct SimpleTimer<T: Data, U: Address> {
    pub counter: T,
    pub interrupt_line: U,
}

impl<T: Data, U: Address> SimpleTimer<T, U> {
    /// A timer at zero, wired to line zero.
    pub fn new() -> (timer: SimpleTimer<T, U>)
        ensures
            timer.counter == T::of(0),
            timer.interrupt_line == U::of(0),
    {
        SimpleTimer { counter: T::zero(), interrupt_line: U::zero() }
    }

    /// Wires the timer to `line`.
    pub fn connect_to_interrupt_line(&mut self, line: U)
        ensures
            final(self).interrupt_line == line,
            final(self).counter == old(self).counter,
    {
        self.interrupt_line = line;
    }

    /// One tick of a running counter. The counter loses one; where that
    /// brings it to zero the timer stops and the line to raise is
    /// returned.
    pub fn tick(&mut self) -> (expired: Option<U>)
        requires
            old(self).counter.number() > 0,
        ensures
            final(self).counter == T::of((old(self).counter.number() - 1) as nat),
            final(self).interrupt_line == old(self).interrupt_line,
            expired == if old(self).counter.number() == 1 {
                Some(old(self).interrupt_line)
            } else {
                None
            },
    {
        proof {
            T::of_number(1);
            T::of_number(0);
            T::of_number((self.counter.number() - 1) as nat);
            self.counter.bounded();
            vstd::arithmetic::div_mod::lemma_small_mod(1, T::limit());
            vstd::arithmetic::div_mod::lemma_small_mod(0, T::limit());
            vstd::arithmetic::div_mod::lemma_small_mod(
                (self.counter.number() - 1) as nat,
                T::limit(),
            );
        }
        self.counter = self.counter.offset_from(T::one());
        if self.counter.at_most(T::zero()) {
            Some(self.interrupt_line)
        } else {
            None
        }
    }
}

/// The timer on a bus. It has one register, at every address: the counter.
/// Between two ticks it is a cell like any other.
impl<T: Address, U: Data> AddressBusIO<T, U> for SimpleTimer<U, T> {
    open spec fn value(&self, history: Seq<Access<T, U>>, address: T) -> U {
        reloaded(self.counter, history)
    }

    fn read(&mut self, address: T) -> (value: U)
        ensures
            *final(self) == *old(self),
    {
        proof {
            assert forall|history: Seq<Access<T, U>>, at: T| #[trigger]
                self.value(history, at) == old(self).value(
                    seq![Access::Read { address }] + history,
                    at,
                ) by {
                lemma_history_head(Access::<T, U>::Read { address }, history);
            }
        }
        self.counter
    }

    fn write(&mut self, address: T, value: U)
        ensures
            final(self).counter == value,
            final(self).interrupt_line == old(self).interrupt_line,
    {
        self.counter = value;
        proof {
            assert forall|history: Seq<Access<T, U>>, at: T| #[trigger]
                self.value(history, at) == old(self).value(
                    seq![Access::Write { address, value }] + history,
                    at,
                ) by {
                lemma_history_head(Access::<T, U>::Write { address, value }, history);
            }
        }
    }
}

} // verus!
