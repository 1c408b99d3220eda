//! Building blocks for emulated 8-bit machines: a byte-addressed bus protocol,
//! memory devices, address decoders, a width adapter and a MOS 6502 core,
//! and around them a Chip-8 interpreter and what a few peripherals decide:
//! the registers of a terminal, a timer, a block mover and a video unit.
//!
//! Every device on a bus is described by what a master can observe of it: the
//! value each read returns and whether an access is served, both as functions
//! of the accesses made so far. The executable code is proved against that
//! description.
use vstd::prelude::*;

pub mod adapter;
pub mod audio;
pub mod chip8;
pub mod debugger;
pub mod dma;
pub mod hex;
pub mod memcontroller;
pub mod mos6502;
pub mod number;
pub mod ram;
pub mod random;
pub mod rom;
pub mod storage;
pub mod timer;
pub mod unixterm;
pub mod utils;
pub mod video;

verus! {

/// What `core::num::ParseIntError` is to the verifier: a value that is only
/// carried from the integer parser to the caller.
#[verifier::external_type_specification]
#[verifier::external_body]
pub struct ExParseIntError(core::num::ParseIntError);

/// An unsigned integer type that can serve as the address lane of a bus.
///
/// `number` is the value the bit pattern denotes and `limit` is two to the
/// power of the lane's width; all arithmetic is stated over these.
pub trait Address: Copy + Sized {
    /// The natural number this value denotes.
    spec fn number(self) -> nat;

    /// One more than the largest number the type can hold.
    spec fn limit() -> nat;

    /// The value that denotes `number` reduced modulo the limit.
    spec fn of(number: nat) -> Self;

    /// What parsing `text` as digits in `radix` yields for this width, if
    /// anything.
    spec fn parsed(text: Seq<char>, radix: u32) -> Option<Self>;

    /// Every value lies below the limit, and no lane is wider than 64 bits.
    proof fn bounded(self)
        ensures
            self.number() < Self::limit(),
            0 < Self::limit() <= 0x1_0000_0000_0000_0000,
    ;

    /// Two values that denote the same number are the same value.
    proof fn distinct(self, other: Self)
        ensures
            self.number() == other.number() ==> self == other,
    ;

    /// `of` reduces modulo the limit.
    proof fn of_number(number: nat)
        ensures
            Self::of(number).number() == number % Self::limit(),
    ;

    fn zero() -> (r: Self)
        ensures
            r == Self::of(0),
    ;

    fn one() -> (r: Self)
        ensures
            r == Self::of(1),
    ;

    /// `self <= other`.
    fn at_most(self, other: Self) -> (r: bool)
        ensures
            r == (self.number() <= other.number()),
    ;

    /// A number drawn at random. Which one is not known.
    fn draw() -> Self;

    /// `self - base`, for a `base` that does not exceed `self`.
    fn offset_from(self, base: Self) -> (r: Self)
        requires
            base.number() <= self.number(),
        ensures
            r == Self::of((self.number() - base.number()) as nat),
    ;

    /// `self + offset`, reduced modulo the lane's width.
    fn wrapping_offset(self, offset: Self) -> (r: Self)
        ensures
            r == Self::of(self.number() + offset.number()),
    ;

    /// Zero-extension to 64 bits.
    fn widen(self) -> (r: u64)
        ensures
            r as nat == self.number(),
    ;

    /// Truncation of a 64-bit value to the lane's width.
    fn narrow(wide: u64) -> (r: Self)
        ensures
            r == Self::of(wide as nat),
    ;

    /// Parses `text` as a number written in `radix`.
    fn from_str_radix(text: &str, radix: u32) -> (r: Result<Self, core::num::ParseIntError>)
        requires
            2 <= radix <= 36,
        ensures
            r matches Ok(v) ==> Self::parsed(text@, radix) == Some(v),
            r is Err ==> Self::parsed(text@, radix) is None,
    ;
}

/// An unsigned integer type that can serve as the data lane of a bus.
pub trait Data: Address {

}

impl<T: Address> Data for T {

}

/// The natural modular conversion between two lane widths: zero-extension
/// when the target is wider, truncation when it is narrower.
pub open spec fn cast<A: Address, B: Address>(a: A) -> B {
    B::of(a.number())
}

/// Converts `a` to another lane width.
pub fn convert<A: Address, B: Address>(a: A) -> (b: B)
    ensures
        b == cast::<A, B>(a),
{
    B::narrow(a.widen())
}

/// One access that a master makes on a bus.
pub enum Access<T, U> {
    Read { address: T },
    Write { address: T, value: U },
}

impl<T, U> Access<T, U> {
    /// The address the access is made at.
    pub open spec fn at(self) -> T {
        match self {
            Access::Read { address } => address,
            Access::Write { address, .. } => address,
        }
    }
}

/// Everything a master can observe of a device from some moment on.
///
/// `value(history, address)` is what a read at `address` returns once the
/// accesses in `history` have been made; `readable(history, address)` and
/// `writable(history, address)` say whether a read or a write at `address` is
/// then answered rather than fatal.
#[verifier::reject_recursive_types(T)]
#[verifier::reject_recursive_types(U)]
pub ghost struct BusState<T, U> {
    pub value: spec_fn(Seq<Access<T, U>>, T) -> U,
    pub readable: spec_fn(Seq<Access<T, U>>, T) -> bool,
    pub writable: spec_fn(Seq<Access<T, U>>, T) -> bool,
}

impl<T, U> BusState<T, U> {
    /// What a read at `address` returns right now.
    pub open spec fn now(self, address: T) -> U {
        (self.value)(Seq::empty(), address)
    }

    /// Whether a read at `address` is answered right now.
    pub open spec fn reads(self, address: T) -> bool {
        (self.readable)(Seq::empty(), address)
    }

    /// Whether a write at `address` is answered right now.
    pub open spec fn writes(self, address: T) -> bool {
        (self.writable)(Seq::empty(), address)
    }

    /// The device once `access` has been made.
    pub open spec fn after(self, access: Access<T, U>) -> Self {
        BusState {
            value: |history: Seq<Access<T, U>>, address: T|
                (self.value)(seq![access] + history, address),
            readable: |history: Seq<Access<T, U>>, address: T|
                (self.readable)(seq![access] + history, address),
            writable: |history: Seq<Access<T, U>>, address: T|
                (self.writable)(seq![access] + history, address),
        }
    }

    /// Whether the device answers every access, now and after whatever
    /// happens.
    pub open spec fn answers_all(self) -> bool {
        forall|history: Seq<Access<T, U>>, address: T|
            #![trigger (self.readable)(history, address)]
            #![trigger (self.writable)(history, address)]
            (self.readable)(history, address) && (self.writable)(history, address)
    }

    /// The device once a read at `address` has been made.
    pub open spec fn after_read(self, address: T) -> Self {
        self.after(Access::Read { address })
    }

    /// The device once `value` has been written at `address`.
    pub open spec fn after_write(self, address: T, value: U) -> Self {
        self.after(Access::Write { address, value })
    }
}

/// A byte-addressable slave: anything a master can read from and write to.
///
/// Both operations take the device mutably, since a read may change it. The
/// three spec functions are the device's model; `read` and `write` are held to
/// it.
pub trait AddressBusIO<T: Address, U: Data> {
    /// Whether a read at `address` is answered once `history` has happened.
    /// Unless a device says otherwise, every read is.
    open spec fn readable(&self, history: Seq<Access<T, U>>, address: T) -> bool {
        true
    }

    /// Whether a write at `address` is answered once `history` has happened.
    /// Unless a device says otherwise, every write is.
    open spec fn writable(&self, history: Seq<Access<T, U>>, address: T) -> bool {
        true
    }

    /// What a read at `address` returns once `history` has happened. Unless
    /// a device says otherwise, zero.
    open spec fn value(&self, history: Seq<Access<T, U>>, address: T) -> U {
        U::of(0)
    }

    fn read(&mut self, address: T) -> (value: U)
        requires
            old(self).readable(Seq::empty(), address),
        ensures
            value == old(self).value(Seq::empty(), address),
            forall|history: Seq<Access<T, U>>, at: T| #[trigger]
                final(self).value(history, at) == old(self).value(
                    seq![Access::Read { address }] + history,
                    at,
                ),
            forall|history: Seq<Access<T, U>>, at: T| #[trigger]
                final(self).readable(history, at) == old(self).readable(
                    seq![Access::Read { address }] + history,
                    at,
                ),
            forall|history: Seq<Access<T, U>>, at: T| #[trigger]
                final(self).writable(history, at) == old(self).writable(
                    seq![Access::Read { address }] + history,
                    at,
                ),
    ;

    fn write(&mut self, address: T, value: U)
        requires
            old(self).writable(Seq::empty(), address),
        ensures
            forall|history: Seq<Access<T, U>>, at: T| #[trigger]
                final(self).value(history, at) == old(self).value(
                    seq![Access::Write { address, value }] + history,
                    at,
                ),
            forall|history: Seq<Access<T, U>>, at: T| #[trigger]
                final(self).readable(history, at) == old(self).readable(
                    seq![Access::Write { address, value }] + history,
                    at,
                ),
            forall|history: Seq<Access<T, U>>, at: T| #[trigger]
                final(self).writable(history, at) == old(self).writable(
                    seq![Access::Write { address, value }] + history,
                    at,
                ),
    ;
}

/// The device that is not there: it answers every read with zero and drops
/// every write. A device that leaves one direction out hands that direction
/// to this one.
pub struct Unconnected;

impl<T: Address, U: Data> AddressBusIO<T, U> for Unconnected {
    fn read(&mut self, address: T) -> (value: U) {
        U::zero()
    }

    fn write(&mut self, address: T, value: U) {
    }
}

/// A device that holds and moves blocks of data rather than single values.
pub trait AddressBusBlockIO<T: Address, U: Data> {
    /// Fills `buffer` from the block at `address`.
    fn read(&mut self, address: T, buffer: &mut [U]);

    /// Stores `buffer` as the block at `address`.
    fn write(&mut self, address: T, buffer: &[U]);
}

/// Anything that advances in steps. What a step does is for each
/// implementation to say.
pub trait Clock {
    /// Whether a step can be made from this state.
    open spec fn can_step(&self) -> bool {
        true
    }

    fn step(&mut self)
        requires
            old(self).can_step(),
    ;
}

/// Anything with interrupt lines that can be raised. What raising a line
/// does is for each implementation to say.
pub trait Interrupt<T: Address> {
    /// Whether `line` can be raised in this state.
    open spec fn can_raise(&self, line: T) -> bool {
        true
    }

    fn raise(&mut self, line: T)
        requires
            old(self).can_raise(line),
    ;
}

/// What a debugger needs of a processor: a cursor, single steps, access to
/// the memory it sees, and breakpoints in code.
pub trait Debug<T: Address, U: Data> {
    /// Where the next instruction is.
    spec fn cursor(&self) -> T;

    /// Whether the cell at `address` can be looked at.
    open spec fn can_inspect(&self, address: T) -> bool {
        true
    }

    /// Whether the cell at `address` can be given `value`.
    open spec fn can_inject(&self, address: T, value: U) -> bool {
        true
    }

    /// Whether the next instruction can be run.
    open spec fn can_advance(&self) -> bool {
        true
    }

    /// Whether a breakpoint in code is waiting to be taken.
    spec fn breakpoint_pending(&self) -> bool;

    fn inspect(&mut self, address: T) -> U
        requires
            old(self).can_inspect(address),
    ;

    fn inject(&mut self, address: T, value: U)
        requires
            old(self).can_inject(address, value),
    ;

    fn address_str(&self, address: T) -> String;

    fn data_str(&self, data: U) -> String;

    fn set_cursor(&mut self, address: T)
        ensures
            final(self).cursor() == address,
    ;

    fn get_cursor(&self) -> (address: T)
        ensures
            address == self.cursor(),
    ;

    fn next(&mut self)
        requires
            old(self).can_advance(),
    ;

    fn set_code_breakpoint(&mut self, enable: bool);

    /// Says whether a breakpoint in code is waiting, and takes it.
    fn is_code_breakpoint_requested(&mut self) -> (requested: bool)
        ensures
            requested == old(self).breakpoint_pending(),
            !final(self).breakpoint_pending(),
    ;
}

/// The observable state of `bus`.
pub open spec fn image<T: Address, U: Data, B: AddressBusIO<T, U> + ?Sized>(bus: &B) -> BusState<
    T,
    U,
> {
    BusState {
        value: |history: Seq<Access<T, U>>, address: T| bus.value(history, address),
        readable: |history: Seq<Access<T, U>>, address: T| bus.readable(history, address),
        writable: |history: Seq<Access<T, U>>, address: T| bus.writable(history, address),
    }
}

/// A device that answers every future as `before` would have answered it
/// after `access` is `before` after `access`.
pub proof fn lemma_image_after<T: Address, U: Data, B: AddressBusIO<T, U> + ?Sized>(
    before: &B,
    access: Access<T, U>,
    after: &B,
)
    requires
        forall|history: Seq<Access<T, U>>, at: T| #[trigger]
            after.value(history, at) == before.value(seq![access] + history, at),
        forall|history: Seq<Access<T, U>>, at: T| #[trigger]
            after.readable(history, at) == before.readable(seq![access] + history, at),
        forall|history: Seq<Access<T, U>>, at: T| #[trigger]
            after.writable(history, at) == before.writable(seq![access] + history, at),
    ensures
        image(after) == image(before).after(access),
{
    let left = image(after);
    let right = image(before).after(access);
    assert(left.value =~= right.value);
    assert(left.readable =~= right.readable);
    assert(left.writable =~= right.writable);
}

/// A device that answers every access still does after one more.
pub proof fn lemma_answers_after<T, U>(bus: BusState<T, U>, access: Access<T, U>)
    requires
        bus.answers_all(),
    ensures
        bus.after(access).answers_all(),
{
    assert forall|history: Seq<Access<T, U>>, address: T|
        #![trigger (bus.after(access).readable)(history, address)]
        #![trigger (bus.after(access).writable)(history, address)]
        (bus.after(access).readable)(history, address) && (bus.after(access).writable)(
            history,
            address,
        ) by {
        assert((bus.readable)(seq![access] + history, address));
        assert((bus.writable)(seq![access] + history, address));
    }
}

/// `seq![first] + rest` has `first` at its head and `rest` behind it.
pub proof fn lemma_history_head<E>(first: E, rest: Seq<E>)
    ensures
        (seq![first] + rest).len() == rest.len() + 1,
        (seq![first] + rest)[0] == first,
        (seq![first] + rest).skip(1) == rest,
{
    assert((seq![first] + rest).skip(1) =~= rest);
}

} // verus!
