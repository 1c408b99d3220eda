//! Address decoders: devices that compose other devices into one address
//! space.
//!
//! A decoder holds an ordered list of mappings, each an inclusive address
//! range bound to a slave, and an ordered list of mirrors, each an inclusive
//! range that is rewritten onto a target before the mappings are searched.
//! The first mirror that holds the address rewrites it, once; the first
//! mapping that holds the rewritten address gets the access, at the address
//! relative to the mapping's start.
use crate::lemma_history_head;
use crate::{image, Access, Address, AddressBusIO, BusState, Data};
use core::marker::PhantomData;
use vstd::prelude::*;

verus! {

/// An inclusive range of addresses.
pub struct Window<T> {
    pub start: T,
    pub end: T,
}

/// A range of addresses that is rewritten onto the range of the same length
/// that starts at `mirror`.
pub struct MirrorMapping<T: Address> {
    pub start: T,
    pub end: T,
    pub mirror: T,
}

/// A range of addresses bound to a borrowed slave.
pub struct AddressMapping<'a, T: Address, U: Data, S: AddressBusIO<T, U> + ?Sized> {
    pub start: T,
    pub end: T,
    pub connection: &'a mut S,
    pub lane: PhantomData<U>,
}

/// A range of addresses bound to an owned slave.
pub struct AddressMappingBoxed<T: Address, U: Data, S: AddressBusIO<T, U> + ?Sized> {
    pub start: T,
    pub end: T,
    pub connection: Box<S>,
    pub lane: PhantomData<U>,
}

/// A range of addresses bound to a slave that is reached through a handle of
/// type `H`: a device that passes each access on to a device that others may
/// hold too.
pub struct AddressMappingShared<T: Address, U: Data, H: AddressBusIO<T, U>> {
    pub start: T,
    pub end: T,
    pub connection: H,
    pub lane: PhantomData<U>,
}

/// Whether `window` holds `address`.
pub open spec fn holds<T: Address>(window: Window<T>, address: T) -> bool {
    window.start.number() <= address.number() <= window.end.number()
}

/// Whether `index` is the first of `windows` that holds `address`.
pub open spec fn is_first<T: Address>(windows: Seq<Window<T>>, address: T, index: int) -> bool {
    &&& 0 <= index < windows.len()
    &&& holds(windows[index], address)
    &&& forall|earlier: int| 0 <= earlier < index ==> !holds(#[trigger] windows[earlier], address)
}

/// The first of `windows`, in order, that holds `address`.
pub open spec fn first_window<T: Address>(windows: Seq<Window<T>>, address: T) -> Option<int> {
    if exists|index: int| is_first(windows, address, index) {
        Some(choose|index: int| is_first(windows, address, index))
    } else {
        None
    }
}

/// The ranges of `mirrors`, in order.
pub open spec fn spans<T: Address>(mirrors: Seq<MirrorMapping<T>>) -> Seq<Window<T>> {
    Seq::new(mirrors.len(), |i: int| Window { start: mirrors[i].start, end: mirrors[i].end })
}

/// `address` as the mirrors rewrite it: the first mirror that holds it moves
/// it to the same offset from the mirror's target, wrapping at the width of
/// the address lane; with no such mirror it stays. The result is not looked
/// up in the mirrors again.
pub open spec fn translate<T: Address>(mirrors: Seq<MirrorMapping<T>>, address: T) -> T {
    match first_window(spans(mirrors), address) {
        Some(index) => T::of(
            (mirrors[index].mirror.number() + (address.number()
                - mirrors[index].start.number())) as nat,
        ),
        None => address,
    }
}

/// Where an access goes: a slave and the address it sees.
pub struct Route<T> {
    pub slave: int,
    pub address: T,
}

/// The route of an access at `address`: the first mapping that holds the
/// rewritten address, and the rewritten address relative to its start.
pub open spec fn decode<T: Address>(
    mirrors: Seq<MirrorMapping<T>>,
    windows: Seq<Window<T>>,
    address: T,
) -> Option<Route<T>> {
    let cleaned = translate(mirrors, address);
    match first_window(windows, cleaned) {
        Some(index) => Some(
            Route {
                slave: index,
                address: T::of((cleaned.number() - windows[index].start.number()) as nat),
            },
        ),
        None => None,
    }
}

/// `access` as the slave sees it, at `address`.
pub open spec fn readdress<T, U>(access: Access<T, U>, address: T) -> Access<T, U> {
    match access {
        Access::Read { .. } => Access::Read { address },
        Access::Write { value, .. } => Access::Write { address, value },
    }
}

/// The accesses of `history` that reach `slave`, in order and as it sees
/// them.
pub open spec fn routed<T: Address, U: Data>(
    mirrors: Seq<MirrorMapping<T>>,
    windows: Seq<Window<T>>,
    history: Seq<Access<T, U>>,
    slave: int,
) -> Seq<Access<T, U>>
    decreases history.len(),
{
    if history.len() == 0 {
        Seq::empty()
    } else {
        let rest = routed(mirrors, windows, history.skip(1), slave);
        match decode(mirrors, windows, history[0].at()) {
            Some(route) => if route.slave == slave {
                seq![readdress(history[0], route.address)] + rest
            } else {
                rest
            },
            None => rest,
        }
    }
}

/// What a decoder over `slaves` returns for a read at `address` once
/// `history` has happened: what the slave on the route returns, or zero where
/// nothing is mapped.
pub open spec fn decoded_value<T: Address, U: Data>(
    mirrors: Seq<MirrorMapping<T>>,
    windows: Seq<Window<T>>,
    slaves: Seq<BusState<T, U>>,
    history: Seq<Access<T, U>>,
    address: T,
) -> U {
    match decode(mirrors, windows, address) {
        Some(route) => (slaves[route.slave].value)(
            routed(mirrors, windows, history, route.slave),
            route.address,
        ),
        None => U::of(0),
    }
}

/// Whether a decoder over `slaves` answers a read at `address` once `history`
/// has happened: as the slave on the route does, and where nothing is mapped
/// unless the decoder is `strict`.
pub open spec fn decoded_readable<T: Address, U: Data>(
    mirrors: Seq<MirrorMapping<T>>,
    windows: Seq<Window<T>>,
    slaves: Seq<BusState<T, U>>,
    strict: bool,
    history: Seq<Access<T, U>>,
    address: T,
) -> bool {
    match decode(mirrors, windows, address) {
        Some(route) => (slaves[route.slave].readable)(
            routed(mirrors, windows, history, route.slave),
            route.address,
        ),
        None => !strict,
    }
}

/// Whether a decoder over `slaves` answers a write at `address` once
/// `history` has happened.
pub open spec fn decoded_writable<T: Address, U: Data>(
    mirrors: Seq<MirrorMapping<T>>,
    windows: Seq<Window<T>>,
    slaves: Seq<BusState<T, U>>,
    strict: bool,
    history: Seq<Access<T, U>>,
    address: T,
) -> bool {
    match decode(mirrors, windows, address) {
        Some(route) => (slaves[route.slave].writable)(
            routed(mirrors, windows, history, route.slave),
            route.address,
        ),
        None => !strict,
    }
}

/// A window that holds the address, with none before it that does, is the
/// first window.
pub proof fn lemma_first_window<T: Address>(windows: Seq<Window<T>>, address: T, index: int)
    requires
        is_first(windows, address, index),
    ensures
        first_window(windows, address) == Some(index),
{
    let chosen = choose|i: int| is_first(windows, address, i);
    if chosen < index {
    }
    if index < chosen {
    }
}

/// Where no window holds the address there is no first window.
pub proof fn lemma_no_window<T: Address>(windows: Seq<Window<T>>, address: T)
    requires
        forall|i: int| 0 <= i < windows.len() ==> !holds(#[trigger] windows[i], address),
    ensures
        first_window(windows, address) is None,
{
}

/// The accesses that reach a slave after one more access at the front.
pub proof fn lemma_routed_step<T: Address, U: Data>(
    mirrors: Seq<MirrorMapping<T>>,
    windows: Seq<Window<T>>,
    first: Access<T, U>,
    rest: Seq<Access<T, U>>,
    slave: int,
)
    ensures
        routed(mirrors, windows, seq![first] + rest, slave) == match decode(
            mirrors,
            windows,
            first.at(),
        ) {
            Some(route) => if route.slave == slave {
                seq![readdress(first, route.address)] + routed(mirrors, windows, rest, slave)
            } else {
                routed(mirrors, windows, rest, slave)
            },
            None => routed(mirrors, windows, rest, slave),
        },
{
    lemma_history_head(first, rest);
}

/// A decoder whose slaves are unchanged but for the one on the route of
/// `access`, which has seen it, answers every future as the decoder before
/// would have answered it after `access`.
pub proof fn lemma_decoded_step<T: Address, U: Data>(
    mirrors: Seq<MirrorMapping<T>>,
    windows: Seq<Window<T>>,
    before: Seq<BusState<T, U>>,
    after: Seq<BusState<T, U>>,
    strict: bool,
    access: Access<T, U>,
    history: Seq<Access<T, U>>,
    at: T,
)
    requires
        before.len() == windows.len(),
        after.len() == windows.len(),
        match decode(mirrors, windows, access.at()) {
            Some(route) => {
                &&& after[route.slave] == before[route.slave].after(
                    readdress(access, route.address),
                )
                &&& forall|other: int|
                    0 <= other < windows.len() && other != route.slave ==> after[other]
                        == before[other]
            },
            None => after == before,
        },
    ensures
        decoded_value(mirrors, windows, after, history, at) == decoded_value(
            mirrors,
            windows,
            before,
            seq![access] + history,
            at,
        ),
        decoded_readable(mirrors, windows, after, strict, history, at) == decoded_readable(
            mirrors,
            windows,
            before,
            strict,
            seq![access] + history,
            at,
        ),
        decoded_writable(mirrors, windows, after, strict, history, at) == decoded_writable(
            mirrors,
            windows,
            before,
            strict,
            seq![access] + history,
            at,
        ),
{
    match decode(mirrors, windows, at) {
        Some(target) => {
            lemma_routed_step(mirrors, windows, access, history, target.slave);
        },
        None => {},
    }
}

/// The same, of every future at once, for a decoder whose slaves are as
/// before but for the one on the route of `access`, which has seen it.
pub proof fn lemma_decoded_after<T: Address, U: Data>(
    mirrors: Seq<MirrorMapping<T>>,
    windows: Seq<Window<T>>,
    before: Seq<BusState<T, U>>,
    after: Seq<BusState<T, U>>,
    strict: bool,
    access: Access<T, U>,
)
    requires
        before.len() == windows.len(),
        after == match decode(mirrors, windows, access.at()) {
            Some(route) => before.update(
                route.slave,
                before[route.slave].after(readdress(access, route.address)),
            ),
            None => before,
        },
    ensures
        forall|history: Seq<Access<T, U>>, at: T| #[trigger]
            decoded_value(mirrors, windows, after, history, at) == decoded_value(
                mirrors,
                windows,
                before,
                seq![access] + history,
                at,
            ),
        forall|history: Seq<Access<T, U>>, at: T| #[trigger]
            decoded_readable(mirrors, windows, after, strict, history, at) == decoded_readable(
                mirrors,
                windows,
                before,
                strict,
                seq![access] + history,
                at,
            ),
        forall|history: Seq<Access<T, U>>, at: T| #[trigger]
            decoded_writable(mirrors, windows, after, strict, history, at) == decoded_writable(
                mirrors,
                windows,
                before,
                strict,
                seq![access] + history,
                at,
            ),
{
    lemma_decode_in_range(mirrors, windows, access.at());
    assert forall|history: Seq<Access<T, U>>, at: T| #[trigger]
        decoded_value(mirrors, windows, after, history, at) == decoded_value(
            mirrors,
            windows,
            before,
            seq![access] + history,
            at,
        ) by {
        lemma_decoded_step(mirrors, windows, before, after, strict, access, history, at);
    }
    assert forall|history: Seq<Access<T, U>>, at: T| #[trigger]
        decoded_readable(mirrors, windows, after, strict, history, at) == decoded_readable(
            mirrors,
            windows,
            before,
            strict,
            seq![access] + history,
            at,
        ) by {
        lemma_decoded_step(mirrors, windows, before, after, strict, access, history, at);
    }
    assert forall|history: Seq<Access<T, U>>, at: T| #[trigger]
        decoded_writable(mirrors, windows, after, strict, history, at) == decoded_writable(
            mirrors,
            windows,
            before,
            strict,
            seq![access] + history,
            at,
        ) by {
        lemma_decoded_step(mirrors, windows, before, after, strict, access, history, at);
    }
}

/// A route leads to one of the windows.
pub proof fn lemma_decode_in_range<T: Address>(
    mirrors: Seq<MirrorMapping<T>>,
    windows: Seq<Window<T>>,
    address: T,
)
    ensures
        decode(mirrors, windows, address) matches Some(route) ==> is_first(
            windows,
            translate(mirrors, address),
            route.slave,
        ),
{
    let cleaned = translate(mirrors, address);
    if exists|index: int| is_first(windows, cleaned, index) {
        let chosen = choose|index: int| is_first(windows, cleaned, index);
    }
}

/// When two mappings overlap, the one inserted first handles the access: a
/// later window that holds the rewritten address never gets it, and the
/// earlier one gets it unless a window before it holds the address too.
pub proof fn first_mapping_wins<T: Address>(
    mirrors: Seq<MirrorMapping<T>>,
    windows: Seq<Window<T>>,
    address: T,
    first: int,
    second: int,
)
    requires
        0 <= first < second < windows.len(),
        holds(windows[first], translate(mirrors, address)),
        holds(windows[second], translate(mirrors, address)),
    ensures
        decode(mirrors, windows, address) is Some,
        decode(mirrors, windows, address)->0.slave <= first,
        decode(mirrors, windows, address)->0.slave != second,
        (forall|earlier: int|
            0 <= earlier < first ==> !holds(
                #[trigger] windows[earlier],
                translate(mirrors, address),
            )) ==> decode(mirrors, windows, address) == Some(
            Route {
                slave: first,
                address: T::of(
                    (translate(mirrors, address).number() - windows[first].start.number()) as nat,
                ),
            },
        ),
{
    let cleaned = translate(mirrors, address);
    lemma_some_window(windows, cleaned, first);
    if forall|earlier: int| 0 <= earlier < first ==> !holds(#[trigger] windows[earlier], cleaned) {
        lemma_first_window(windows, cleaned, first);
    }
}

/// Where some window holds the address there is a first one, at or before
/// it.
pub proof fn lemma_some_window<T: Address>(windows: Seq<Window<T>>, address: T, index: int)
    requires
        0 <= index < windows.len(),
        holds(windows[index], address),
    ensures
        first_window(windows, address) is Some,
        first_window(windows, address)->0 <= index,
        is_first(windows, address, first_window(windows, address)->0),
    decreases index,
{
    if exists|earlier: int| 0 <= earlier < index && holds(#[trigger] windows[earlier], address) {
        let earlier = choose|earlier: int|
            0 <= earlier < index && holds(#[trigger] windows[earlier], address);
        lemma_some_window(windows, address, earlier);
    } else {
        lemma_first_window(windows, address, index);
    }
}

/// A rewritten address is not rewritten again: an address that the first
/// matching mirror moves to `target + (address - start)` is decoded there as
/// if there were no mirrors, whether or not that address lies in the range
/// of a mirror itself.
pub proof fn mirror_rewrites_once<T: Address>(
    mirrors: Seq<MirrorMapping<T>>,
    windows: Seq<Window<T>>,
    address: T,
    index: int,
)
    requires
        is_first(spans(mirrors), address, index),
    ensures
        translate(mirrors, address) == T::of(
            (mirrors[index].mirror.number() + (address.number()
                - mirrors[index].start.number())) as nat,
        ),
        decode(mirrors, windows, address) == decode(
            Seq::empty(),
            windows,
            translate(mirrors, address),
        ),
{
    lemma_first_window(spans(mirrors), address, index);
    lemma_no_window(spans(Seq::<MirrorMapping<T>>::empty()), translate(mirrors, address));
}

/// An address that no mirror holds is decoded as it is.
pub proof fn unmirrored_address_stays<T: Address>(mirrors: Seq<MirrorMapping<T>>, address: T)
    requires
        forall|i: int| 0 <= i < mirrors.len() ==> !holds(#[trigger] spans(mirrors)[i], address),
    ensures
        translate(mirrors, address) == address,
{
    lemma_no_window(spans(mirrors), address);
}

/// Rewrites `address` through `mirrors`.
fn rewrite<T: Address>(mirrors: &Vec<MirrorMapping<T>>, address: T) -> (cleaned: T)
    ensures
        cleaned == translate(mirrors@, address),
{
    let mut index: usize = 0;
    while index < mirrors.len()
        invariant
            index <= mirrors@.len(),
            forall|i: int| 0 <= i < index ==> !holds(#[trigger] spans(mirrors@)[i], address),
        decreases mirrors@.len() - index,
    {
        let start = mirrors[index].start;
        let end = mirrors[index].end;
        if start.at_most(address) && address.at_most(end) {
            let cleaned = mirrors[index].mirror.wrapping_offset(address.offset_from(start));
            proof {
                lemma_first_window(spans(mirrors@), address, index as int);
                address.bounded();
                start.bounded();
                T::of_number((address.number() - start.number()) as nat);
                let offset = T::of((address.number() - start.number()) as nat);
                assert(offset.number() == address.number() - start.number()) by {
                    vstd::arithmetic::div_mod::lemma_small_mod(
                        (address.number() - start.number()) as nat,
                        T::limit(),
                    );
                }
            }
            return cleaned;
        }
        index = index + 1;
    }
    proof {
        lemma_no_window(spans(mirrors@), address);
    }
    address
}

/// A range of addresses bound to a slave, however the slave is held.
pub trait Mapping<T: Address, U: Data> {
    /// The range.
    spec fn window(&self) -> Window<T>;

    /// The slave, as its master sees it.
    spec fn slave(&self) -> BusState<T, U>;

    /// The first address of the range.
    fn first(&self) -> (start: T)
        ensures
            start == self.window().start,
    ;

    /// The last address of the range.
    fn last(&self) -> (end: T)
        ensures
            end == self.window().end,
    ;

    /// Reads from the slave at `address`.
    fn read(&mut self, address: T) -> (value: U)
        requires
            old(self).slave().reads(address),
        ensures
            value == old(self).slave().now(address),
            final(self).slave() == old(self).slave().after_read(address),
            final(self).window() == old(self).window(),
    ;

    /// Writes `value` to the slave at `address`.
    fn write(&mut self, address: T, value: U)
        requires
            old(self).slave().writes(address),
        ensures
            final(self).slave() == old(self).slave().after_write(address, value),
            final(self).window() == old(self).window(),
    ;
}

impl<'a, T: Address, U: Data, S: AddressBusIO<T, U> + ?Sized> Mapping<T, U> for AddressMapping<
    'a,
    T,
    U,
    S,
> {
    open spec fn window(&self) -> Window<T> {
        Window { start: self.start, end: self.end }
    }

    open spec fn slave(&self) -> BusState<T, U> {
        image(self.connection)
    }

    fn first(&self) -> (start: T) {
        self.start
    }

    fn last(&self) -> (end: T) {
        self.end
    }

    fn read(&mut self, address: T) -> (value: U) {
        let value = self.connection.read(address);
        proof {
            crate::lemma_image_after(
                old(self).connection,
                Access::Read { address },
                self.connection,
            );
        }
        value
    }

    fn write(&mut self, address: T, value: U) {
        self.connection.write(address, value);
        proof {
            crate::lemma_image_after(
                old(self).connection,
                Access::Write { address, value },
                self.connection,
            );
        }
    }
}

impl<T: Address, U: Data, S: AddressBusIO<T, U> + ?Sized> Mapping<T, U> for AddressMappingBoxed<
    T,
    U,
    S,
> {
    open spec fn window(&self) -> Window<T> {
        Window { start: self.start, end: self.end }
    }

    open spec fn slave(&self) -> BusState<T, U> {
        image(&*self.connection)
    }

    fn first(&self) -> (start: T) {
        self.start
    }

    fn last(&self) -> (end: T) {
        self.end
    }

    fn read(&mut self, address: T) -> (value: U) {
        let value = self.connection.read(address);
        proof {
            crate::lemma_image_after(
                &*old(self).connection,
                Access::Read { address },
                &*self.connection,
            );
        }
        value
    }

    fn write(&mut self, address: T, value: U) {
        self.connection.write(address, value);
        proof {
            crate::lemma_image_after(
                &*old(self).connection,
                Access::Write { address, value },
                &*self.connection,
            );
        }
    }
}

impl<T: Address, U: Data, H: AddressBusIO<T, U>> Mapping<T, U> for AddressMappingShared<T, U, H> {
    open spec fn window(&self) -> Window<T> {
        Window { start: self.start, end: self.end }
    }

    open spec fn slave(&self) -> BusState<T, U> {
        image(&self.connection)
    }

    fn first(&self) -> (start: T) {
        self.start
    }

    fn last(&self) -> (end: T) {
        self.end
    }

    fn read(&mut self, address: T) -> (value: U) {
        let value = self.connection.read(address);
        proof {
            crate::lemma_image_after(
                &old(self).connection,
                Access::Read { address },
                &self.connection,
            );
        }
        value
    }

    fn write(&mut self, address: T, value: U) {
        self.connection.write(address, value);
        proof {
            crate::lemma_image_after(
                &old(self).connection,
                Access::Write { address, value },
                &self.connection,
            );
        }
    }
}

/// The ranges of `mappings`, in order.
pub open spec fn windows_of<T: Address, U: Data, M: Mapping<T, U>>(mappings: Seq<M>) -> Seq<
    Window<T>,
> {
    Seq::new(mappings.len(), |i: int| mappings[i].window())
}

/// The slaves of `mappings`, in order.
pub open spec fn slaves_of<T: Address, U: Data, M: Mapping<T, U>>(mappings: Seq<M>) -> Seq<
    BusState<T, U>,
> {
    Seq::new(mappings.len(), |i: int| mappings[i].slave())
}

/// Finds the first of `mappings` that holds `address`.
fn locate<T: Address, U: Data, M: Mapping<T, U>>(mappings: &Vec<M>, address: T) -> (found: Option<
    usize,
>)
    ensures
        match found {
            Some(index) => is_first(windows_of::<T, U, M>(mappings@), address, index as int),
            None => forall|i: int|
                0 <= i < mappings@.len() ==> !holds(
                    #[trigger] windows_of::<T, U, M>(mappings@)[i],
                    address,
                ),
        },
{
    let mut index: usize = 0;
    while index < mappings.len()
        invariant
            index <= mappings@.len(),
            forall|i: int|
                0 <= i < index ==> !holds(#[trigger] windows_of::<T, U, M>(mappings@)[i], address),
        decreases mappings@.len() - index,
    {
        let start = mappings[index].first();
        let end = mappings[index].last();
        if start.at_most(address) && address.at_most(end) {
            return Some(index);
        }
        index = index + 1;
    }
    None
}

/// Reads at `address` from the slave of mapping `index`.
fn pass_read<T: Address, U: Data, M: Mapping<T, U>>(
    mappings: &mut Vec<M>,
    index: usize,
    address: T,
) -> (value: U)
    requires
        index < old(mappings)@.len(),
        old(mappings)@[index as int].slave().reads(address),
    ensures
        value == old(mappings)@[index as int].slave().now(address),
        windows_of::<T, U, M>(final(mappings)@) == windows_of::<T, U, M>(old(mappings)@),
        slaves_of::<T, U, M>(final(mappings)@) == slaves_of::<T, U, M>(old(mappings)@).update(
            index as int,
            old(mappings)@[index as int].slave().after_read(address),
        ),
{
    let value = mappings[index].read(address);
    proof {
        assert(slaves_of::<T, U, M>(mappings@) =~= slaves_of::<T, U, M>(old(mappings)@).update(
            index as int,
            old(mappings)@[index as int].slave().after_read(address),
        ));
    }
    value
}

/// Writes `value` at `address` to the slave of mapping `index`.
fn pass_write<T: Address, U: Data, M: Mapping<T, U>>(
    mappings: &mut Vec<M>,
    index: usize,
    address: T,
    value: U,
)
    requires
        index < old(mappings)@.len(),
        old(mappings)@[index as int].slave().writes(address),
    ensures
        windows_of::<T, U, M>(final(mappings)@) == windows_of::<T, U, M>(old(mappings)@),
        slaves_of::<T, U, M>(final(mappings)@) == slaves_of::<T, U, M>(old(mappings)@).update(
            index as int,
            old(mappings)@[index as int].slave().after_write(address, value),
        ),
{
    mappings[index].write(address, value);
    proof {
        assert(slaves_of::<T, U, M>(mappings@) =~= slaves_of::<T, U, M>(old(mappings)@).update(
            index as int,
            old(mappings)@[index as int].slave().after_write(address, value),
        ));
    }
}

/// An address decoder over borrowed slaves, with mirrors and an optional
/// refusal of unmapped accesses. The slaves are of any one type `S`; left
/// out, `S` is any device at all.
pub struct MemoryController<
    'a,
    T: Address,
    U: Data,
    S: AddressBusIO<T, U> + ?Sized = dyn AddressBusIO<T, U> + 'a,
> {
    pub mappings: Vec<AddressMapping<'a, T, U, S>>,
    pub mirrors: Vec<MirrorMapping<T>>,
    /// When set, an access that no mapping holds is fatal rather than
    /// ignored.
    pub panic_on_no_map: bool,
}

impl<'a, T: Address, U: Data, S: AddressBusIO<T, U> + ?Sized> MemoryController<'a, T, U, S> {
    /// The ranges of the mappings, in insertion order.
    pub open spec fn windows(&self) -> Seq<Window<T>> {
        windows_of::<T, U, AddressMapping<'a, T, U, S>>(self.mappings@)
    }

    /// The slaves of the mappings, in insertion order.
    pub open spec fn slaves(&self) -> Seq<BusState<T, U>> {
        slaves_of::<T, U, AddressMapping<'a, T, U, S>>(self.mappings@)
    }

    /// The mirrors, in insertion order.
    pub open spec fn mirrors(&self) -> Seq<MirrorMapping<T>> {
        self.mirrors@
    }

    /// A decoder with no mapping and no mirror that ignores unmapped
    /// accesses.
    pub fn new() -> (controller: MemoryController<'a, T, U, S>)
        ensures
            controller.windows() == Seq::<Window<T>>::empty(),
            controller.slaves() == Seq::<BusState<T, U>>::empty(),
            controller.mirrors() == Seq::<MirrorMapping<T>>::empty(),
            !controller.panic_on_no_map,
    {
        let controller = MemoryController {
            mappings: Vec::new(),
            mirrors: Vec::new(),
            panic_on_no_map: false,
        };
        controller
    }

    /// Appends a mapping of `start..=end` to `connection`. Overlaps are not
    /// looked for.
    pub fn map(&mut self, start: T, end: T, connection: &'a mut S)
        ensures
            final(self).windows() == old(self).windows().push(Window { start, end }),
            final(self).slaves() == old(self).slaves().push(image(old(connection))),
            final(self).mirrors() == old(self).mirrors(),
            final(self).panic_on_no_map == old(self).panic_on_no_map,
    {
        let ghost slave = image(connection);
        self.mappings.push(AddressMapping { start, end, connection, lane: PhantomData });
    }

    /// Appends a mirror that rewrites `start..=end` onto the range of the
    /// same length at `mirror`.
    pub fn mirror(&mut self, start: T, end: T, mirror: T)
        ensures
            final(self).mirrors() == old(self).mirrors().push(MirrorMapping { start, end, mirror }),
            final(self).windows() == old(self).windows(),
            final(self).slaves() == old(self).slaves(),
            final(self).panic_on_no_map == old(self).panic_on_no_map,
    {
        self.mirrors.push(MirrorMapping { start, end, mirror });
    }
}

impl<'a, T: Address, U: Data, S: AddressBusIO<T, U> + ?Sized> AddressBusIO<T, U> for MemoryController<
    'a,
    T,
    U,
    S,
> {
    open spec fn readable(&self, history: Seq<Access<T, U>>, address: T) -> bool {
        decoded_readable(
            self.mirrors(),
            self.windows(),
            self.slaves(),
            self.panic_on_no_map,
            history,
            address,
        )
    }

    open spec fn writable(&self, history: Seq<Access<T, U>>, address: T) -> bool {
        decoded_writable(
            self.mirrors(),
            self.windows(),
            self.slaves(),
            self.panic_on_no_map,
            history,
            address,
        )
    }

    open spec fn value(&self, history: Seq<Access<T, U>>, address: T) -> U {
        decoded_value(self.mirrors(), self.windows(), self.slaves(), history, address)
    }

    fn read(&mut self, address: T) -> (value: U)
        ensures
            final(self).windows() == old(self).windows(),
            final(self).mirrors() == old(self).mirrors(),
            final(self).panic_on_no_map == old(self).panic_on_no_map,
    {
        let cleaned = rewrite(&self.mirrors, address);
        let value = match locate(&self.mappings, cleaned) {
            Some(index) => {
                proof {
                    lemma_first_window(self.windows(), cleaned, index as int);
                }
                let relative = cleaned.offset_from(self.mappings[index].first());
                pass_read(&mut self.mappings, index, relative)
            },
            None => {
                proof {
                    lemma_no_window(self.windows(), cleaned);
                }
                U::zero()
            },
        };
        proof {
            lemma_decoded_after(
                self.mirrors(),
                self.windows(),
                old(self).slaves(),
                self.slaves(),
                self.panic_on_no_map,
                Access::Read { address },
            );
        }
        value
    }

    fn write(&mut self, address: T, value: U)
        ensures
            final(self).windows() == old(self).windows(),
            final(self).mirrors() == old(self).mirrors(),
            final(self).panic_on_no_map == old(self).panic_on_no_map,
    {
        let cleaned = rewrite(&self.mirrors, address);
        match locate(&self.mappings, cleaned) {
            Some(index) => {
                proof {
                    lemma_first_window(self.windows(), cleaned, index as int);
                }
                let relative = cleaned.offset_from(self.mappings[index].first());
                pass_write(&mut self.mappings, index, relative, value);
            },
            None => {
                proof {
                    lemma_no_window(self.windows(), cleaned);
                }
            },
        }
        proof {
            lemma_decoded_after(
                self.mirrors(),
                self.windows(),
                old(self).slaves(),
                self.slaves(),
                self.panic_on_no_map,
                Access::Write { address, value },
            );
        }
    }
}

/// An address decoder that owns its slaves. It has no mirrors and ignores
/// unmapped accesses. The slaves are of any one type `S`; left out, `S` is
/// any device at all.
pub struct MemoryControllerBoxed<
    T: Address,
    U: Data,
    S: AddressBusIO<T, U> + ?Sized = dyn AddressBusIO<T, U>,
> {
    pub mappings: Vec<AddressMappingBoxed<T, U, S>>,
}

impl<T: Address, U: Data, S: AddressBusIO<T, U> + ?Sized> MemoryControllerBoxed<T, U, S> {
    /// The ranges of the mappings, in insertion order.
    pub open spec fn windows(&self) -> Seq<Window<T>> {
        windows_of::<T, U, AddressMappingBoxed<T, U, S>>(self.mappings@)
    }

    /// The slaves of the mappings, in insertion order.
    pub open spec fn slaves(&self) -> Seq<BusState<T, U>> {
        slaves_of::<T, U, AddressMappingBoxed<T, U, S>>(self.mappings@)
    }

    /// The mirrors of this decoder: none.
    pub open spec fn mirrors(&self) -> Seq<MirrorMapping<T>> {
        Seq::empty()
    }

    /// A decoder with no mapping.
    pub fn new() -> (controller: MemoryControllerBoxed<T, U, S>)
        ensures
            controller.windows() == Seq::<Window<T>>::empty(),
            controller.slaves() == Seq::<BusState<T, U>>::empty(),
    {
        let controller = MemoryControllerBoxed { mappings: Vec::new() };
        controller
    }

    /// Appends a mapping of `start..=end` to `connection`. Overlaps are not
    /// looked for.
    pub fn map(&mut self, start: T, end: T, connection: Box<S>)
        ensures
            final(self).windows() == old(self).windows().push(Window { start, end }),
            final(self).slaves() == old(self).slaves().push(image(&*connection)),
    {
        let ghost slave = image(&*connection);
        self.mappings.push(AddressMappingBoxed { start, end, connection, lane: PhantomData });
    }
}

impl<T: Address, U: Data, S: AddressBusIO<T, U> + ?Sized> AddressBusIO<T, U> for MemoryControllerBoxed<
    T,
    U,
    S,
> {
    open spec fn readable(&self, history: Seq<Access<T, U>>, address: T) -> bool {
        decoded_readable(self.mirrors(), self.windows(), self.slaves(), false, history, address)
    }

    open spec fn writable(&self, history: Seq<Access<T, U>>, address: T) -> bool {
        decoded_writable(self.mirrors(), self.windows(), self.slaves(), false, history, address)
    }

    open spec fn value(&self, history: Seq<Access<T, U>>, address: T) -> U {
        decoded_value(self.mirrors(), self.windows(), self.slaves(), history, address)
    }

    fn read(&mut self, address: T) -> (value: U)
        ensures
            final(self).windows() == old(self).windows(),
    {
        proof {
            lemma_no_window(spans(self.mirrors()), address);
        }
        let value = match locate(&self.mappings, address) {
            Some(index) => {
                proof {
                    lemma_first_window(self.windows(), address, index as int);
                }
                let relative = address.offset_from(self.mappings[index].first());
                pass_read(&mut self.mappings, index, relative)
            },
            None => {
                proof {
                    lemma_no_window(self.windows(), address);
                }
                U::zero()
            },
        };
        proof {
            lemma_decoded_after(
                self.mirrors(),
                self.windows(),
                old(self).slaves(),
                self.slaves(),
                false,
                Access::Read { address },
            );
        }
        value
    }

    fn write(&mut self, address: T, value: U)
        ensures
            final(self).windows() == old(self).windows(),
    {
        proof {
            lemma_no_window(spans(self.mirrors()), address);
        }
        match locate(&self.mappings, address) {
            Some(index) => {
                proof {
                    lemma_first_window(self.windows(), address, index as int);
                }
                let relative = address.offset_from(self.mappings[index].first());
                pass_write(&mut self.mappings, index, relative, value);
            },
            None => {
                proof {
                    lemma_no_window(self.windows(), address);
                }
            },
        }
        proof {
            lemma_decoded_after(
                self.mirrors(),
                self.windows(),
                old(self).slaves(),
                self.slaves(),
                false,
                Access::Write { address, value },
            );
        }
    }
}

/// An address decoder over slaves that others may hold too. It reaches each
/// through a handle of type `H`, has no mirrors and ignores unmapped
/// accesses.
pub struct MemoryControllerShared<T: Address, U: Data, H: AddressBusIO<T, U>> {
    pub mappings: Vec<AddressMappingShared<T, U, H>>,
}

impl<T: Address, U: Data, H: AddressBusIO<T, U>> MemoryControllerShared<T, U, H> {
    /// The ranges of the mappings, in insertion order.
    pub open spec fn windows(&self) -> Seq<Window<T>> {
        windows_of::<T, U, AddressMappingShared<T, U, H>>(self.mappings@)
    }

    /// The slaves of the mappings, in insertion order.
    pub open spec fn slaves(&self) -> Seq<BusState<T, U>> {
        slaves_of::<T, U, AddressMappingShared<T, U, H>>(self.mappings@)
    }

    /// The mirrors of this decoder: none.
    pub open spec fn mirrors(&self) -> Seq<MirrorMapping<T>> {
        Seq::empty()
    }

    /// A decoder with no mapping.
    pub fn new() -> (controller: MemoryControllerShared<T, U, H>)
        ensures
            controller.windows() == Seq::<Window<T>>::empty(),
            controller.slaves() == Seq::<BusState<T, U>>::empty(),
    {
        let controller = MemoryControllerShared { mappings: Vec::new() };
        controller
    }

    /// Appends a mapping of `start..=end` to the slave behind `connection`.
    /// Overlaps are not looked for.
    pub fn map(&mut self, start: T, end: T, connection: H)
        ensures
            final(self).windows() == old(self).windows().push(Window { start, end }),
            final(self).slaves() == old(self).slaves().push(image(&connection)),
    {
        let ghost slave = image(&connection);
        self.mappings.push(AddressMappingShared { start, end, connection, lane: PhantomData });
    }
}

impl<T: Address, U: Data, H: AddressBusIO<T, U>> AddressBusIO<T, U> for MemoryControllerShared<
    T,
    U,
    H,
> {
    open spec fn readable(&self, history: Seq<Access<T, U>>, address: T) -> bool {
        decoded_readable(self.mirrors(), self.windows(), self.slaves(), false, history, address)
    }

    open spec fn writable(&self, history: Seq<Access<T, U>>, address: T) -> bool {
        decoded_writable(self.mirrors(), self.windows(), self.slaves(), false, history, address)
    }

    open spec fn value(&self, history: Seq<Access<T, U>>, address: T) -> U {
        decoded_value(self.mirrors(), self.windows(), self.slaves(), history, address)
    }

    fn read(&mut self, address: T) -> (value: U)
        ensures
            final(self).windows() == old(self).windows(),
    {
        proof {
            lemma_no_window(spans(self.mirrors()), address);
        }
        let value = match locate(&self.mappings, address) {
            Some(index) => {
                proof {
                    lemma_first_window(self.windows(), address, index as int);
                }
                let relative = address.offset_from(self.mappings[index].first());
                pass_read(&mut self.mappings, index, relative)
            },
            None => {
                proof {
                    lemma_no_window(self.windows(), address);
                }
                U::zero()
            },
        };
        proof {
            lemma_decoded_after(
                self.mirrors(),
                self.windows(),
                old(self).slaves(),
                self.slaves(),
                false,
                Access::Read { address },
            );
        }
        value
    }

    fn write(&mut self, address: T, value: U)
        ensures
            final(self).windows() == old(self).windows(),
    {
        proof {
            lemma_no_window(spans(self.mirrors()), address);
        }
        match locate(&self.mappings, address) {
            Some(index) => {
                proof {
                    lemma_first_window(self.windows(), address, index as int);
                }
                let relative = address.offset_from(self.mappings[index].first());
                pass_write(&mut self.mappings, index, relative, value);
            },
            None => {
                proof {
                    lemma_no_window(self.windows(), address);
                }
            },
        }
        proof {
            lemma_decoded_after(
                self.mirrors(),
                self.windows(),
                old(self).slaves(),
                self.slaves(),
                false,
                Access::Write { address, value },
            );
        }
    }
}

/// An address decoder over slaves that other threads may hold too. It
/// reaches each through a handle of type `H` that can be sent to and shared
/// with other threads, has no mirrors and ignores unmapped accesses.
pub struct MemoryControllerThreadSafe<T: Address, U: Data, H: AddressBusIO<T, U> + Send + Sync> {
    pub mappings: Vec<AddressMappingShared<T, U, H>>,
}

impl<T: Address, U: Data, H: AddressBusIO<T, U> + Send + Sync> MemoryControllerThreadSafe<
    T,
    U,
    H,
> {
    /// The ranges of the mappings, in insertion order.
    pub open spec fn windows(&self) -> Seq<Window<T>> {
        windows_of::<T, U, AddressMappingShared<T, U, H>>(self.mappings@)
    }

    /// The slaves of the mappings, in insertion order.
    pub open spec fn slaves(&self) -> Seq<BusState<T, U>> {
        slaves_of::<T, U, AddressMappingShared<T, U, H>>(self.mappings@)
    }

    /// The mirrors of this decoder: none.
    pub open spec fn mirrors(&self) -> Seq<MirrorMapping<T>> {
        Seq::empty()
    }

    /// A decoder with no mapping.
    pub fn new() -> (controller: MemoryControllerThreadSafe<T, U, H>)
        ensures
            controller.windows() == Seq::<Window<T>>::empty(),
            controller.slaves() == Seq::<BusState<T, U>>::empty(),
    {
        let controller = MemoryControllerThreadSafe { mappings: Vec::new() };
        controller
    }

    /// Appends a mapping of `start..=end` to the slave behind `connection`.
    /// Overlaps are not looked for.
    pub fn map(&mut self, start: T, end: T, connection: H)
        ensures
            final(self).windows() == old(self).windows().push(Window { start, end }),
            final(self).slaves() == old(self).slaves().push(image(&connection)),
    {
        let ghost slave = image(&connection);
        self.mappings.push(AddressMappingShared { start, end, connection, lane: PhantomData });
    }
}

impl<
    T: Address,
    U: Data,
    H: AddressBusIO<T, U> + Send + Sync,
> AddressBusIO<T, U> for MemoryControllerThreadSafe<T, U, H> {
    open spec fn readable(&self, history: Seq<Access<T, U>>, address: T) -> bool {
        decoded_readable(self.mirrors(), self.windows(), self.slaves(), false, history, address)
    }

    open spec fn writable(&self, history: Seq<Access<T, U>>, address: T) -> bool {
        decoded_writable(self.mirrors(), self.windows(), self.slaves(), false, history, address)
    }

    open spec fn value(&self, history: Seq<Access<T, U>>, address: T) -> U {
        decoded_value(self.mirrors(), self.windows(), self.slaves(), history, address)
    }

    fn read(&mut self, address: T) -> (value: U)
        ensures
            final(self).windows() == old(self).windows(),
    {
        proof {
            lemma_no_window(spans(self.mirrors()), address);
        }
        let value = match locate(&self.mappings, address) {
            Some(index) => {
                proof {
                    lemma_first_window(self.windows(), address, index as int);
                }
                let relative = address.offset_from(self.mappings[index].first());
                pass_read(&mut self.mappings, index, relative)
            },
            None => {
                proof {
                    lemma_no_window(self.windows(), address);
                }
                U::zero()
            },
        };
        proof {
            lemma_decoded_after(
                self.mirrors(),
                self.windows(),
                old(self).slaves(),
                self.slaves(),
                false,
                Access::Read { address },
            );
        }
        value
    }

    fn write(&mut self, address: T, value: U)
        ensures
            final(self).windows() == old(self).windows(),
    {
        proof {
            lemma_no_window(spans(self.mirrors()), address);
        }
        match locate(&self.mappings, address) {
            Some(index) => {
                proof {
                    lemma_first_window(self.windows(), address, index as int);
                }
                let relative = address.offset_from(self.mappings[index].first());
                pass_write(&mut self.mappings, index, relative, value);
            },
            None => {
                proof {
                    lemma_no_window(self.windows(), address);
                }
            },
        }
        proof {
            lemma_decoded_after(
                self.mirrors(),
                self.windows(),
                old(self).slaves(),
                self.slaves(),
                false,
                Access::Write { address, value },
            );
        }
    }
}

/// The first window of a list is the first window of the list with more
/// windows behind it.
pub proof fn lemma_first_in_front<T: Address>(
    front: Seq<Window<T>>,
    back: Seq<Window<T>>,
    address: T,
    index: int,
)
    requires
        is_first(front, address, index),
    ensures
        first_window(front + back, address) == Some(index),
{
    assert((front + back)[index] == front[index]);
    assert forall|earlier: int| 0 <= earlier < index implies !holds(
        #[trigger] (front + back)[earlier],
        address,
    ) by {
        assert((front + back)[earlier] == front[earlier]);
    }
    lemma_first_window(front + back, address, index);
}

/// Where no window of a list holds the address, the first window of a second
/// list is the first window of both, one behind the other.
pub proof fn lemma_first_in_back<T: Address>(
    front: Seq<Window<T>>,
    back: Seq<Window<T>>,
    address: T,
    index: int,
)
    requires
        forall|i: int| 0 <= i < front.len() ==> !holds(#[trigger] front[i], address),
        is_first(back, address, index),
    ensures
        first_window(front + back, address) == Some(front.len() + index),
{
    assert((front + back)[front.len() + index] == back[index]);
    assert forall|earlier: int| 0 <= earlier < front.len() + index implies !holds(
        #[trigger] (front + back)[earlier],
        address,
    ) by {
        if earlier < front.len() {
            assert((front + back)[earlier] == front[earlier]);
        } else {
            assert((front + back)[earlier] == back[earlier - front.len()]);
        }
    }
    lemma_first_window(front + back, address, front.len() + index);
}

/// Where no window of two lists holds the address, none of both does.
pub proof fn lemma_first_in_neither<T: Address>(
    front: Seq<Window<T>>,
    back: Seq<Window<T>>,
    address: T,
)
    requires
        forall|i: int| 0 <= i < front.len() ==> !holds(#[trigger] front[i], address),
        forall|i: int| 0 <= i < back.len() ==> !holds(#[trigger] back[i], address),
    ensures
        first_window(front + back, address) is None,
{
    assert forall|i: int| 0 <= i < (front + back).len() implies !holds(
        #[trigger] (front + back)[i],
        address,
    ) by {
        if i < front.len() {
            assert((front + back)[i] == front[i]);
        } else {
            assert((front + back)[i] == back[i - front.len()]);
        }
    }
    lemma_no_window(front + back, address);
}

/// An address decoder over slaves of both kinds: borrowed ones, and ones
/// that others may hold too, reached through handles of type `H`. The
/// borrowed slaves come first: a shared slave gets an access only where no
/// mapping of a borrowed slave holds the address. It has no mirrors and
/// ignores unmapped accesses.
pub struct MemoryControllerSmart<
    'a,
    T: Address,
    U: Data,
    H: AddressBusIO<T, U>,
    S: AddressBusIO<T, U> + ?Sized = dyn AddressBusIO<T, U> + 'a,
> {
    pub mappings: Vec<AddressMapping<'a, T, U, S>>,
    pub shared_mappings: Vec<AddressMappingShared<T, U, H>>,
}

impl<
    'a,
    T: Address,
    U: Data,
    H: AddressBusIO<T, U>,
    S: AddressBusIO<T, U> + ?Sized,
> MemoryControllerSmart<'a, T, U, H, S> {
    /// The ranges of the mappings in the order in which they are searched:
    /// those of the borrowed slaves, then those of the shared ones, each in
    /// insertion order.
    pub open spec fn windows(&self) -> Seq<Window<T>> {
        windows_of::<T, U, AddressMapping<'a, T, U, S>>(self.mappings@) + windows_of::<
            T,
            U,
            AddressMappingShared<T, U, H>,
        >(self.shared_mappings@)
    }

    /// The slaves of the mappings, in the same order.
    pub open spec fn slaves(&self) -> Seq<BusState<T, U>> {
        slaves_of::<T, U, AddressMapping<'a, T, U, S>>(self.mappings@) + slaves_of::<
            T,
            U,
            AddressMappingShared<T, U, H>,
        >(self.shared_mappings@)
    }

    /// How many of the mappings are of borrowed slaves.
    pub open spec fn borrowed(&self) -> int {
        self.mappings@.len() as int
    }

    /// The mirrors of this decoder: none.
    pub open spec fn mirrors(&self) -> Seq<MirrorMapping<T>> {
        Seq::empty()
    }

    /// A decoder with no mapping.
    pub fn new() -> (controller: MemoryControllerSmart<'a, T, U, H, S>)
        ensures
            controller.windows() == Seq::<Window<T>>::empty(),
            controller.slaves() == Seq::<BusState<T, U>>::empty(),
            controller.borrowed() == 0,
    {
        let controller = MemoryControllerSmart {
            mappings: Vec::new(),
            shared_mappings: Vec::new(),
        };
        controller
    }

    /// Adds a mapping of `start..=end` to the borrowed `connection`, behind
    /// the mappings of the other borrowed slaves and before those of all
    /// shared ones. Overlaps are not looked for.
    pub fn map(&mut self, start: T, end: T, connection: &'a mut S)
        ensures
            final(self).windows() == old(self).windows().insert(
                old(self).borrowed(),
                Window { start, end },
            ),
            final(self).slaves() == old(self).slaves().insert(
                old(self).borrowed(),
                image(old(connection)),
            ),
            final(self).borrowed() == old(self).borrowed() + 1,
    {
        let ghost slave = image(connection);
        self.mappings.push(AddressMapping { start, end, connection, lane: PhantomData });
        assert(self.windows() =~= old(self).windows().insert(
            old(self).borrowed(),
            Window { start, end },
        ));
    }

    /// Appends a mapping of `start..=end` to the slave behind `connection`.
    /// Overlaps are not looked for.
    pub fn map_shared(&mut self, start: T, end: T, connection: H)
        ensures
            final(self).windows() == old(self).windows().push(Window { start, end }),
            final(self).slaves() == old(self).slaves().push(image(&connection)),
            final(self).borrowed() == old(self).borrowed(),
    {
        let ghost slave = image(&connection);
        self.shared_mappings.push(
            AddressMappingShared { start, end, connection, lane: PhantomData },
        );
    }
}

impl<
    'a,
    T: Address,
    U: Data,
    H: AddressBusIO<T, U>,
    S: AddressBusIO<T, U> + ?Sized,
> AddressBusIO<T, U> for MemoryControllerSmart<'a, T, U, H, S> {
    open spec fn readable(&self, history: Seq<Access<T, U>>, address: T) -> bool {
        decoded_readable(self.mirrors(), self.windows(), self.slaves(), false, history, address)
    }

    open spec fn writable(&self, history: Seq<Access<T, U>>, address: T) -> bool {
        decoded_writable(self.mirrors(), self.windows(), self.slaves(), false, history, address)
    }

    open spec fn value(&self, history: Seq<Access<T, U>>, address: T) -> U {
        decoded_value(self.mirrors(), self.windows(), self.slaves(), history, address)
    }

    fn read(&mut self, address: T) -> (value: U)
        ensures
            final(self).windows() == old(self).windows(),
            final(self).borrowed() == old(self).borrowed(),
    {
        let ghost front = windows_of::<T, U, AddressMapping<'a, T, U, S>>(self.mappings@);
        let ghost back = windows_of::<T, U, AddressMappingShared<T, U, H>>(
            self.shared_mappings@,
        );
        proof {
            lemma_no_window(spans(self.mirrors()), address);
        }
        let value = match locate(&self.mappings, address) {
            Some(index) => {
                proof {
                    lemma_first_in_front(front, back, address, index as int);
                }
                let relative = address.offset_from(self.mappings[index].first());
                pass_read(&mut self.mappings, index, relative)
            },
            None => match locate(&self.shared_mappings, address) {
                Some(index) => {
                    proof {
                        lemma_first_in_back(front, back, address, index as int);
                    }
                    let relative = address.offset_from(self.shared_mappings[index].first());
                    pass_read(&mut self.shared_mappings, index, relative)
                },
                None => {
                    proof {
                        lemma_first_in_neither(front, back, address);
                    }
                    U::zero()
                },
            },
        };
        proof {
            assert(self.slaves() =~= match decode(
                self.mirrors(),
                self.windows(),
                address,
            ) {
                Some(route) => old(self).slaves().update(
                    route.slave,
                    old(self).slaves()[route.slave].after(
                        readdress(Access::Read { address }, route.address),
                    ),
                ),
                None => old(self).slaves(),
            });
            lemma_decoded_after(
                self.mirrors(),
                self.windows(),
                old(self).slaves(),
                self.slaves(),
                false,
                Access::Read { address },
            );
        }
        value
    }

    fn write(&mut self, address: T, value: U)
        ensures
            final(self).windows() == old(self).windows(),
            final(self).borrowed() == old(self).borrowed(),
    {
        let ghost front = windows_of::<T, U, AddressMapping<'a, T, U, S>>(self.mappings@);
        let ghost back = windows_of::<T, U, AddressMappingShared<T, U, H>>(
            self.shared_mappings@,
        );
        proof {
            lemma_no_window(spans(self.mirrors()), address);
        }
        match locate(&self.mappings, address) {
            Some(index) => {
                proof {
                    lemma_first_in_front(front, back, address, index as int);
                }
                let relative = address.offset_from(self.mappings[index].first());
                pass_write(&mut self.mappings, index, relative, value);
            },
            None => match locate(&self.shared_mappings, address) {
                Some(index) => {
                    proof {
                        lemma_first_in_back(front, back, address, index as int);
                    }
                    let relative = address.offset_from(self.shared_mappings[index].first());
                    pass_write(&mut self.shared_mappings, index, relative, value);
                },
                None => {
                    proof {
                        lemma_first_in_neither(front, back, address);
                    }
                },
            },
        }
        proof {
            assert(self.slaves() =~= match decode(
                self.mirrors(),
                self.windows(),
                address,
            ) {
                Some(route) => old(self).slaves().update(
                    route.slave,
                    old(self).slaves()[route.slave].after(
                        readdress(Access::Write { address, value }, route.address),
                    ),
                ),
                None => old(self).slaves(),
            });
            lemma_decoded_after(
                self.mirrors(),
                self.windows(),
                old(self).slaves(),
                self.slaves(),
                false,
                Access::Write { address, value },
            );
        }
    }
}

} // verus!
