//! A device that answers with a random number.
use crate::Data;
use vstd::prelude::*;

verus! {

/// Draws a byte from `rand::random`. Nothing is known of the byte: every
/// call may give another one.
#[verifier::external_body]
pub(crate) fn draw_u8() -> (sample: u8) {
    rand::random::<u8>()
}

/// Draws a `u16` from `rand::random`. Nothing is known of the number: every
/// call may give another one.
#[verifier::external_body]
pub(crate) fn draw_u16() -> (sample: u16) {
    rand::random::<u16>()
}

/// Draws a `u32` from `rand::random`. Nothing is known of the number: every
/// call may give another one.
#[verifier::external_body]
pub(crate) fn draw_u32() -> (sample: u32) {
    rand::random::<u32>()
}

/// Draws a `u64` from `rand::random`. Nothing is known of the number: every
/// call may give another one.
#[verifier::external_body]
pub(crate) fn draw_u64() -> (sample: u64) {
    rand::random::<u64>()
}

/// A register that holds a number drawn at its last write. A read returns
/// the number that is held; a write, whatever it writes, draws a new one.
pub struct Random<T: Data> {
    value: T,
}

impl<T: Data> View for Random<T> {
    type V = T;

    closed spec fn view(&self) -> T {
        self.value
    }
}

impl<T: Data> Random<T> {
    /// A register that holds zero.
    pub fn new() -> (random: Random<T>)
        ensures
            random@ == T::of(0),
    {
        Random { value: T::zero() }
    }

    /// The number that is held.
    pub fn value(&self) -> (value: T)
        ensures
            value == self@,
    {
        self.value
    }

    /// Takes `sample` as the number that is held.
    pub fn latch(&mut self, sample: T)
        ensures
            final(self)@ == sample,
    {
        self.value = sample;
    }
}

impl<T: Data> Random<T> {
    /// Draws a new number, holds it and returns it. Which number it is is
    /// not known before.
    pub fn roll(&mut self) -> (sample: T)
        ensures
            final(self)@ == sample,
    {
        let sample = T::draw();
        self.latch(sample);
        sample
    }
}

} // verus!
