//! The integer widths a bus lane can have.
use crate::Address;
use vstd::prelude::*;

verus! {

/// The `u8` that `num_traits::Num::from_str_radix` reads from `text`, if it
/// reads one.
pub uninterp spec fn parsed_u8(text: Seq<char>, radix: u32) -> Option<u8>;

/// The `u16` that `num_traits::Num::from_str_radix` reads from `text`, if it
/// reads one.
pub uninterp spec fn parsed_u16(text: Seq<char>, radix: u32) -> Option<u16>;

/// The `u32` that `num_traits::Num::from_str_radix` reads from `text`, if it
/// reads one.
pub uninterp spec fn parsed_u32(text: Seq<char>, radix: u32) -> Option<u32>;

/// The `u64` that `num_traits::Num::from_str_radix` reads from `text`, if it
/// reads one.
pub uninterp spec fn parsed_u64(text: Seq<char>, radix: u32) -> Option<u64>;

/// Calls `<u8 as num_traits::Num>::from_str_radix`. The result depends on
/// `text` and `radix` alone; the bounds on `radix` are those outside which
/// the parser panics.
#[verifier::external_body]
fn radix_u8(text: &str, radix: u32) -> (r: Result<u8, core::num::ParseIntError>)
    requires
        2 <= radix <= 36,
    ensures
        r matches Ok(v) ==> parsed_u8(text@, radix) == Some(v),
        r is Err ==> parsed_u8(text@, radix) is None,
{
    <u8 as num_traits::Num>::from_str_radix(text, radix)
}

/// Calls `<u16 as num_traits::Num>::from_str_radix`. The result depends on
/// `text` and `radix` alone; the bounds on `radix` are those outside which
/// the parser panics.
#[verifier::external_body]
fn radix_u16(text: &str, radix: u32) -> (r: Result<u16, core::num::ParseIntError>)
    requires
        2 <= radix <= 36,
    ensures
        r matches Ok(v) ==> parsed_u16(text@, radix) == Some(v),
        r is Err ==> parsed_u16(text@, radix) is None,
{
    <u16 as num_traits::Num>::from_str_radix(text, radix)
}

/// Calls `<u32 as num_traits::Num>::from_str_radix`. The result depends on
/// `text` and `radix` alone; the bounds on `radix` are those outside which
/// the parser panics.
#[verifier::external_body]
fn radix_u32(text: &str, radix: u32) -> (r: Result<u32, core::num::ParseIntError>)
    requires
        2 <= radix <= 36,
    ensures
        r matches Ok(v) ==> parsed_u32(text@, radix) == Some(v),
        r is Err ==> parsed_u32(text@, radix) is None,
{
    <u32 as num_traits::Num>::from_str_radix(text, radix)
}

/// Calls `<u64 as num_traits::Num>::from_str_radix`. The result depends on
/// `text` and `radix` alone; the bounds on `radix` are those outside which
/// the parser panics.
#[verifier::external_body]
fn radix_u64(text: &str, radix: u32) -> (r: Result<u64, core::num::ParseIntError>)
    requires
        2 <= radix <= 36,
    ensures
        r matches Ok(v) ==> parsed_u64(text@, radix) == Some(v),
        r is Err ==> parsed_u64(text@, radix) is None,
{
    <u64 as num_traits::Num>::from_str_radix(text, radix)
}

impl Address for u8 {
    open spec fn number(self) -> nat {
        self as nat
    }

    open spec fn limit() -> nat {
        0x100
    }

    open spec fn of(number: nat) -> u8 {
        (number % 0x100) as u8
    }

    open spec fn parsed(text: Seq<char>, radix: u32) -> Option<u8> {
        parsed_u8(text, radix)
    }

    proof fn bounded(self) {
    }

    proof fn distinct(self, other: u8) {
    }

    proof fn of_number(number: nat) {
    }

    fn draw() -> u8 {
        crate::random::draw_u8()
    }

    fn zero() -> u8 {
        0
    }

    fn one() -> u8 {
        1
    }

    fn at_most(self, other: u8) -> bool {
        self <= other
    }

    fn offset_from(self, base: u8) -> u8 {
        self - base
    }

    fn wrapping_offset(self, offset: u8) -> u8 {
        self.wrapping_add(offset)
    }

    fn widen(self) -> u64 {
        self as u64
    }

    fn narrow(wide: u64) -> u8 {
        let low: u64 = wide % 0x100;
        low as u8
    }

    fn from_str_radix(text: &str, radix: u32) -> Result<u8, core::num::ParseIntError> {
        radix_u8(text, radix)
    }
}

impl Address for u16 {
    open spec fn number(self) -> nat {
        self as nat
    }

    open spec fn limit() -> nat {
        0x1_0000
    }

    open spec fn of(number: nat) -> u16 {
        (number % 0x1_0000) as u16
    }

    open spec fn parsed(text: Seq<char>, radix: u32) -> Option<u16> {
        parsed_u16(text, radix)
    }

    proof fn bounded(self) {
    }

    proof fn distinct(self, other: u16) {
    }

    proof fn of_number(number: nat) {
    }

    fn draw() -> u16 {
        crate::random::draw_u16()
    }

    fn zero() -> u16 {
        0
    }

    fn one() -> u16 {
        1
    }

    fn at_most(self, other: u16) -> bool {
        self <= other
    }

    fn offset_from(self, base: u16) -> u16 {
        self - base
    }

    fn wrapping_offset(self, offset: u16) -> u16 {
        self.wrapping_add(offset)
    }

    fn widen(self) -> u64 {
        self as u64
    }

    fn narrow(wide: u64) -> u16 {
        let low: u64 = wide % 0x1_0000;
        low as u16
    }

    fn from_str_radix(text: &str, radix: u32) -> Result<u16, core::num::ParseIntError> {
        radix_u16(text, radix)
    }
}

impl Address for u32 {
    open spec fn number(self) -> nat {
        self as nat
    }

    open spec fn limit() -> nat {
        0x1_0000_0000
    }

    open spec fn of(number: nat) -> u32 {
        (number % 0x1_0000_0000) as u32
    }

    open spec fn parsed(text: Seq<char>, radix: u32) -> Option<u32> {
        parsed_u32(text, radix)
    }

    proof fn bounded(self) {
    }

    proof fn distinct(self, other: u32) {
    }

    proof fn of_number(number: nat) {
    }

    fn draw() -> u32 {
        crate::random::draw_u32()
    }

    fn zero() -> u32 {
        0
    }

    fn one() -> u32 {
        1
    }

    fn at_most(self, other: u32) -> bool {
        self <= other
    }

    fn offset_from(self, base: u32) -> u32 {
        self - base
    }

    fn wrapping_offset(self, offset: u32) -> u32 {
        self.wrapping_add(offset)
    }

    fn widen(self) -> u64 {
        self as u64
    }

    fn narrow(wide: u64) -> u32 {
        let low: u64 = wide % 0x1_0000_0000;
        low as u32
    }

    fn from_str_radix(text: &str, radix: u32) -> Result<u32, core::num::ParseIntError> {
        radix_u32(text, radix)
    }
}

impl Address for u64 {
    open spec fn number(self) -> nat {
        self as nat
    }

    open spec fn limit() -> nat {
        0x1_0000_0000_0000_0000
    }

    open spec fn of(number: nat) -> u64 {
        (number % 0x1_0000_0000_0000_0000) as u64
    }

    open spec fn parsed(text: Seq<char>, radix: u32) -> Option<u64> {
        parsed_u64(text, radix)
    }

    proof fn bounded(self) {
    }

    proof fn distinct(self, other: u64) {
    }

    proof fn of_number(number: nat) {
    }

    fn draw() -> u64 {
        crate::random::draw_u64()
    }

    fn zero() -> u64 {
        0
    }

    fn one() -> u64 {
        1
    }

    fn at_most(self, other: u64) -> bool {
        self <= other
    }

    fn offset_from(self, base: u64) -> u64 {
        self - base
    }

    fn wrapping_offset(self, offset: u64) -> u64 {
        self.wrapping_add(offset)
    }

    fn widen(self) -> u64 {
        self
    }

    fn narrow(wide: u64) -> u64 {
        wide
    }

    fn from_str_radix(text: &str, radix: u32) -> Result<u64, core::num::ParseIntError> {
        radix_u64(text, radix)
    }
}

} // verus!
