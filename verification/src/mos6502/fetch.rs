//! The addressing modes: how each finds the operand of an instruction.
use crate::hex::{hex2, hex4, push_hex2, push_hex4};
use crate::mos6502::machine::{crossing, signed, word, wrap16, wrap8};
use crate::mos6502::{Mode, MOS6502};
use crate::AddressBusIO;
use vstd::prelude::*;

verus! {

/// `base` plus `index`, wrapping at sixteen bits.
pub fn indexed(base: u16, index: u8) -> (address: u16)
    ensures
        address == wrap16(base + index),
{
    base.wrapping_add(index as u16)
}

/// `base` plus `index`, wrapping inside page zero.
pub fn indexed_zeropage(base: u8, index: u8) -> (address: u8)
    ensures
        address == wrap8(base + index),
{
    base.wrapping_add(index)
}

/// `pc` moved by `offset` read as a signed byte, wrapping at sixteen bits.
pub fn displaced(pc: u16, offset: u8) -> (target: u16)
    ensures
        target == wrap16(pc + signed(offset)),
{
    if offset >= 0x80 {
        pc.wrapping_sub(0x100 - offset as u16)
    } else {
        pc.wrapping_add(offset as u16)
    }
}

/// The cycle that indexing costs where it leaves the page of `base`.
pub fn boundary(base: u16, address: u16) -> (cycles: u64)
    ensures
        cycles == crossing(base, address),
{
    if base / 0x100 != address / 0x100 {
        1
    } else {
        0
    }
}

/// The word with low byte `low` and high byte `high`.
pub fn join(low: u8, high: u8) -> (value: u16)
    ensures
        value == word(low, high),
{
    (high as u16) * 0x100 + (low as u16)
}

impl<T: AddressBusIO<u16, u8>> MOS6502<T> {
    /// Takes `address` as the effective address and loads the operand from
    /// it.
    fn operand(&mut self, address: u16)
        requires
            !old(self)@.operand_at(address).fault,
        ensures
            final(self)@ == old(self)@.operand_at(address),
    {
        self.addr = address;
        self.value = self.read8(address);
    }

    /// Leaves the name of the instruction as the trace line.
    fn note_name(&mut self)
        ensures
            final(self)@ == old(self)@.noted(old(self)@.opcode.name@),
    {
        if self.debug {
            self.debug_line = String::from_str(self.get_opcode_name());
        }
    }

    /// Leaves the name and one byte as the trace line.
    fn note_byte(&mut self, lead: &str, value: u8)
        ensures
            final(self)@ == old(self)@.noted(old(self)@.opcode.name@ + lead@ + hex2(value)),
    {
        if self.debug {
            let mut line = String::from_str(self.get_opcode_name());
            line.append(lead);
            push_hex2(&mut line, value);
            self.debug_line = line;
        }
    }

    /// Leaves the name and one word as the trace line.
    fn note_word(&mut self, lead: &str, value: u16)
        ensures
            final(self)@ == old(self)@.noted(old(self)@.opcode.name@ + lead@ + hex4(value)),
    {
        if self.debug {
            let mut line = String::from_str(self.get_opcode_name());
            line.append(lead);
            push_hex4(&mut line, value);
            self.debug_line = line;
        }
    }

    /// Leaves the name and two bytes as the trace line.
    fn note_byte_byte(&mut self, lead: &str, first: u8, middle: &str, second: u8)
        ensures
            final(self)@ == old(self)@.noted(
                old(self)@.opcode.name@ + lead@ + hex2(first) + middle@ + hex2(second) + ")"@,
            ),
    {
        if self.debug {
            let mut line = String::from_str(self.get_opcode_name());
            line.append(lead);
            push_hex2(&mut line, first);
            line.append(middle);
            push_hex2(&mut line, second);
            line.append(")");
            self.debug_line = line;
        }
    }

    /// Leaves the name, a byte and a word as the trace line.
    fn note_byte_word(&mut self, lead: &str, first: u8, middle: &str, second: u16)
        ensures
            final(self)@ == old(self)@.noted(
                old(self)@.opcode.name@ + lead@ + hex2(first) + middle@ + hex4(second) + ")"@,
            ),
    {
        if self.debug {
            let mut line = String::from_str(self.get_opcode_name());
            line.append(lead);
            push_hex2(&mut line, first);
            line.append(middle);
            push_hex4(&mut line, second);
            line.append(")");
            self.debug_line = line;
        }
    }

    /// Leaves the name and two words as the trace line.
    fn note_word_word(&mut self, lead: &str, first: u16, middle: &str, second: u16)
        ensures
            final(self)@ == old(self)@.noted(
                old(self)@.opcode.name@ + lead@ + hex4(first) + middle@ + hex4(second) + ")"@,
            ),
    {
        if self.debug {
            let mut line = String::from_str(self.get_opcode_name());
            line.append(lead);
            push_hex4(&mut line, first);
            line.append(middle);
            push_hex4(&mut line, second);
            line.append(")");
            self.debug_line = line;
        }
    }

    /// No operand.
    pub fn implied(&mut self)
        requires
            !old(self)@.implied().fault,
        ensures
            final(self)@ == old(self)@.implied(),
    {
        self.tick(2);
        self.note_name();
    }

    /// The operand is the accumulator.
    pub fn accumulator(&mut self)
        requires
            !old(self)@.accumulator().fault,
        ensures
            final(self)@ == old(self)@.accumulator(),
    {
        self.tick(2);
        self.note_name();
    }

    /// The operand is the byte behind the opcode.
    pub fn immediate(&mut self)
        requires
            !old(self)@.immediate().fault,
        ensures
            final(self)@ == old(self)@.immediate(),
    {
        self.value = self.read8_from_pc();
        self.tick(2);
        let value = self.value;
        self.note_byte(" #$", value);
    }

    /// The byte behind the opcode is a signed offset from the address of the
    /// next instruction.
    pub fn relative(&mut self)
        requires
            !old(self)@.relative().fault,
        ensures
            final(self)@ == old(self)@.relative(),
    {
        let offset = self.read8_from_pc();
        let target = displaced(self.pc, offset);
        self.addr = target;
        self.tick(2);
        self.note_word(" $", target);
    }

    /// The byte behind the opcode is an address in page zero.
    pub fn zeropage(&mut self)
        requires
            !old(self)@.zeropage().fault,
        ensures
            final(self)@ == old(self)@.zeropage(),
    {
        let offset = self.read8_from_pc();
        self.operand(offset as u16);
        self.tick(3);
        self.note_byte(" $", offset);
    }

    /// The byte behind the opcode plus X, wrapping inside page zero.
    pub fn zeropage_x(&mut self)
        requires
            !old(self)@.zeropage_x().fault,
        ensures
            final(self)@ == old(self)@.zeropage_x(),
    {
        let offset = self.read8_from_pc();
        let address = indexed_zeropage(offset, self.x);
        self.operand(address as u16);
        self.tick(3);
        self.note_byte_byte(" $", offset, ",X (zeropage addr: $", address);
    }

    /// The byte behind the opcode plus Y, wrapping inside page zero.
    pub fn zeropage_y(&mut self)
        requires
            !old(self)@.zeropage_y().fault,
        ensures
            final(self)@ == old(self)@.zeropage_y(),
    {
        let offset = self.read8_from_pc();
        let address = indexed_zeropage(offset, self.y);
        self.operand(address as u16);
        self.tick(3);
        self.note_byte_byte(" $", offset, ",Y (zeropage addr: $", address);
    }

    /// The two bytes behind the opcode are the address.
    pub fn absolute(&mut self)
        requires
            !old(self)@.absolute().fault,
        ensures
            final(self)@ == old(self)@.absolute(),
    {
        let address = self.read16_from_pc();
        self.operand(address);
        self.tick(4);
        self.note_word(" $", address);
    }

    /// The two bytes behind the opcode plus X; one more cycle where that
    /// leaves the page.
    pub fn absolute_x(&mut self)
        requires
            !old(self)@.absolute_x().fault,
        ensures
            final(self)@ == old(self)@.absolute_x(),
    {
        let base = self.read16_from_pc();
        let address = indexed(base, self.x);
        let boundary = boundary(base, address);
        self.operand(address);
        self.tick(4 + boundary);
        self.note_word_word(" $", base, ",X (absolute addr: $", address);
    }

    /// The two bytes behind the opcode plus Y; one more cycle where that
    /// leaves the page.
    pub fn absolute_y(&mut self)
        requires
            !old(self)@.absolute_y().fault,
        ensures
            final(self)@ == old(self)@.absolute_y(),
    {
        let base = self.read16_from_pc();
        let address = indexed(base, self.y);
        let boundary = boundary(base, address);
        self.operand(address);
        self.tick(4 + boundary);
        self.note_word_word(" $", base, ",Y (absolute addr: $", address);
    }

    /// The two bytes behind the opcode point at the word that is the
    /// address.
    pub fn indirect(&mut self)
        requires
            !old(self)@.indirect().fault,
        ensures
            final(self)@ == old(self)@.indirect(),
    {
        let pointer = self.read16_from_pc();
        let address = self.read16(pointer);
        self.operand(address);
        self.tick(5);
        self.note_word_word(" ($", pointer, ") (indirect addr: $", address);
    }

    /// The byte behind the opcode plus X, wrapping inside page zero, points
    /// at the word that is the address; the word wraps inside page zero
    /// too.
    pub fn indirect_x(&mut self)
        requires
            !old(self)@.indirect_x().fault,
        ensures
            final(self)@ == old(self)@.indirect_x(),
    {
        let offset = self.read8_from_pc();
        let pointer = indexed_zeropage(offset, self.x);
        let low = self.read8(pointer as u16);
        let high = self.read8(indexed_zeropage(pointer, 1) as u16);
        let address = join(low, high);
        self.operand(address);
        self.tick(6);
        self.note_byte_word(" ($", offset, ",X) (indirect addr: $", address);
    }

    /// The byte behind the opcode points at a word in page zero; that word
    /// plus Y is the address. One more cycle where adding Y leaves the
    /// page.
    pub fn indirect_y(&mut self)
        requires
            !old(self)@.indirect_y().fault,
        ensures
            final(self)@ == old(self)@.indirect_y(),
    {
        let offset = self.read8_from_pc();
        let base = self.read16(offset as u16);
        let address = indexed(base, self.y);
        let boundary = boundary(base, address);
        self.operand(address);
        self.tick(5 + boundary);
        self.note_byte_word(" ($", offset, "),Y (indirect addr: $", address);
    }

    /// Fetches the operand as `mode` says.
    pub fn fetch(&mut self, mode: Mode)
        requires
            !old(self)@.fetched(mode).fault,
        ensures
            final(self)@ == old(self)@.fetched(mode),
    {
        match mode {
            Mode::Implied => self.implied(),
            Mode::Accumulator => self.accumulator(),
            Mode::Immediate => self.immediate(),
            Mode::Relative => self.relative(),
            Mode::Zeropage => self.zeropage(),
            Mode::ZeropageX => self.zeropage_x(),
            Mode::ZeropageY => self.zeropage_y(),
            Mode::Absolute => self.absolute(),
            Mode::AbsoluteX => self.absolute_x(),
            Mode::AbsoluteY => self.absolute_y(),
            Mode::Indirect => self.indirect(),
            Mode::IndirectX => self.indirect_x(),
            Mode::IndirectY => self.indirect_y(),
            Mode::Invalid => {},
        }
    }
}

} // verus!
