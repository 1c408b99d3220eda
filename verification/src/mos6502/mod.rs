//! A cycle-counting MOS 6502 core.
use crate::hex::{push_hex2, push_hex4};
use crate::hex::{hex2, hex4};
use crate::{image, lemma_image_after, Access, AddressBusIO, Clock, Interrupt};
use vstd::prelude::*;

pub mod bits;
pub mod execute;
pub mod fetch;
pub mod laws;
pub mod machine;
pub mod table;

use machine::Machine;

verus! {

pub const CARRY: u8 = 0x01;

pub const ZERO: u8 = 0x02;

pub const INTERRUPT: u8 = 0x04;

pub const DECIMAL: u8 = 0x08;

pub const BRK: u8 = 0x10;

pub const ALWAYS_SET: u8 = 0x20;

pub const OVERFLOW: u8 = 0x40;

pub const SIGN: u8 = 0x80;

/// How an instruction finds its operand.
#[derive(Clone, Copy, Debug)]
pub enum Mode {
    Implied,
    Accumulator,
    Immediate,
    Relative,
    Zeropage,
    ZeropageX,
    ZeropageY,
    Absolute,
    AbsoluteX,
    AbsoluteY,
    Indirect,
    IndirectX,
    IndirectY,
    /// The fetch of an opcode that no instruction is assigned to.
    Invalid,
}

/// What an instruction does with its operand.
#[derive(Clone, Copy, Debug)]
pub enum Operation {
    Adc,
    And,
    Asl,
    AslA,
    Bcc,
    Bcs,
    Beq,
    Bit,
    Bmi,
    Bne,
    Bpl,
    Brk,
    Bvc,
    Bvs,
    Clc,
    Cld,
    Cli,
    Clv,
    Cmp,
    Cpx,
    Cpy,
    Dec,
    Dex,
    Dey,
    Eor,
    Inc,
    Inx,
    Iny,
    Jmp,
    Jsr,
    Lda,
    Ldx,
    Ldy,
    Lsr,
    LsrA,
    Nop,
    Ora,
    Pha,
    Php,
    Pla,
    Plp,
    Rol,
    RolA,
    Ror,
    RorA,
    Rti,
    Rts,
    Sbc,
    Sec,
    Sed,
    Sei,
    Sta,
    Stx,
    Sty,
    Tax,
    Tay,
    Tsx,
    Txa,
    Txs,
    Tya,
}

/// One entry of the opcode table: a fetch, the work, and the name that a
/// trace line shows.
#[derive(Clone, Copy)]
pub struct OpCode {
    pub fetch: Mode,
    pub fun: Operation,
    pub name: &'static str,
}

/// The processor, with the bus it is attached to.
pub struct MOS6502<T: AddressBusIO<u16, u8>> {
    pub bus: T,
    pub a: u8,
    pub x: u8,
    pub y: u8,
    pub pc: u16,
    pub sp: u8,
    pub status: u8,
    /// When set, each step leaves a trace line in `debug_line`.
    pub debug: bool,
    pub debug_line: String,
    /// The address of the instruction that the last step ran.
    pub debug_pc: u16,
    /// The cycles run so far.
    pub ticks: u64,
    pub value: u8,
    pub addr: u16,
    pub code_breakpoint: bool,
    pub requested_code_breakpoint: bool,
    pub current_opcode: u8,
    pub opcode: OpCode,
    pub opcodes: Vec<OpCode>,
}

impl<T: AddressBusIO<u16, u8>> View for MOS6502<T> {
    type V = Machine;

    open spec fn view(&self) -> Machine {
        Machine {
            a: self.a,
            x: self.x,
            y: self.y,
            pc: self.pc,
            sp: self.sp,
            status: self.status,
            ticks: self.ticks as nat,
            value: self.value,
            addr: self.addr,
            debug: self.debug,
            debug_line: self.debug_line@,
            debug_pc: self.debug_pc,
            code_breakpoint: self.code_breakpoint,
            requested_code_breakpoint: self.requested_code_breakpoint,
            current_opcode: self.current_opcode,
            opcode: self.opcode,
            opcodes: self.opcodes@,
            bus: image(&self.bus),
            fault: false,
        }
    }
}

impl<T: AddressBusIO<u16, u8>> MOS6502<T> {
    /// Reads the byte at `addr`.
    pub fn read8(&mut self, addr: u16) -> (value: u8)
        requires
            !old(self)@.loaded(addr).fault,
        ensures
            value == old(self)@.bus.now(addr),
            final(self)@ == old(self)@.loaded(addr),
    {
        let value = self.bus.read(addr);
        proof {
            lemma_image_after(&old(self).bus, Access::Read { address: addr }, &self.bus);
        }
        value
    }

    /// Writes `value` at `addr`.
    pub fn write8(&mut self, addr: u16, value: u8)
        requires
            !old(self)@.stored(addr, value).fault,
        ensures
            final(self)@ == old(self)@.stored(addr, value),
    {
        self.bus.write(addr, value);
        proof {
            lemma_image_after(&old(self).bus, Access::Write { address: addr, value }, &self.bus);
        }
    }

    /// Reads the word at `addr`, low byte first. The second byte is read at
    /// the next address, which after `$FFFF` is `$0000`.
    pub fn read16(&mut self, addr: u16) -> (value: u16)
        requires
            !old(self)@.loaded_word(addr).fault,
        ensures
            value == old(self)@.word_at(addr),
            final(self)@ == old(self)@.loaded_word(addr),
    {
        let low = self.read8(addr);
        let high = self.read8(fetch::indexed(addr, 1));
        fetch::join(low, high)
    }

    /// Returns the program counter and moves it to the next byte.
    pub fn advance_pc(&mut self) -> (pc: u16)
        ensures
            pc == old(self).pc,
            final(self)@ == (Machine { pc: machine::wrap16(old(self).pc + 1), ..old(self)@ }),
    {
        let pc = self.pc;
        self.pc = pc.wrapping_add(1);
        pc
    }

    /// Reads the byte at the program counter and moves past it.
    pub fn read8_from_pc(&mut self) -> (value: u8)
        requires
            !old(self)@.advanced().fault,
        ensures
            value == old(self)@.next(),
            final(self)@ == old(self)@.advanced(),
    {
        let pc = self.advance_pc();
        self.read8(pc)
    }

    /// Reads the word at the program counter and moves past it.
    pub fn read16_from_pc(&mut self) -> (value: u16)
        requires
            !old(self)@.advanced().advanced().fault,
        ensures
            value == old(self)@.next_word(),
            final(self)@ == old(self)@.advanced().advanced(),
    {
        let low = self.read8_from_pc();
        let high = self.read8_from_pc();
        fetch::join(low, high)
    }

    /// The name of the instruction that is being run.
    pub fn get_opcode_name(&self) -> (name: &'static str)
        ensures
            name@ == self@.opcode.name@,
    {
        self.opcode.name
    }

    /// Whether the flag `flag` is set.
    pub fn get_flag(&self, flag: u8) -> (on: bool)
        ensures
            on == machine::flag(self.status, flag),
    {
        (self.status & flag) != 0
    }

    /// Sets or clears the flag `flag`.
    pub fn set_flag(&mut self, flag: u8, enabled: bool)
        ensures
            final(self)@ == old(self)@.flagged(flag, enabled),
    {
        if enabled {
            self.status = self.status | flag;
        } else {
            self.status = self.status & !flag;
        }
    }

    /// Adds `cycles` to the cycle counter.
    pub fn tick(&mut self, cycles: u64)
        requires
            !old(self)@.ticked(cycles as nat).fault,
        ensures
            final(self)@ == old(self)@.ticked(cycles as nat),
    {
        self.ticks = self.ticks + cycles;
    }
}

/// The letter of a flag, or a dash where the flag is clear in `status`.
fn letter(status: u8, mask: u8, set: &'static str) -> (text: &'static str)
    ensures
        text@ == machine::flag_letter(machine::flag(status, mask), set@),
{
    if status & mask != 0 {
        set
    } else {
        "-"
    }
}

/// The registers, the opcode and the flags as a trace line shows them.
fn registers(a: u8, x: u8, y: u8, sp: u8, opcode: u8, status: u8) -> (text: String)
    ensures
        text@ == machine::registers_text(a, x, y, sp, opcode, status),
{
    let mut text = String::from_str(" [A=$");
    push_hex2(&mut text, a);
    text.append(" X=$");
    push_hex2(&mut text, x);
    text.append(" Y=$");
    push_hex2(&mut text, y);
    text.append(" SP=$");
    push_hex2(&mut text, sp);
    text.append(" |$");
    push_hex2(&mut text, opcode);
    text.append("| ");
    text.append(letter(status, SIGN, "N"));
    text.append(letter(status, OVERFLOW, "V"));
    text.append(letter(status, ZERO, "Z"));
    text.append(letter(status, CARRY, "C"));
    text.append("]");
    text
}

impl<T: AddressBusIO<u16, u8>> MOS6502<T> {
    /// Whether the opcode table is whole: one entry for each byte.
    pub open spec fn wf(&self) -> bool {
        self.opcodes@.len() == 256
    }

    /// Adds the registers and flags to the trace line, where tracing is on.
    fn report(&mut self)
        ensures
            final(self)@ == old(self)@.reported(),
    {
        if self.debug {
            let text = registers(
                self.a,
                self.x,
                self.y,
                self.sp,
                self.current_opcode,
                self.status,
            );
            self.debug_line.append(text.as_str());
        }
    }

    /// The first half of a step: reads the opcode at the program counter
    /// and looks it up in the table. Whoever wants to know what is about to
    /// run, or to stop at an opcode that the table does not have, looks at
    /// `opcode` between this and `perform`.
    pub fn decode(&mut self) -> (code: u8)
        requires
            old(self).wf(),
            !old(self)@.decoded().fault,
        ensures
            final(self)@ == old(self)@.decoded(),
            final(self).wf(),
            code == final(self).current_opcode,
    {
        self.debug_pc = self.pc;
        let opcode = self.read8_from_pc();
        self.current_opcode = opcode;
        self.opcode = self.opcodes[opcode as usize];
        opcode
    }

    /// The second half of a step: fetches the operand of the opcode that
    /// `decode` has looked up and does its work.
    pub fn perform(&mut self)
        requires
            !old(self)@.performed().fault,
        ensures
            final(self)@ == old(self)@.performed(),
    {
        let entry = self.opcode;
        self.fetch(entry.fetch);
        self.execute(entry.fun);
        self.report();
    }

    /// Says whether a `BRK` has asked for a breakpoint since the last call,
    /// and forgets the request.
    pub fn take_breakpoint_pending(&mut self) -> (pending: bool)
        ensures
            pending == old(self).requested_code_breakpoint,
            final(self)@ == (Machine { requested_code_breakpoint: false, ..old(self)@ }),
    {
        let requested = self.requested_code_breakpoint;
        self.requested_code_breakpoint = false;
        requested
    }
}

impl<T: AddressBusIO<u16, u8>> Clock for MOS6502<T> {
    open spec fn can_step(&self) -> bool {
        self.wf() && !self@.step().fault
    }

    /// Runs one instruction.
    fn step(&mut self)
        ensures
            final(self)@ == old(self)@.step(),
    {
        self.decode();
        self.perform();
    }
}

impl<T: AddressBusIO<u16, u8>> AddressBusIO<u16, u8> for MOS6502<T> {
    open spec fn readable(&self, history: Seq<Access<u16, u8>>, address: u16) -> bool {
        self.bus.readable(history, address)
    }

    open spec fn writable(&self, history: Seq<Access<u16, u8>>, address: u16) -> bool {
        self.bus.writable(history, address)
    }

    open spec fn value(&self, history: Seq<Access<u16, u8>>, address: u16) -> u8 {
        self.bus.value(history, address)
    }

    /// What the processor reads at `address`.
    fn read(&mut self, address: u16) -> (value: u8)
        ensures
            final(self)@ == old(self)@.loaded(address),
    {
        let value = self.bus.read(address);
        proof {
            lemma_image_after(&old(self).bus, Access::Read { address }, &self.bus);
        }
        value
    }

    /// Writes `value` where the processor would.
    fn write(&mut self, address: u16, value: u8)
        ensures
            final(self)@ == old(self)@.stored(address, value),
    {
        self.bus.write(address, value);
        proof {
            lemma_image_after(&old(self).bus, Access::Write { address, value }, &self.bus);
        }
    }
}

impl<T: AddressBusIO<u16, u8>> Interrupt<u16> for MOS6502<T> {
    open spec fn can_raise(&self, line: u16) -> bool {
        !self@.raised(line).fault
    }

    /// Raises the interrupt line `line`.
    fn raise(&mut self, line: u16)
        ensures
            final(self)@ == old(self)@.raised(line),
    {
        if line == 4 {
            if !self.get_flag(INTERRUPT) && !self.get_flag(BRK) {
                self.interrupt(0xfffe);
                self.tick(5);
                self.set_flag(BRK, true);
            }
        } else if line == 6 {
            self.interrupt(0xfffa);
            self.tick(5);
        } else if line == 40 {
            if !self.get_flag(INTERRUPT) {
                self.reset(0xfffc);
            }
        }
    }
}

impl<T: AddressBusIO<u16, u8>> crate::Debug<u16, u8> for MOS6502<T> {
    open spec fn cursor(&self) -> u16 {
        self.pc
    }

    open spec fn can_inspect(&self, address: u16) -> bool {
        self@.bus.reads(address)
    }

    open spec fn can_inject(&self, address: u16, value: u8) -> bool {
        self@.bus.writes(address)
    }

    open spec fn can_advance(&self) -> bool {
        self.can_step()
    }

    open spec fn breakpoint_pending(&self) -> bool {
        self.requested_code_breakpoint
    }

    fn address_str(&self, address: u16) -> (text: String)
        ensures
            text@ == "$"@ + hex4(address),
    {
        let mut text = String::from_str("$");
        push_hex4(&mut text, address);
        text
    }

    fn data_str(&self, data: u8) -> (text: String)
        ensures
            text@ == "$"@ + hex2(data),
    {
        let mut text = String::from_str("$");
        push_hex2(&mut text, data);
        text
    }

    fn inspect(&mut self, address: u16) -> (value: u8)
        ensures
            value == old(self)@.bus.now(address),
            final(self)@ == old(self)@.loaded(address),
    {
        self.read8(address)
    }

    fn inject(&mut self, address: u16, data: u8)
        ensures
            final(self)@ == old(self)@.stored(address, data),
    {
        self.write8(address, data);
    }

    fn get_cursor(&self) -> u16 {
        self.pc
    }

    fn next(&mut self)
        ensures
            final(self)@ == old(self)@.step(),
    {
        self.step();
    }

    fn set_cursor(&mut self, address: u16)
        ensures
            final(self)@ == (Machine { pc: address, ..old(self)@ }),
    {
        self.pc = address;
    }

    fn set_code_breakpoint(&mut self, enable: bool)
        ensures
            final(self)@ == (Machine { code_breakpoint: enable, ..old(self)@ }),
    {
        self.code_breakpoint = enable;
    }

    fn is_code_breakpoint_requested(&mut self) -> (requested: bool)
        ensures
            final(self)@ == (Machine { requested_code_breakpoint: false, ..old(self)@ }),
    {
        self.take_breakpoint_pending()
    }
}

} // verus!
