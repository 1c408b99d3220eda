//! What the processor does, as a function on its whole state.
//!
//! A `Machine` is the registers, the opcode table and the bus as the
//! processor sees it. Each operation of the processor is a function from
//! machine to machine. A machine that makes an access the bus does not
//! answer, runs an unassigned opcode or overflows its cycle counter is at
//! fault, and stays so.
use crate::hex::{hex2, hex4};
use crate::mos6502::{
    Mode, OpCode, Operation, ALWAYS_SET, BRK, CARRY, DECIMAL, INTERRUPT, OVERFLOW, SIGN, ZERO,
};
use crate::mos6502::table::{table, unassigned};
use crate::BusState;
use vstd::prelude::*;

verus! {

/// Whether the flag `mask` is set in `status`.
pub open spec fn flag(status: u8, mask: u8) -> bool {
    status & mask != 0
}

/// `status` with the flag `mask` set or cleared.
pub open spec fn with_flag(status: u8, mask: u8, on: bool) -> u8 {
    if on {
        status | mask
    } else {
        status & !mask
    }
}

/// `n` reduced to eight bits.
pub open spec fn wrap8(n: int) -> u8 {
    (n % 0x100) as u8
}

/// `n` reduced to sixteen bits.
pub open spec fn wrap16(n: int) -> u16 {
    (n % 0x1_0000) as u16
}

/// The 16-bit word with low byte `low` and high byte `high`.
pub open spec fn word(low: u8, high: u8) -> u16 {
    (high as int * 0x100 + low as int) as u16
}

/// The high byte of `value`.
pub open spec fn high_byte(value: u16) -> u8 {
    (value as int / 0x100) as u8
}

/// The low byte of `value`.
pub open spec fn low_byte(value: u16) -> u8 {
    (value as int % 0x100) as u8
}

/// `byte` read as a two's-complement number.
pub open spec fn signed(byte: u8) -> int {
    if byte >= 0x80 {
        byte as int - 0x100
    } else {
        byte as int
    }
}

/// The page of `address`: its high byte.
pub open spec fn page(address: u16) -> int {
    address as int / 0x100
}

/// One more cycle where indexing moved the address to another page.
pub open spec fn crossing(base: u16, address: u16) -> nat {
    if page(base) != page(address) {
        1
    } else {
        0
    }
}

/// The address of the stack cell that `sp` points at.
pub open spec fn stack_cell(sp: u8) -> u16 {
    (0x100 + sp as int) as u16
}

/// The letter of a flag in a trace line, or a dash where it is clear.
pub open spec fn flag_letter(on: bool, letter: Seq<char>) -> Seq<char> {
    if on {
        letter
    } else {
        "-"@
    }
}

/// The registers, the opcode and the flags N, V, Z and C as a trace line
/// shows them.
pub open spec fn registers_text(a: u8, x: u8, y: u8, sp: u8, opcode: u8, status: u8) -> Seq<
    char,
> {
    " [A=$"@ + hex2(a) + " X=$"@ + hex2(x) + " Y=$"@ + hex2(y) + " SP=$"@ + hex2(sp) + " |$"@
        + hex2(opcode) + "| "@ + flag_letter(flag(status, SIGN), "N"@) + flag_letter(
        flag(status, OVERFLOW),
        "V"@,
    ) + flag_letter(flag(status, ZERO), "Z"@) + flag_letter(flag(status, CARRY), "C"@) + "]"@
}

/// The whole state of the processor and what it sees of its bus.
pub ghost struct Machine {
    pub a: u8,
    pub x: u8,
    pub y: u8,
    pub pc: u16,
    pub sp: u8,
    pub status: u8,
    pub ticks: nat,
    /// The operand that the last fetch loaded.
    pub value: u8,
    /// The effective address that the last fetch computed.
    pub addr: u16,
    pub debug: bool,
    pub debug_line: Seq<char>,
    pub debug_pc: u16,
    pub code_breakpoint: bool,
    pub requested_code_breakpoint: bool,
    pub current_opcode: u8,
    pub opcode: OpCode,
    pub opcodes: Seq<OpCode>,
    pub bus: BusState<u16, u8>,
    pub fault: bool,
}

impl Machine {
    /// The machine as it is made: the registers zeroed but for the stack
    /// pointer and the status, no cycle run, tracing and breakpoints off, and
    /// the documented opcode table.
    pub open spec fn initial(bus: BusState<u16, u8>) -> Machine {
        Machine {
            a: 0,
            x: 0,
            y: 0,
            pc: 0,
            sp: 0xff,
            status: ALWAYS_SET | INTERRUPT,
            ticks: 0,
            value: 0,
            addr: 0,
            debug: false,
            debug_line: Seq::empty(),
            debug_pc: 0,
            code_breakpoint: false,
            requested_code_breakpoint: false,
            current_opcode: 0,
            opcode: unassigned(),
            opcodes: table(),
            bus,
            fault: false,
        }
    }

    // Bus, clock and trace.
    /// After a read at `address`.
    pub open spec fn loaded(self, address: u16) -> Machine {
        Machine {
            bus: self.bus.after_read(address),
            fault: self.fault || !self.bus.reads(address),
            ..self
        }
    }

    /// After a write of `value` at `address`.
    pub open spec fn stored(self, address: u16, value: u8) -> Machine {
        Machine {
            bus: self.bus.after_write(address, value),
            fault: self.fault || !self.bus.writes(address),
            ..self
        }
    }

    /// After `cycles` more cycles.
    pub open spec fn ticked(self, cycles: nat) -> Machine {
        Machine {
            ticks: self.ticks + cycles,
            fault: self.fault || self.ticks + cycles > u64::MAX,
            ..self
        }
    }

    /// With `line` as the trace line, where tracing is on.
    pub open spec fn noted(self, line: Seq<char>) -> Machine {
        if self.debug {
            Machine { debug_line: line, ..self }
        } else {
            self
        }
    }

    /// The 16-bit word stored at `address`, low byte first.
    pub open spec fn word_at(self, address: u16) -> u16 {
        word(self.bus.now(address), self.loaded(address).bus.now(wrap16(address + 1)))
    }

    /// After the two reads of the word at `address`.
    pub open spec fn loaded_word(self, address: u16) -> Machine {
        self.loaded(address).loaded(wrap16(address + 1))
    }

    /// The byte at the program counter.
    pub open spec fn next(self) -> u8 {
        self.bus.now(self.pc)
    }

    /// After the byte at the program counter has been consumed.
    pub open spec fn advanced(self) -> Machine {
        Machine { pc: wrap16(self.pc + 1), ..self.loaded(self.pc) }
    }

    /// The word at the program counter.
    pub open spec fn next_word(self) -> u16 {
        word(self.next(), self.advanced().next())
    }

    /// With `address` as the effective address and the byte there as the
    /// operand.
    pub open spec fn operand_at(self, address: u16) -> Machine {
        Machine { addr: address, value: self.bus.now(address), ..self.loaded(address) }
    }

    // Addressing modes.
    pub open spec fn implied(self) -> Machine {
        self.ticked(2).noted(self.opcode.name@)
    }

    pub open spec fn accumulator(self) -> Machine {
        self.ticked(2).noted(self.opcode.name@)
    }

    pub open spec fn immediate(self) -> Machine {
        let operand = self.next();
        Machine { value: operand, ..self.advanced() }.ticked(2).noted(
            self.opcode.name@ + " #$"@ + hex2(operand),
        )
    }

    pub open spec fn relative(self) -> Machine {
        let after = self.advanced();
        let target = wrap16(after.pc + signed(self.next()));
        Machine { addr: target, ..after }.ticked(2).noted(
            self.opcode.name@ + " $"@ + hex4(target),
        )
    }

    pub open spec fn zeropage(self) -> Machine {
        let operand = self.next();
        self.advanced().operand_at(operand as u16).ticked(3).noted(
            self.opcode.name@ + " $"@ + hex2(operand),
        )
    }

    pub open spec fn zeropage_x(self) -> Machine {
        let operand = self.next();
        let address = wrap8(operand + self.x);
        self.advanced().operand_at(address as u16).ticked(3).noted(
            self.opcode.name@ + " $"@ + hex2(operand) + ",X (zeropage addr: $"@ + hex2(address)
                + ")"@,
        )
    }

    pub open spec fn zeropage_y(self) -> Machine {
        let operand = self.next();
        let address = wrap8(operand + self.y);
        self.advanced().operand_at(address as u16).ticked(3).noted(
            self.opcode.name@ + " $"@ + hex2(operand) + ",Y (zeropage addr: $"@ + hex2(address)
                + ")"@,
        )
    }

    pub open spec fn absolute(self) -> Machine {
        let address = self.next_word();
        self.advanced().advanced().operand_at(address).ticked(4).noted(
            self.opcode.name@ + " $"@ + hex4(address),
        )
    }

    pub open spec fn absolute_x(self) -> Machine {
        let base = self.next_word();
        let address = wrap16(base + self.x);
        self.advanced().advanced().operand_at(address).ticked(4 + crossing(base, address)).noted(
            self.opcode.name@ + " $"@ + hex4(base) + ",X (absolute addr: $"@ + hex4(address)
                + ")"@,
        )
    }

    pub open spec fn absolute_y(self) -> Machine {
        let base = self.next_word();
        let address = wrap16(base + self.y);
        self.advanced().advanced().operand_at(address).ticked(4 + crossing(base, address)).noted(
            self.opcode.name@ + " $"@ + hex4(base) + ",Y (absolute addr: $"@ + hex4(address)
                + ")"@,
        )
    }

    pub open spec fn indirect(self) -> Machine {
        let pointer = self.next_word();
        let after = self.advanced().advanced();
        let address = after.word_at(pointer);
        after.loaded_word(pointer).operand_at(address).ticked(5).noted(
            self.opcode.name@ + " ($"@ + hex4(pointer) + ") (indirect addr: $"@ + hex4(address)
                + ")"@,
        )
    }

    pub open spec fn indirect_x(self) -> Machine {
        let operand = self.next();
        let pointer = wrap8(operand + self.x);
        let after = self.advanced();
        let low = after.bus.now(pointer as u16);
        let high = after.loaded(pointer as u16).bus.now(wrap8(pointer + 1) as u16);
        let address = word(low, high);
        after.loaded(pointer as u16).loaded(wrap8(pointer + 1) as u16).operand_at(address).ticked(
            6,
        ).noted(
            self.opcode.name@ + " ($"@ + hex2(operand) + ",X) (indirect addr: $"@ + hex4(address)
                + ")"@,
        )
    }

    pub open spec fn indirect_y(self) -> Machine {
        let operand = self.next();
        let after = self.advanced();
        let base = after.word_at(operand as u16);
        let address = wrap16(base + self.y);
        after.loaded_word(operand as u16).operand_at(address).ticked(
            5 + crossing(base, address),
        ).noted(
            self.opcode.name@ + " ($"@ + hex2(operand) + "),Y (indirect addr: $"@ + hex4(address)
                + ")"@,
        )
    }

    /// After the operand fetch of `mode`. An unassigned opcode is a fault.
    pub open spec fn fetched(self, mode: Mode) -> Machine {
        if self.fault {
            self
        } else {
            match mode {
                Mode::Implied => self.implied(),
                Mode::Accumulator => self.accumulator(),
                Mode::Immediate => self.immediate(),
                Mode::Relative => self.relative(),
                Mode::Zeropage => self.zeropage(),
                Mode::ZeropageX => self.zeropage_x(),
                Mode::ZeropageY => self.zeropage_y(),
                Mode::Absolute => self.absolute(),
                Mode::AbsoluteX => self.absolute_x(),
                Mode::AbsoluteY => self.absolute_y(),
                Mode::Indirect => self.indirect(),
                Mode::IndirectX => self.indirect_x(),
                Mode::IndirectY => self.indirect_y(),
                Mode::Invalid => Machine { fault: true, ..self },
            }
        }
    }

    // Flags.
    /// With the flag `mask` set or cleared.
    pub open spec fn flagged(self, mask: u8, on: bool) -> Machine {
        Machine { status: with_flag(self.status, mask, on), ..self }
    }

    /// With zero and sign set from `result`.
    pub open spec fn nz(self, result: u8) -> Machine {
        self.flagged(ZERO, result == 0).flagged(SIGN, result & 0x80 != 0)
    }

    /// The carry flag as a number.
    pub open spec fn carry(self) -> int {
        if flag(self.status, CARRY) {
            1
        } else {
            0
        }
    }

    // Loads, stores and transfers.
    pub open spec fn lda(self) -> Machine {
        Machine { a: self.value, ..self }.nz(self.value)
    }

    pub open spec fn ldx(self) -> Machine {
        Machine { x: self.value, ..self }.nz(self.value)
    }

    pub open spec fn ldy(self) -> Machine {
        Machine { y: self.value, ..self }.nz(self.value)
    }

    pub open spec fn sta(self) -> Machine {
        self.stored(self.addr, self.a)
    }

    pub open spec fn stx(self) -> Machine {
        self.stored(self.addr, self.x)
    }

    pub open spec fn sty(self) -> Machine {
        self.stored(self.addr, self.y)
    }

    pub open spec fn tax(self) -> Machine {
        Machine { x: self.a, ..self }.nz(self.a)
    }

    pub open spec fn tay(self) -> Machine {
        Machine { y: self.a, ..self }.nz(self.a)
    }

    pub open spec fn txa(self) -> Machine {
        Machine { a: self.x, ..self }.nz(self.x)
    }

    pub open spec fn tya(self) -> Machine {
        Machine { a: self.y, ..self }.nz(self.y)
    }

    pub open spec fn txs(self) -> Machine {
        Machine { sp: self.x, ..self }
    }

    pub open spec fn tsx(self) -> Machine {
        Machine { x: self.sp, ..self }
    }

    // Increments and decrements.
    pub open spec fn inx(self) -> Machine {
        Machine { x: wrap8(self.x + 1), ..self }.nz(wrap8(self.x + 1))
    }

    pub open spec fn iny(self) -> Machine {
        Machine { y: wrap8(self.y + 1), ..self }.nz(wrap8(self.y + 1))
    }

    pub open spec fn dex(self) -> Machine {
        Machine { x: wrap8(self.x - 1), ..self }.nz(wrap8(self.x - 1))
    }

    pub open spec fn dey(self) -> Machine {
        Machine { y: wrap8(self.y - 1), ..self }.nz(wrap8(self.y - 1))
    }

    pub open spec fn inc(self) -> Machine {
        self.stored(self.addr, wrap8(self.value + 1)).nz(wrap8(self.value + 1))
    }

    pub open spec fn dec(self) -> Machine {
        self.stored(self.addr, wrap8(self.value - 1)).nz(wrap8(self.value - 1))
    }

    // Logic.
    pub open spec fn and(self) -> Machine {
        Machine { a: self.a & self.value, ..self }.nz(self.a & self.value)
    }

    pub open spec fn ora(self) -> Machine {
        Machine { a: self.a | self.value, ..self }.nz(self.a | self.value)
    }

    pub open spec fn eor(self) -> Machine {
        Machine { a: self.a ^ self.value, ..self }.nz(self.a ^ self.value)
    }

    pub open spec fn bit(self) -> Machine {
        self.flagged(ZERO, self.a & self.value == 0).flagged(
            SIGN,
            self.value & 0x80 != 0,
        ).flagged(OVERFLOW, self.value & 0x40 != 0)
    }

    // Shifts and rotates. The carry takes the bit shifted out; a rotate
    // shifts the old carry in.
    pub open spec fn asl_a(self) -> Machine {
        let result = wrap8(self.a * 2);
        Machine { a: result, ..self.flagged(CARRY, self.a & 0x80 != 0) }.nz(result)
    }

    pub open spec fn lsr_a(self) -> Machine {
        let result = (self.a / 2) as u8;
        Machine { a: result, ..self.flagged(CARRY, self.a & 0x01 != 0) }.nz(result)
    }

    pub open spec fn rol_a(self) -> Machine {
        let result = wrap8(self.a * 2 + self.carry());
        Machine { a: result, ..self.flagged(CARRY, self.a & 0x80 != 0) }.nz(result)
    }

    pub open spec fn ror_a(self) -> Machine {
        let result = (self.a / 2 + 0x80 * self.carry()) as u8;
        Machine { a: result, ..self.flagged(CARRY, self.a & 0x01 != 0) }.nz(result)
    }

    pub open spec fn asl(self) -> Machine {
        let result = wrap8(self.value * 2);
        self.flagged(CARRY, self.value & 0x80 != 0).stored(self.addr, result).nz(result)
    }

    pub open spec fn lsr(self) -> Machine {
        let result = (self.value / 2) as u8;
        self.flagged(CARRY, self.value & 0x01 != 0).stored(self.addr, result).nz(result)
    }

    pub open spec fn rol(self) -> Machine {
        let result = wrap8(self.value * 2 + self.carry());
        self.flagged(CARRY, self.value & 0x80 != 0).stored(self.addr, result).nz(result)
    }

    pub open spec fn ror(self) -> Machine {
        let result = (self.value / 2 + 0x80 * self.carry()) as u8;
        self.flagged(CARRY, self.value & 0x01 != 0).stored(self.addr, result).nz(result)
    }

    // Arithmetic. Decimal mode is not modelled: both are binary.
    pub open spec fn adc(self) -> Machine {
        let sum = self.a + self.value + self.carry();
        let result = wrap8(sum);
        Machine { a: result, ..self.flagged(CARRY, sum > 0xff) }.nz(result).flagged(
            OVERFLOW,
            ((self.a ^ result) & (self.value ^ result)) & 0x80 != 0,
        )
    }

    pub open spec fn sbc(self) -> Machine {
        let difference = self.a - self.value - (1 - self.carry());
        let result = wrap8(difference);
        Machine { a: result, ..self.flagged(CARRY, 0 <= difference <= 0xff) }.nz(result).flagged(
            OVERFLOW,
            ((self.a ^ result) & (self.value ^ result)) & 0x80 != 0,
        )
    }

    /// The flags of a comparison of `register` with the operand.
    pub open spec fn compared(self, register: u8) -> Machine {
        self.flagged(CARRY, register >= self.value).flagged(ZERO, register == self.value).flagged(
            SIGN,
            register < self.value,
        )
    }

    pub open spec fn cmp(self) -> Machine {
        self.compared(self.a)
    }

    pub open spec fn cpx(self) -> Machine {
        self.compared(self.x)
    }

    pub open spec fn cpy(self) -> Machine {
        self.compared(self.y)
    }

    // Flag instructions.
    pub open spec fn sec(self) -> Machine {
        self.flagged(CARRY, true)
    }

    pub open spec fn clc(self) -> Machine {
        self.flagged(CARRY, false)
    }

    pub open spec fn sei(self) -> Machine {
        self.flagged(INTERRUPT, true)
    }

    pub open spec fn cli(self) -> Machine {
        self.flagged(INTERRUPT, false)
    }

    pub open spec fn sed(self) -> Machine {
        self.flagged(DECIMAL, true)
    }

    pub open spec fn cld(self) -> Machine {
        self.flagged(DECIMAL, false)
    }

    pub open spec fn clv(self) -> Machine {
        self.flagged(OVERFLOW, false)
    }

    // Jumps and branches. A branch that is taken costs one more cycle.
    pub open spec fn jmp(self) -> Machine {
        Machine { pc: self.addr, ..self }
    }

    /// A branch on `taken`.
    pub open spec fn branched(self, taken: bool) -> Machine {
        if taken {
            Machine { pc: self.addr, ..self }.ticked(1)
        } else {
            self
        }
    }

    pub open spec fn beq(self) -> Machine {
        self.branched(flag(self.status, ZERO))
    }

    pub open spec fn bne(self) -> Machine {
        self.branched(!flag(self.status, ZERO))
    }

    pub open spec fn bmi(self) -> Machine {
        self.branched(flag(self.status, SIGN))
    }

    pub open spec fn bpl(self) -> Machine {
        self.branched(!flag(self.status, SIGN))
    }

    pub open spec fn bvs(self) -> Machine {
        self.branched(flag(self.status, OVERFLOW))
    }

    pub open spec fn bvc(self) -> Machine {
        self.branched(!flag(self.status, OVERFLOW))
    }

    pub open spec fn bcs(self) -> Machine {
        self.branched(flag(self.status, CARRY))
    }

    pub open spec fn bcc(self) -> Machine {
        self.branched(!flag(self.status, CARRY))
    }

    // The stack: page one, growing downward.
    /// After `value` has been pushed: written where the stack pointer
    /// points, with the stack pointer moved down behind it.
    pub open spec fn pushed(self, value: u8) -> Machine {
        Machine { sp: wrap8(self.sp - 1), ..self.stored(stack_cell(self.sp), value) }
    }

    /// The byte that a pull returns.
    pub open spec fn top(self) -> u8 {
        self.bus.now(stack_cell(wrap8(self.sp + 1)))
    }

    /// After a pull: the stack pointer moved up, and the cell it then
    /// points at read.
    pub open spec fn pulled(self) -> Machine {
        Machine { sp: wrap8(self.sp + 1), ..self.loaded(stack_cell(wrap8(self.sp + 1))) }
    }

    pub open spec fn pha(self) -> Machine {
        self.pushed(self.a)
    }

    pub open spec fn php(self) -> Machine {
        self.pushed(self.status)
    }

    pub open spec fn pla(self) -> Machine {
        Machine { a: self.top(), ..self.pulled() }
    }

    pub open spec fn plp(self) -> Machine {
        Machine { status: self.top(), ..self.pulled() }
    }

    pub open spec fn jsr(self) -> Machine {
        let back = wrap16(self.pc - 1);
        Machine { pc: self.addr, ..self.pushed(high_byte(back)).pushed(low_byte(back)) }
    }

    pub open spec fn rts(self) -> Machine {
        let low = self.top();
        let high = self.pulled().top();
        Machine { pc: wrap16(word(low, high) + 1), ..self.pulled().pulled() }
    }

    pub open spec fn rti(self) -> Machine {
        let status = self.top();
        let low = self.pulled().top();
        let high = self.pulled().pulled().top();
        Machine { pc: word(low, high), status, ..self.pulled().pulled().pulled() }
    }

    // Interrupts.
    /// The interrupt sequence: the program counter, high byte first, and
    /// then the status are pushed, and the program counter is loaded from
    /// the vector at `vector`.
    pub open spec fn interrupted(self, vector: u16) -> Machine {
        let stacked = self.pushed(high_byte(self.pc)).pushed(low_byte(self.pc)).pushed(
            self.status,
        );
        let target = stacked.word_at(vector);
        Machine { addr: target, pc: target, ..stacked.loaded_word(vector) }
    }

    /// A reset: the registers are cleared, the stack pointer and the status
    /// take their initial values, and the program counter is loaded from the
    /// vector at `vector`.
    pub open spec fn reset(self, vector: u16) -> Machine {
        let target = self.word_at(vector);
        Machine {
            status: ALWAYS_SET | INTERRUPT,
            addr: target,
            pc: target,
            sp: 0xff,
            a: 0,
            x: 0,
            y: 0,
            ..self.loaded_word(vector)
        }
    }

    /// `BRK`: where breakpoints are on it only latches a request; otherwise
    /// it runs the interrupt sequence through the vector at `$FFFE` and then
    /// sets the break flag, so that the stacked status is the one before.
    pub open spec fn brk(self) -> Machine {
        if self.code_breakpoint {
            Machine { requested_code_breakpoint: true, ..self }
        } else {
            self.interrupted(0xfffe).flagged(BRK, true)
        }
    }

    /// What raising `line` does. Line 4 is the maskable interrupt, honoured
    /// while neither the interrupt-disable nor the break flag is set; line 6
    /// is the non-maskable interrupt; line 40 is the reset, honoured while
    /// the interrupt-disable flag is clear. Every other line is ignored. An
    /// interrupt that is taken costs five cycles.
    pub open spec fn raised(self, line: u16) -> Machine {
        if line == 4 {
            if !flag(self.status, INTERRUPT) && !flag(self.status, BRK) {
                self.interrupted(0xfffe).ticked(5).flagged(BRK, true)
            } else {
                self
            }
        } else if line == 6 {
            self.interrupted(0xfffa).ticked(5)
        } else if line == 40 {
            if !flag(self.status, INTERRUPT) {
                self.reset(0xfffc)
            } else {
                self
            }
        } else {
            self
        }
    }

    /// After the work of `operation` on the fetched operand.
    pub open spec fn executed(self, operation: Operation) -> Machine {
        if self.fault {
            self
        } else {
            match operation {
                Operation::Adc => self.adc(),
                Operation::And => self.and(),
                Operation::Asl => self.asl(),
                Operation::AslA => self.asl_a(),
                Operation::Bcc => self.bcc(),
                Operation::Bcs => self.bcs(),
                Operation::Beq => self.beq(),
                Operation::Bit => self.bit(),
                Operation::Bmi => self.bmi(),
                Operation::Bne => self.bne(),
                Operation::Bpl => self.bpl(),
                Operation::Brk => self.brk(),
                Operation::Bvc => self.bvc(),
                Operation::Bvs => self.bvs(),
                Operation::Clc => self.clc(),
                Operation::Cld => self.cld(),
                Operation::Cli => self.cli(),
                Operation::Clv => self.clv(),
                Operation::Cmp => self.cmp(),
                Operation::Cpx => self.cpx(),
                Operation::Cpy => self.cpy(),
                Operation::Dec => self.dec(),
                Operation::Dex => self.dex(),
                Operation::Dey => self.dey(),
                Operation::Eor => self.eor(),
                Operation::Inc => self.inc(),
                Operation::Inx => self.inx(),
                Operation::Iny => self.iny(),
                Operation::Jmp => self.jmp(),
                Operation::Jsr => self.jsr(),
                Operation::Lda => self.lda(),
                Operation::Ldx => self.ldx(),
                Operation::Ldy => self.ldy(),
                Operation::Lsr => self.lsr(),
                Operation::LsrA => self.lsr_a(),
                Operation::Nop => self,
                Operation::Ora => self.ora(),
                Operation::Pha => self.pha(),
                Operation::Php => self.php(),
                Operation::Pla => self.pla(),
                Operation::Plp => self.plp(),
                Operation::Rol => self.rol(),
                Operation::RolA => self.rol_a(),
                Operation::Ror => self.ror(),
                Operation::RorA => self.ror_a(),
                Operation::Rti => self.rti(),
                Operation::Rts => self.rts(),
                Operation::Sbc => self.sbc(),
                Operation::Sec => self.sec(),
                Operation::Sed => self.sed(),
                Operation::Sei => self.sei(),
                Operation::Sta => self.sta(),
                Operation::Stx => self.stx(),
                Operation::Sty => self.sty(),
                Operation::Tax => self.tax(),
                Operation::Tay => self.tay(),
                Operation::Tsx => self.tsx(),
                Operation::Txa => self.txa(),
                Operation::Txs => self.txs(),
                Operation::Tya => self.tya(),
            }
        }
    }

    /// The registers and flags as a trace line shows them.
    pub open spec fn snapshot(self) -> Seq<char> {
        registers_text(self.a, self.x, self.y, self.sp, self.current_opcode, self.status)
    }

    /// With the registers and flags added to the trace line, where tracing
    /// is on.
    pub open spec fn reported(self) -> Machine {
        self.noted(self.debug_line + self.snapshot())
    }

    /// The first half of an instruction: the opcode at the program counter
    /// is read and looked up in the table.
    pub open spec fn decoded(self) -> Machine {
        let code = self.next();
        let started = Machine { debug_pc: self.pc, ..self }.advanced();
        Machine { current_opcode: code, opcode: started.opcodes[code as int], ..started }
    }

    /// The second half: the operand of the opcode that was looked up is
    /// fetched and its work is done.
    pub open spec fn performed(self) -> Machine {
        self.fetched(self.opcode.fetch).executed(self.opcode.fun).reported()
    }

    /// One instruction: the opcode at the program counter is read and looked
    /// up in the table, its operand is fetched and its work is done.
    pub open spec fn step(self) -> Machine {
        self.decoded().performed()
    }
}

} // verus!
