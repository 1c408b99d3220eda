//! What holds of every instruction: the flags it leaves and the cycles it
//! costs.
use crate::mos6502::machine::{crossing, flag, with_flag, wrap16, wrap8, Machine};
use crate::mos6502::{
    Mode, Operation, BRK, CARRY, DECIMAL, INTERRUPT, OVERFLOW, SIGN, ZERO,
};
use vstd::prelude::*;

verus! {

/// Whether `mask` is one flag: a single bit.
pub open spec fn single(mask: u8) -> bool {
    mask == 0x01 || mask == 0x02 || mask == 0x04 || mask == 0x08 || mask == 0x10 || mask == 0x20
        || mask == 0x40 || mask == 0x80
}

/// Writing a flag sets that flag to what was written and leaves every other
/// flag as it was.
pub proof fn flag_write(status: u8, mask: u8, on: bool, other: u8)
    requires
        single(mask),
        single(other),
    ensures
        flag(with_flag(status, mask, on), mask) == on,
        other != mask ==> flag(with_flag(status, mask, on), other) == flag(status, other),
{
    assert((status | mask) & mask != 0) by (bit_vector)
        requires
            mask != 0,
    ;
    assert((status & !mask) & mask == 0) by (bit_vector);
    assert(other != mask ==> (status | mask) & other == status & other) by (bit_vector)
        requires
            single(mask),
            single(other),
    ;
    assert(other != mask ==> (status & !mask) & other == status & other) by (bit_vector)
        requires
            single(mask),
            single(other),
    ;
}

/// Whether two machines agree on the flag `mask`.
pub open spec fn same_flag(before: Machine, after: Machine, mask: u8) -> bool {
    flag(after.status, mask) == flag(before.status, mask)
}

/// A result that lands in a register or in memory sets the zero flag where
/// it is zero and the sign flag where its bit 7 is set, and no other flag.
pub proof fn result_flags(machine: Machine, result: u8)
    ensures
        flag(machine.nz(result).status, ZERO) == (result == 0),
        flag(machine.nz(result).status, SIGN) == (result & 0x80 != 0),
        same_flag(machine, machine.nz(result), CARRY),
        same_flag(machine, machine.nz(result), OVERFLOW),
        same_flag(machine, machine.nz(result), INTERRUPT),
        same_flag(machine, machine.nz(result), DECIMAL),
        same_flag(machine, machine.nz(result), BRK),
{
    let zeroed = with_flag(machine.status, ZERO, result == 0);
    flag_write(machine.status, ZERO, result == 0, SIGN);
    flag_write(machine.status, ZERO, result == 0, CARRY);
    flag_write(machine.status, ZERO, result == 0, OVERFLOW);
    flag_write(machine.status, ZERO, result == 0, INTERRUPT);
    flag_write(machine.status, ZERO, result == 0, DECIMAL);
    flag_write(machine.status, ZERO, result == 0, BRK);
    flag_write(zeroed, SIGN, result & 0x80 != 0, ZERO);
    flag_write(zeroed, SIGN, result & 0x80 != 0, CARRY);
    flag_write(zeroed, SIGN, result & 0x80 != 0, OVERFLOW);
    flag_write(zeroed, SIGN, result & 0x80 != 0, INTERRUPT);
    flag_write(zeroed, SIGN, result & 0x80 != 0, DECIMAL);
    flag_write(zeroed, SIGN, result & 0x80 != 0, BRK);
}

/// The loads and transfers that set flags leave zero and sign as their value
/// says, for every value.
pub proof fn load_flags(machine: Machine)
    ensures
        machine.lda().a == machine.value,
        flag(machine.lda().status, ZERO) == (machine.value == 0),
        flag(machine.lda().status, SIGN) == (machine.value & 0x80 != 0),
        machine.ldx().x == machine.value,
        flag(machine.ldx().status, ZERO) == (machine.value == 0),
        flag(machine.ldx().status, SIGN) == (machine.value & 0x80 != 0),
        machine.ldy().y == machine.value,
        flag(machine.ldy().status, ZERO) == (machine.value == 0),
        flag(machine.ldy().status, SIGN) == (machine.value & 0x80 != 0),
        flag(machine.tax().status, ZERO) == (machine.a == 0),
        flag(machine.tax().status, SIGN) == (machine.a & 0x80 != 0),
        flag(machine.tay().status, ZERO) == (machine.a == 0),
        flag(machine.tay().status, SIGN) == (machine.a & 0x80 != 0),
        flag(machine.txa().status, ZERO) == (machine.x == 0),
        flag(machine.txa().status, SIGN) == (machine.x & 0x80 != 0),
        flag(machine.tya().status, ZERO) == (machine.y == 0),
        flag(machine.tya().status, SIGN) == (machine.y & 0x80 != 0),
{
    result_flags(Machine { a: machine.value, ..machine }, machine.value);
    result_flags(Machine { x: machine.value, ..machine }, machine.value);
    result_flags(Machine { y: machine.value, ..machine }, machine.value);
    result_flags(Machine { x: machine.a, ..machine }, machine.a);
    result_flags(Machine { y: machine.a, ..machine }, machine.a);
    result_flags(Machine { a: machine.x, ..machine }, machine.x);
    result_flags(Machine { a: machine.y, ..machine }, machine.y);
}

/// `AND`, `ORA` and `EOR` leave zero and sign as their result says and
/// touch no other flag.
pub proof fn logic_flags(machine: Machine)
    ensures
        flag(machine.and().status, ZERO) == (machine.a & machine.value == 0),
        flag(machine.and().status, SIGN) == ((machine.a & machine.value) & 0x80 != 0),
        same_flag(machine, machine.and(), CARRY),
        same_flag(machine, machine.and(), OVERFLOW),
        flag(machine.ora().status, ZERO) == (machine.a | machine.value == 0),
        flag(machine.ora().status, SIGN) == ((machine.a | machine.value) & 0x80 != 0),
        same_flag(machine, machine.ora(), CARRY),
        same_flag(machine, machine.ora(), OVERFLOW),
        flag(machine.eor().status, ZERO) == (machine.a ^ machine.value == 0),
        flag(machine.eor().status, SIGN) == ((machine.a ^ machine.value) & 0x80 != 0),
        same_flag(machine, machine.eor(), CARRY),
        same_flag(machine, machine.eor(), OVERFLOW),
{
    result_flags(Machine { a: machine.a & machine.value, ..machine }, machine.a & machine.value);
    result_flags(Machine { a: machine.a | machine.value, ..machine }, machine.a | machine.value);
    result_flags(Machine { a: machine.a ^ machine.value, ..machine }, machine.a ^ machine.value);
}

/// The increments and decrements leave zero and sign as their result says
/// and touch neither carry nor overflow.
pub proof fn step_flags(machine: Machine)
    ensures
        machine.inx().x == wrap8(machine.x + 1),
        flag(machine.inx().status, ZERO) == (machine.inx().x == 0),
        flag(machine.inx().status, SIGN) == (machine.inx().x & 0x80 != 0),
        same_flag(machine, machine.inx(), CARRY),
        same_flag(machine, machine.inx(), OVERFLOW),
        machine.iny().y == wrap8(machine.y + 1),
        flag(machine.iny().status, ZERO) == (machine.iny().y == 0),
        flag(machine.iny().status, SIGN) == (machine.iny().y & 0x80 != 0),
        same_flag(machine, machine.iny(), CARRY),
        same_flag(machine, machine.iny(), OVERFLOW),
        machine.dex().x == wrap8(machine.x - 1),
        flag(machine.dex().status, ZERO) == (machine.dex().x == 0),
        flag(machine.dex().status, SIGN) == (machine.dex().x & 0x80 != 0),
        same_flag(machine, machine.dex(), CARRY),
        same_flag(machine, machine.dex(), OVERFLOW),
        machine.dey().y == wrap8(machine.y - 1),
        flag(machine.dey().status, ZERO) == (machine.dey().y == 0),
        flag(machine.dey().status, SIGN) == (machine.dey().y & 0x80 != 0),
        same_flag(machine, machine.dey(), CARRY),
        same_flag(machine, machine.dey(), OVERFLOW),
        machine.inc().bus == machine.bus.after_write(machine.addr, wrap8(machine.value + 1)),
        flag(machine.inc().status, ZERO) == (wrap8(machine.value + 1) == 0),
        flag(machine.inc().status, SIGN) == (wrap8(machine.value + 1) & 0x80 != 0),
        same_flag(machine, machine.inc(), CARRY),
        same_flag(machine, machine.inc(), OVERFLOW),
        machine.dec().bus == machine.bus.after_write(machine.addr, wrap8(machine.value - 1)),
        flag(machine.dec().status, ZERO) == (wrap8(machine.value - 1) == 0),
        flag(machine.dec().status, SIGN) == (wrap8(machine.value - 1) & 0x80 != 0),
        same_flag(machine, machine.dec(), CARRY),
        same_flag(machine, machine.dec(), OVERFLOW),
{
    result_flags(Machine { x: wrap8(machine.x + 1), ..machine }, wrap8(machine.x + 1));
    result_flags(Machine { y: wrap8(machine.y + 1), ..machine }, wrap8(machine.y + 1));
    result_flags(Machine { x: wrap8(machine.x - 1), ..machine }, wrap8(machine.x - 1));
    result_flags(Machine { y: wrap8(machine.y - 1), ..machine }, wrap8(machine.y - 1));
    result_flags(
        machine.stored(machine.addr, wrap8(machine.value + 1)),
        wrap8(machine.value + 1),
    );
    result_flags(
        machine.stored(machine.addr, wrap8(machine.value - 1)),
        wrap8(machine.value - 1),
    );
}

/// `ADC`, for every accumulator, operand and carry: the result is the sum
/// modulo 256, carry says that the sum passed `$FF`, overflow is the signed
/// overflow of the addition, and zero and sign follow the result.
pub proof fn adc_flags(machine: Machine)
    ensures
        machine.adc().a == wrap8(machine.a + machine.value + machine.carry()),
        flag(machine.adc().status, CARRY) == (machine.a + machine.value + machine.carry() > 0xff),
        flag(machine.adc().status, ZERO) == (machine.adc().a == 0),
        flag(machine.adc().status, SIGN) == (machine.adc().a & 0x80 != 0),
        flag(machine.adc().status, OVERFLOW) == (((machine.a ^ machine.adc().a) & (machine.value
            ^ machine.adc().a)) & 0x80 != 0),
        same_flag(machine, machine.adc(), INTERRUPT),
        same_flag(machine, machine.adc(), DECIMAL),
        same_flag(machine, machine.adc(), BRK),
{
    let sum = machine.a + machine.value + machine.carry();
    let result = wrap8(sum);
    let carried = machine.flagged(CARRY, sum > 0xff);
    let landed = Machine { a: result, ..carried };
    let overflow = ((machine.a ^ result) & (machine.value ^ result)) & 0x80 != 0;
    flag_write(machine.status, CARRY, sum > 0xff, INTERRUPT);
    flag_write(machine.status, CARRY, sum > 0xff, DECIMAL);
    flag_write(machine.status, CARRY, sum > 0xff, BRK);
    result_flags(landed, result);
    flag_write(landed.nz(result).status, OVERFLOW, overflow, CARRY);
    flag_write(landed.nz(result).status, OVERFLOW, overflow, ZERO);
    flag_write(landed.nz(result).status, OVERFLOW, overflow, SIGN);
    flag_write(landed.nz(result).status, OVERFLOW, overflow, INTERRUPT);
    flag_write(landed.nz(result).status, OVERFLOW, overflow, DECIMAL);
    flag_write(landed.nz(result).status, OVERFLOW, overflow, BRK);
}

/// `SBC`, for every accumulator, operand and carry: the result is the
/// difference, less one where carry was clear, modulo 256; carry says that
/// no borrow was needed; overflow and zero and sign are as for `ADC`.
pub proof fn sbc_flags(machine: Machine)
    ensures
        machine.sbc().a == wrap8(machine.a - machine.value - (1 - machine.carry())),
        flag(machine.sbc().status, CARRY) == (0 <= machine.a - machine.value - (1
            - machine.carry()) <= 0xff),
        flag(machine.sbc().status, ZERO) == (machine.sbc().a == 0),
        flag(machine.sbc().status, SIGN) == (machine.sbc().a & 0x80 != 0),
        flag(machine.sbc().status, OVERFLOW) == (((machine.a ^ machine.sbc().a) & (machine.value
            ^ machine.sbc().a)) & 0x80 != 0),
        same_flag(machine, machine.sbc(), INTERRUPT),
        same_flag(machine, machine.sbc(), DECIMAL),
        same_flag(machine, machine.sbc(), BRK),
{
    let difference = machine.a - machine.value - (1 - machine.carry());
    let result = wrap8(difference);
    let carried = machine.flagged(CARRY, 0 <= difference <= 0xff);
    let landed = Machine { a: result, ..carried };
    let overflow = ((machine.a ^ result) & (machine.value ^ result)) & 0x80 != 0;
    flag_write(machine.status, CARRY, 0 <= difference <= 0xff, INTERRUPT);
    flag_write(machine.status, CARRY, 0 <= difference <= 0xff, DECIMAL);
    flag_write(machine.status, CARRY, 0 <= difference <= 0xff, BRK);
    result_flags(landed, result);
    flag_write(landed.nz(result).status, OVERFLOW, overflow, CARRY);
    flag_write(landed.nz(result).status, OVERFLOW, overflow, ZERO);
    flag_write(landed.nz(result).status, OVERFLOW, overflow, SIGN);
    flag_write(landed.nz(result).status, OVERFLOW, overflow, INTERRUPT);
    flag_write(landed.nz(result).status, OVERFLOW, overflow, DECIMAL);
    flag_write(landed.nz(result).status, OVERFLOW, overflow, BRK);
}

/// A comparison of any register with any operand: carry says the register
/// is not below the operand, zero that they are equal, sign that the
/// register is below the operand. Overflow is untouched.
pub proof fn compare_flags(machine: Machine, register: u8)
    ensures
        flag(machine.compared(register).status, CARRY) == (register >= machine.value),
        flag(machine.compared(register).status, ZERO) == (register == machine.value),
        flag(machine.compared(register).status, SIGN) == (register < machine.value),
        same_flag(machine, machine.compared(register), OVERFLOW),
        machine.cmp() == machine.compared(machine.a),
        machine.cpx() == machine.compared(machine.x),
        machine.cpy() == machine.compared(machine.y),
{
    let first = with_flag(machine.status, CARRY, register >= machine.value);
    let second = with_flag(first, ZERO, register == machine.value);
    flag_write(machine.status, CARRY, register >= machine.value, OVERFLOW);
    flag_write(first, ZERO, register == machine.value, CARRY);
    flag_write(first, ZERO, register == machine.value, OVERFLOW);
    flag_write(second, SIGN, register < machine.value, CARRY);
    flag_write(second, SIGN, register < machine.value, ZERO);
    flag_write(second, SIGN, register < machine.value, OVERFLOW);
}

/// `BIT`, for every accumulator and operand: zero says that they share no
/// bit, sign is bit 7 of the operand and overflow is its bit 6.
pub proof fn bit_flags(machine: Machine)
    ensures
        flag(machine.bit().status, ZERO) == (machine.a & machine.value == 0),
        flag(machine.bit().status, SIGN) == (machine.value & 0x80 != 0),
        flag(machine.bit().status, OVERFLOW) == (machine.value & 0x40 != 0),
        same_flag(machine, machine.bit(), CARRY),
        machine.bit().a == machine.a,
{
    let first = with_flag(machine.status, ZERO, machine.a & machine.value == 0);
    let second = with_flag(first, SIGN, machine.value & 0x80 != 0);
    flag_write(machine.status, ZERO, machine.a & machine.value == 0, CARRY);
    flag_write(first, SIGN, machine.value & 0x80 != 0, ZERO);
    flag_write(first, SIGN, machine.value & 0x80 != 0, CARRY);
    flag_write(second, OVERFLOW, machine.value & 0x40 != 0, ZERO);
    flag_write(second, OVERFLOW, machine.value & 0x40 != 0, SIGN);
    flag_write(second, OVERFLOW, machine.value & 0x40 != 0, CARRY);
}

/// The flags that a shift or rotate leaves, whatever it shifted: carry is
/// `out`, the bit shifted out, and zero and sign follow `result`. Overflow
/// is untouched.
pub proof fn shifted_flags(machine: Machine, out: bool, result: u8)
    ensures
        flag(machine.flagged(CARRY, out).nz(result).status, CARRY) == out,
        flag(machine.flagged(CARRY, out).nz(result).status, ZERO) == (result == 0),
        flag(machine.flagged(CARRY, out).nz(result).status, SIGN) == (result & 0x80 != 0),
        same_flag(machine, machine.flagged(CARRY, out).nz(result), OVERFLOW),
{
    flag_write(machine.status, CARRY, out, OVERFLOW);
    result_flags(machine.flagged(CARRY, out), result);
}

/// The shifts and rotates of the accumulator, for every accumulator and
/// carry: what lands in the accumulator, and the flags.
pub proof fn accumulator_shift_flags(machine: Machine)
    ensures
        machine.asl_a().a == wrap8(machine.a * 2),
        machine.asl_a().status == machine.flagged(CARRY, machine.a & 0x80 != 0).nz(
            machine.asl_a().a,
        ).status,
        machine.lsr_a().a == machine.a / 2,
        machine.lsr_a().status == machine.flagged(CARRY, machine.a & 0x01 != 0).nz(
            machine.lsr_a().a,
        ).status,
        machine.rol_a().a == wrap8(machine.a * 2 + machine.carry()),
        machine.rol_a().status == machine.flagged(CARRY, machine.a & 0x80 != 0).nz(
            machine.rol_a().a,
        ).status,
        machine.ror_a().a == machine.a / 2 + 0x80 * machine.carry(),
        machine.ror_a().status == machine.flagged(CARRY, machine.a & 0x01 != 0).nz(
            machine.ror_a().a,
        ).status,
        flag(machine.asl_a().status, CARRY) == (machine.a & 0x80 != 0),
        flag(machine.asl_a().status, ZERO) == (machine.asl_a().a == 0),
        flag(machine.asl_a().status, SIGN) == (machine.asl_a().a & 0x80 != 0),
        same_flag(machine, machine.asl_a(), OVERFLOW),
        flag(machine.lsr_a().status, CARRY) == (machine.a & 0x01 != 0),
        flag(machine.lsr_a().status, ZERO) == (machine.lsr_a().a == 0),
        flag(machine.lsr_a().status, SIGN) == (machine.lsr_a().a & 0x80 != 0),
        same_flag(machine, machine.lsr_a(), OVERFLOW),
        flag(machine.rol_a().status, CARRY) == (machine.a & 0x80 != 0),
        flag(machine.rol_a().status, ZERO) == (machine.rol_a().a == 0),
        flag(machine.rol_a().status, SIGN) == (machine.rol_a().a & 0x80 != 0),
        same_flag(machine, machine.rol_a(), OVERFLOW),
        flag(machine.ror_a().status, CARRY) == (machine.a & 0x01 != 0),
        flag(machine.ror_a().status, ZERO) == (machine.ror_a().a == 0),
        flag(machine.ror_a().status, SIGN) == (machine.ror_a().a & 0x80 != 0),
        same_flag(machine, machine.ror_a(), OVERFLOW),
{
    shifted_flags(machine, machine.a & 0x80 != 0, machine.asl_a().a);
    shifted_flags(machine, machine.a & 0x01 != 0, machine.lsr_a().a);
    shifted_flags(machine, machine.a & 0x80 != 0, machine.rol_a().a);
    shifted_flags(machine, machine.a & 0x01 != 0, machine.ror_a().a);
}

/// The shifts and rotates of a memory cell, for every operand and carry:
/// what is written back, and the flags.
pub proof fn memory_shift_flags(machine: Machine)
    ensures
        machine.asl().bus == machine.bus.after_write(machine.addr, wrap8(machine.value * 2)),
        machine.asl().status == machine.flagged(CARRY, machine.value & 0x80 != 0).nz(
            wrap8(machine.value * 2),
        ).status,
        machine.lsr().bus == machine.bus.after_write(machine.addr, (machine.value / 2) as u8),
        machine.lsr().status == machine.flagged(CARRY, machine.value & 0x01 != 0).nz(
            (machine.value / 2) as u8,
        ).status,
        machine.rol().bus == machine.bus.after_write(
            machine.addr,
            wrap8(machine.value * 2 + machine.carry()),
        ),
        machine.rol().status == machine.flagged(CARRY, machine.value & 0x80 != 0).nz(
            wrap8(machine.value * 2 + machine.carry()),
        ).status,
        machine.ror().bus == machine.bus.after_write(
            machine.addr,
            (machine.value / 2 + 0x80 * machine.carry()) as u8,
        ),
        machine.ror().status == machine.flagged(CARRY, machine.value & 0x01 != 0).nz(
            (machine.value / 2 + 0x80 * machine.carry()) as u8,
        ).status,
        flag(machine.asl().status, CARRY) == (machine.value & 0x80 != 0),
        flag(machine.asl().status, ZERO) == (wrap8(machine.value * 2) == 0),
        flag(machine.asl().status, SIGN) == (wrap8(machine.value * 2) & 0x80 != 0),
        same_flag(machine, machine.asl(), OVERFLOW),
        flag(machine.lsr().status, CARRY) == (machine.value & 0x01 != 0),
        flag(machine.lsr().status, ZERO) == ((machine.value / 2) as u8 == 0),
        flag(machine.lsr().status, SIGN) == ((machine.value / 2) as u8 & 0x80 != 0),
        same_flag(machine, machine.lsr(), OVERFLOW),
        flag(machine.rol().status, CARRY) == (machine.value & 0x80 != 0),
        flag(machine.rol().status, ZERO) == (wrap8(machine.value * 2 + machine.carry()) == 0),
        flag(machine.rol().status, SIGN) == (wrap8(machine.value * 2 + machine.carry()) & 0x80
            != 0),
        same_flag(machine, machine.rol(), OVERFLOW),
        flag(machine.ror().status, CARRY) == (machine.value & 0x01 != 0),
        flag(machine.ror().status, ZERO) == ((machine.value / 2 + 0x80 * machine.carry()) as u8
            == 0),
        flag(machine.ror().status, SIGN) == ((machine.value / 2 + 0x80 * machine.carry()) as u8
            & 0x80 != 0),
        same_flag(machine, machine.ror(), OVERFLOW),
{
    shifted_flags(machine, machine.value & 0x80 != 0, wrap8(machine.value * 2));
    shifted_flags(machine, machine.value & 0x01 != 0, (machine.value / 2) as u8);
    shifted_flags(machine, machine.value & 0x80 != 0, wrap8(machine.value * 2 + machine.carry()));
    shifted_flags(
        machine,
        machine.value & 0x01 != 0,
        (machine.value / 2 + 0x80 * machine.carry()) as u8,
    );
}

/// The base cost of an addressing mode, in cycles.
pub open spec fn base_cycles(mode: Mode) -> nat {
    match mode {
        Mode::Implied => 2,
        Mode::Accumulator => 2,
        Mode::Immediate => 2,
        Mode::Relative => 2,
        Mode::Zeropage => 3,
        Mode::ZeropageX => 3,
        Mode::ZeropageY => 3,
        Mode::Absolute => 4,
        Mode::AbsoluteX => 4,
        Mode::AbsoluteY => 4,
        Mode::Indirect => 5,
        Mode::IndirectX => 6,
        Mode::IndirectY => 5,
        Mode::Invalid => 0,
    }
}

/// The cycle that the fetch of `mode` adds where indexing leaves the page,
/// from what the fetch reads.
pub open spec fn page_penalty(mode: Mode, machine: Machine) -> nat {
    match mode {
        Mode::AbsoluteX => crossing(
            machine.next_word(),
            wrap16(machine.next_word() + machine.x),
        ),
        Mode::AbsoluteY => crossing(
            machine.next_word(),
            wrap16(machine.next_word() + machine.y),
        ),
        Mode::IndirectY => crossing(
            machine.advanced().word_at(machine.next() as u16),
            wrap16(machine.advanced().word_at(machine.next() as u16) + machine.y),
        ),
        _ => 0,
    }
}

/// Whether `operation` is a branch that the flags in `status` take.
pub open spec fn branch_taken(operation: Operation, status: u8) -> bool {
    match operation {
        Operation::Beq => flag(status, ZERO),
        Operation::Bne => !flag(status, ZERO),
        Operation::Bmi => flag(status, SIGN),
        Operation::Bpl => !flag(status, SIGN),
        Operation::Bvs => flag(status, OVERFLOW),
        Operation::Bvc => !flag(status, OVERFLOW),
        Operation::Bcs => flag(status, CARRY),
        Operation::Bcc => !flag(status, CARRY),
        _ => false,
    }
}

/// The fetch of every addressing mode costs its base plus the page-crossing
/// cycle of the modes that have one.
pub proof fn fetch_cycles(machine: Machine, mode: Mode)
    requires
        !machine.fault,
    ensures
        machine.fetched(mode).ticks == machine.ticks + base_cycles(mode) + page_penalty(
            mode,
            machine,
        ),
        machine.fetched(mode).status == machine.status,
{
}

/// The work of an instruction costs one cycle where it is a branch that is
/// taken, and nothing otherwise.
pub proof fn execute_cycles(machine: Machine, operation: Operation)
    requires
        !machine.fault,
    ensures
        machine.executed(operation).ticks == machine.ticks + if branch_taken(
            operation,
            machine.status,
        ) {
            1nat
        } else {
            0nat
        },
{
}

/// A step costs the base of the addressing mode of its instruction, plus the
/// page-crossing cycle computed from what the fetch read, plus one cycle for
/// a branch that is taken.
pub proof fn step_cycles(machine: Machine)
    requires
        !machine.step().fault,
    ensures
        machine.step().ticks == machine.ticks + base_cycles(machine.decoded().opcode.fetch)
            + page_penalty(machine.decoded().opcode.fetch, machine.decoded()) + if branch_taken(
            machine.decoded().opcode.fun,
            machine.status,
        ) {
            1nat
        } else {
            0nat
        },
{
    let decoded = machine.decoded();
    fetch_cycles(decoded, decoded.opcode.fetch);
    let fetched = decoded.fetched(decoded.opcode.fetch);
    execute_cycles(fetched, decoded.opcode.fun);
}

/// The fetch of an assigned opcode ends without a fault on a bus that
/// answers every access, unless the cycle counter overflows; and the bus
/// still answers every access.
pub proof fn fetch_runs(machine: Machine, mode: Mode)
    requires
        !machine.fault,
        machine.bus.answers_all(),
        !(mode is Invalid),
        machine.ticks + 7 <= u64::MAX,
    ensures
        !machine.fetched(mode).fault,
        machine.fetched(mode).bus.answers_all(),
{
}

/// The work of every instruction ends without a fault on a bus that
/// answers every access, unless the cycle counter overflows.
pub proof fn execute_runs(machine: Machine, operation: Operation)
    requires
        !machine.fault,
        machine.bus.answers_all(),
        machine.ticks + 1 <= u64::MAX,
    ensures
        !machine.executed(operation).fault,
{
}

/// A step ends without a fault where the bus answers every access, the
/// opcode at the program counter is assigned and the cycle counter has
/// room for the step: nothing else can stop the processor.
pub proof fn step_runs(machine: Machine)
    requires
        !machine.fault,
        machine.bus.answers_all(),
        !(machine.decoded().opcode.fetch is Invalid),
        machine.ticks + 8 <= u64::MAX,
    ensures
        !machine.step().fault,
{
    let decoded = machine.decoded();
    assert((machine.bus.readable)(Seq::empty(), machine.pc));
    crate::lemma_answers_after(machine.bus, crate::Access::Read { address: machine.pc });
    fetch_runs(decoded, decoded.opcode.fetch);
    fetch_cycles(decoded, decoded.opcode.fetch);
    execute_runs(decoded.fetched(decoded.opcode.fetch), decoded.opcode.fun);
}

/// Raising a line ends without a fault where the bus answers every access
/// and the cycle counter has room for the interrupt.
pub proof fn raise_runs(machine: Machine, line: u16)
    requires
        !machine.fault,
        machine.bus.answers_all(),
        machine.ticks + 8 <= u64::MAX,
    ensures
        !machine.raised(line).fault,
{
}

} // verus!
