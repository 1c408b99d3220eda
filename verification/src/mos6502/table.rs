//! The opcode table: which instruction each opcode byte is.
use crate::mos6502::machine::Machine;
use crate::mos6502::{Mode, OpCode, Operation, ALWAYS_SET, INTERRUPT, MOS6502};
use crate::AddressBusIO;
use vstd::prelude::*;

verus! {

/// The entry of an opcode that no instruction is assigned to.
pub open spec fn unassigned() -> OpCode {
    OpCode { fetch: Mode::Invalid, fun: Operation::Nop, name: "-" }
}

/// The instruction that `code` is.
pub open spec fn documented(code: u8) -> OpCode {
    if code == 0x00 {
        OpCode { fetch: Mode::Implied, fun: Operation::Brk, name: "brk" }
    } else if code == 0x01 {
        OpCode { fetch: Mode::IndirectX, fun: Operation::Ora, name: "ora" }
    } else if code == 0x05 {
        OpCode { fetch: Mode::Zeropage, fun: Operation::Ora, name: "ora" }
    } else if code == 0x06 {
        OpCode { fetch: Mode::Zeropage, fun: Operation::Asl, name: "asl" }
    } else if code == 0x08 {
        OpCode { fetch: Mode::Implied, fun: Operation::Php, name: "php" }
    } else if code == 0x09 {
        OpCode { fetch: Mode::Immediate, fun: Operation::Ora, name: "ora" }
    } else if code == 0x0a {
        OpCode { fetch: Mode::Accumulator, fun: Operation::AslA, name: "asl_a" }
    } else if code == 0x0d {
        OpCode { fetch: Mode::Absolute, fun: Operation::Ora, name: "ora" }
    } else if code == 0x0e {
        OpCode { fetch: Mode::Absolute, fun: Operation::Asl, name: "asl" }
    } else if code == 0x10 {
        OpCode { fetch: Mode::Relative, fun: Operation::Bpl, name: "bpl" }
    } else if code == 0x11 {
        OpCode { fetch: Mode::IndirectY, fun: Operation::Ora, name: "ora" }
    } else if code == 0x15 {
        OpCode { fetch: Mode::ZeropageX, fun: Operation::Ora, name: "ora" }
    } else if code == 0x16 {
        OpCode { fetch: Mode::ZeropageX, fun: Operation::Asl, name: "asl" }
    } else if code == 0x18 {
        OpCode { fetch: Mode::Implied, fun: Operation::Clc, name: "clc" }
    } else if code == 0x19 {
        OpCode { fetch: Mode::AbsoluteY, fun: Operation::Ora, name: "ora" }
    } else if code == 0x1d {
        OpCode { fetch: Mode::AbsoluteX, fun: Operation::Ora, name: "ora" }
    } else if code == 0x1e {
        OpCode { fetch: Mode::AbsoluteX, fun: Operation::Asl, name: "asl" }
    } else if code == 0x20 {
        OpCode { fetch: Mode::Absolute, fun: Operation::Jsr, name: "jsr" }
    } else if code == 0x21 {
        OpCode { fetch: Mode::IndirectX, fun: Operation::And, name: "and" }
    } else if code == 0x24 {
        OpCode { fetch: Mode::Zeropage, fun: Operation::Bit, name: "bit" }
    } else if code == 0x25 {
        OpCode { fetch: Mode::Zeropage, fun: Operation::And, name: "and" }
    } else if code == 0x26 {
        OpCode { fetch: Mode::Zeropage, fun: Operation::Rol, name: "rol" }
    } else if code == 0x28 {
        OpCode { fetch: Mode::Implied, fun: Operation::Plp, name: "plp" }
    } else if code == 0x29 {
        OpCode { fetch: Mode::Immediate, fun: Operation::And, name: "and" }
    } else if code == 0x2a {
        OpCode { fetch: Mode::Accumulator, fun: Operation::RolA, name: "rol_a" }
    } else if code == 0x2c {
        OpCode { fetch: Mode::Absolute, fun: Operation::Bit, name: "bit" }
    } else if code == 0x2d {
        OpCode { fetch: Mode::Absolute, fun: Operation::And, name: "and" }
    } else if code == 0x2e {
        OpCode { fetch: Mode::Absolute, fun: Operation::Rol, name: "rol" }
    } else if code == 0x30 {
        OpCode { fetch: Mode::Relative, fun: Operation::Bmi, name: "bmi" }
    } else if code == 0x31 {
        OpCode { fetch: Mode::IndirectY, fun: Operation::And, name: "and" }
    } else if code == 0x35 {
        OpCode { fetch: Mode::ZeropageX, fun: Operation::And, name: "and" }
    } else if code == 0x36 {
        OpCode { fetch: Mode::ZeropageX, fun: Operation::Rol, name: "rol" }
    } else if code == 0x38 {
        OpCode { fetch: Mode::Implied, fun: Operation::Sec, name: "sec" }
    } else if code == 0x39 {
        OpCode { fetch: Mode::AbsoluteY, fun: Operation::And, name: "and" }
    } else if code == 0x3d {
        OpCode { fetch: Mode::AbsoluteX, fun: Operation::And, name: "and" }
    } else if code == 0x3e {
        OpCode { fetch: Mode::AbsoluteX, fun: Operation::Rol, name: "rol" }
    } else if code == 0x40 {
        OpCode { fetch: Mode::Implied, fun: Operation::Rti, name: "rti" }
    } else if code == 0x41 {
        OpCode { fetch: Mode::IndirectX, fun: Operation::Eor, name: "eor" }
    } else if code == 0x45 {
        OpCode { fetch: Mode::Zeropage, fun: Operation::Eor, name: "eor" }
    } else if code == 0x46 {
        OpCode { fetch: Mode::Zeropage, fun: Operation::Lsr, name: "lsr" }
    } else if code == 0x48 {
        OpCode { fetch: Mode::Implied, fun: Operation::Pha, name: "pha" }
    } else if code == 0x49 {
        OpCode { fetch: Mode::Immediate, fun: Operation::Eor, name: "eor" }
    } else if code == 0x4a {
        OpCode { fetch: Mode::Accumulator, fun: Operation::LsrA, name: "lsr_a" }
    } else if code == 0x4c {
        OpCode { fetch: Mode::Absolute, fun: Operation::Jmp, name: "jmp" }
    } else if code == 0x4d {
        OpCode { fetch: Mode::Absolute, fun: Operation::Eor, name: "eor" }
    } else if code == 0x4e {
        OpCode { fetch: Mode::Absolute, fun: Operation::Lsr, name: "lsr" }
    } else if code == 0x50 {
        OpCode { fetch: Mode::Relative, fun: Operation::Bvc, name: "bvc" }
    } else if code == 0x51 {
        OpCode { fetch: Mode::IndirectY, fun: Operation::Eor, name: "eor" }
    } else if code == 0x55 {
        OpCode { fetch: Mode::ZeropageX, fun: Operation::Eor, name: "eor" }
    } else if code == 0x56 {
        OpCode { fetch: Mode::ZeropageX, fun: Operation::Lsr, name: "lsr" }
    } else if code == 0x58 {
        OpCode { fetch: Mode::Implied, fun: Operation::Cli, name: "cli" }
    } else if code == 0x59 {
        OpCode { fetch: Mode::AbsoluteY, fun: Operation::Eor, name: "eor" }
    } else if code == 0x5d {
        OpCode { fetch: Mode::AbsoluteX, fun: Operation::Eor, name: "eor" }
    } else if code == 0x5e {
        OpCode { fetch: Mode::AbsoluteX, fun: Operation::Lsr, name: "lsr" }
    } else if code == 0x60 {
        OpCode { fetch: Mode::Implied, fun: Operation::Rts, name: "rts" }
    } else if code == 0x61 {
        OpCode { fetch: Mode::IndirectX, fun: Operation::Adc, name: "adc" }
    } else if code == 0x65 {
        OpCode { fetch: Mode::Zeropage, fun: Operation::Adc, name: "adc" }
    } else if code == 0x66 {
        OpCode { fetch: Mode::Zeropage, fun: Operation::Ror, name: "ror" }
    } else if code == 0x68 {
        OpCode { fetch: Mode::Implied, fun: Operation::Pla, name: "pla" }
    } else if code == 0x69 {
        OpCode { fetch: Mode::Immediate, fun: Operation::Adc, name: "adc" }
    } else if code == 0x6a {
        OpCode { fetch: Mode::Accumulator, fun: Operation::RorA, name: "ror_a" }
    } else if code == 0x6c {
        OpCode { fetch: Mode::Indirect, fun: Operation::Jmp, name: "jmp" }
    } else if code == 0x6d {
        OpCode { fetch: Mode::Absolute, fun: Operation::Adc, name: "adc" }
    } else if code == 0x6e {
        OpCode { fetch: Mode::Absolute, fun: Operation::Ror, name: "ror" }
    } else if code == 0x70 {
        OpCode { fetch: Mode::Relative, fun: Operation::Bvs, name: "bvs" }
    } else if code == 0x71 {
        OpCode { fetch: Mode::IndirectY, fun: Operation::Adc, name: "adc" }
    } else if code == 0x75 {
        OpCode { fetch: Mode::ZeropageX, fun: Operation::Adc, name: "adc" }
    } else if code == 0x76 {
        OpCode { fetch: Mode::ZeropageX, fun: Operation::Ror, name: "ror" }
    } else if code == 0x78 {
        OpCode { fetch: Mode::Implied, fun: Operation::Sei, name: "sei" }
    } else if code == 0x79 {
        OpCode { fetch: Mode::AbsoluteY, fun: Operation::Adc, name: "adc" }
    } else if code == 0x7d {
        OpCode { fetch: Mode::AbsoluteX, fun: Operation::Adc, name: "adc" }
    } else if code == 0x7e {
        OpCode { fetch: Mode::AbsoluteX, fun: Operation::Ror, name: "ror" }
    } else if code == 0x81 {
        OpCode { fetch: Mode::IndirectX, fun: Operation::Sta, name: "sta" }
    } else if code == 0x84 {
        OpCode { fetch: Mode::Zeropage, fun: Operation::Sty, name: "sty" }
    } else if code == 0x85 {
        OpCode { fetch: Mode::Zeropage, fun: Operation::Sta, name: "sta" }
    } else if code == 0x86 {
        OpCode { fetch: Mode::Zeropage, fun: Operation::Stx, name: "stx" }
    } else if code == 0x88 {
        OpCode { fetch: Mode::Implied, fun: Operation::Dey, name: "dey" }
    } else if code == 0x8a {
        OpCode { fetch: Mode::Implied, fun: Operation::Txa, name: "txa" }
    } else if code == 0x8c {
        OpCode { fetch: Mode::Absolute, fun: Operation::Sty, name: "sty" }
    } else if code == 0x8d {
        OpCode { fetch: Mode::Absolute, fun: Operation::Sta, name: "sta" }
    } else if code == 0x8e {
        OpCode { fetch: Mode::Absolute, fun: Operation::Stx, name: "stx" }
    } else if code == 0x90 {
        OpCode { fetch: Mode::Relative, fun: Operation::Bcc, name: "bcc" }
    } else if code == 0x91 {
        OpCode { fetch: Mode::IndirectY, fun: Operation::Sta, name: "sta" }
    } else if code == 0x94 {
        OpCode { fetch: Mode::ZeropageX, fun: Operation::Sty, name: "sty" }
    } else if code == 0x95 {
        OpCode { fetch: Mode::ZeropageX, fun: Operation::Sta, name: "sta" }
    } else if code == 0x96 {
        OpCode { fetch: Mode::ZeropageX, fun: Operation::Stx, name: "stx" }
    } else if code == 0x98 {
        OpCode { fetch: Mode::Implied, fun: Operation::Tya, name: "tya" }
    } else if code == 0x99 {
        OpCode { fetch: Mode::AbsoluteY, fun: Operation::Sta, name: "sta" }
    } else if code == 0x9a {
        OpCode { fetch: Mode::Implied, fun: Operation::Txs, name: "txs" }
    } else if code == 0x9d {
        OpCode { fetch: Mode::AbsoluteX, fun: Operation::Sta, name: "sta" }
    } else if code == 0xa0 {
        OpCode { fetch: Mode::Immediate, fun: Operation::Ldy, name: "ldy" }
    } else if code == 0xa1 {
        OpCode { fetch: Mode::IndirectX, fun: Operation::Lda, name: "lda" }
    } else if code == 0xa2 {
        OpCode { fetch: Mode::Immediate, fun: Operation::Ldx, name: "ldx" }
    } else if code == 0xa4 {
        OpCode { fetch: Mode::Zeropage, fun: Operation::Ldy, name: "ldy" }
    } else if code == 0xa5 {
        OpCode { fetch: Mode::Zeropage, fun: Operation::Lda, name: "lda" }
    } else if code == 0xa6 {
        OpCode { fetch: Mode::Zeropage, fun: Operation::Ldx, name: "ldx" }
    } else if code == 0xa8 {
        OpCode { fetch: Mode::Implied, fun: Operation::Tay, name: "tay" }
    } else if code == 0xa9 {
        OpCode { fetch: Mode::Immediate, fun: Operation::Lda, name: "lda" }
    } else if code == 0xaa {
        OpCode { fetch: Mode::Implied, fun: Operation::Tax, name: "tax" }
    } else if code == 0xac {
        OpCode { fetch: Mode::Absolute, fun: Operation::Ldy, name: "ldy" }
    } else if code == 0xad {
        OpCode { fetch: Mode::Absolute, fun: Operation::Lda, name: "lda" }
    } else if code == 0xae {
        OpCode { fetch: Mode::Absolute, fun: Operation::Ldx, name: "ldx" }
    } else if code == 0xb0 {
        OpCode { fetch: Mode::Relative, fun: Operation::Bcs, name: "bcs" }
    } else if code == 0xb1 {
        OpCode { fetch: Mode::IndirectY, fun: Operation::Lda, name: "lda" }
    } else if code == 0xb4 {
        OpCode { fetch: Mode::ZeropageX, fun: Operation::Ldy, name: "ldy" }
    } else if code == 0xb5 {
        OpCode { fetch: Mode::ZeropageX, fun: Operation::Lda, name: "lda" }
    } else if code == 0xb6 {
        OpCode { fetch: Mode::ZeropageY, fun: Operation::Ldx, name: "ldx" }
    } else if code == 0xb8 {
        OpCode { fetch: Mode::Implied, fun: Operation::Clv, name: "clv" }
    } else if code == 0xb9 {
        OpCode { fetch: Mode::AbsoluteY, fun: Operation::Lda, name: "lda" }
    } else if code == 0xba {
        OpCode { fetch: Mode::Implied, fun: Operation::Tsx, name: "tsx" }
    } else if code == 0xbc {
        OpCode { fetch: Mode::AbsoluteX, fun: Operation::Ldy, name: "ldy" }
    } else if code == 0xbd {
        OpCode { fetch: Mode::AbsoluteX, fun: Operation::Lda, name: "lda" }
    } else if code == 0xbe {
        OpCode { fetch: Mode::AbsoluteY, fun: Operation::Ldx, name: "ldx" }
    } else if code == 0xc0 {
        OpCode { fetch: Mode::Immediate, fun: Operation::Cpy, name: "cpy" }
    } else if code == 0xc1 {
        OpCode { fetch: Mode::IndirectX, fun: Operation::Cmp, name: "cmp" }
    } else if code == 0xc4 {
        OpCode { fetch: Mode::Zeropage, fun: Operation::Cpy, name: "cpy" }
    } else if code == 0xc5 {
        OpCode { fetch: Mode::Zeropage, fun: Operation::Cmp, name: "cmp" }
    } else if code == 0xc6 {
        OpCode { fetch: Mode::Zeropage, fun: Operation::Dec, name: "dec" }
    } else if code == 0xc8 {
        OpCode { fetch: Mode::Implied, fun: Operation::Iny, name: "iny" }
    } else if code == 0xc9 {
        OpCode { fetch: Mode::Immediate, fun: Operation::Cmp, name: "cmp" }
    } else if code == 0xca {
        OpCode { fetch: Mode::Implied, fun: Operation::Dex, name: "dex" }
    } else if code == 0xcc {
        OpCode { fetch: Mode::Absolute, fun: Operation::Cpy, name: "cpy" }
    } else if code == 0xcd {
        OpCode { fetch: Mode::Absolute, fun: Operation::Cmp, name: "cmp" }
    } else if code == 0xce {
        OpCode { fetch: Mode::Absolute, fun: Operation::Dec, name: "dec" }
    } else if code == 0xd0 {
        OpCode { fetch: Mode::Relative, fun: Operation::Bne, name: "bne" }
    } else if code == 0xd1 {
        OpCode { fetch: Mode::IndirectY, fun: Operation::Cmp, name: "cmp" }
    } else if code == 0xd5 {
        OpCode { fetch: Mode::ZeropageX, fun: Operation::Cmp, name: "cmp" }
    } else if code == 0xd6 {
        OpCode { fetch: Mode::ZeropageX, fun: Operation::Dec, name: "dec" }
    } else if code == 0xd8 {
        OpCode { fetch: Mode::Implied, fun: Operation::Cld, name: "cld" }
    } else if code == 0xd9 {
        OpCode { fetch: Mode::AbsoluteY, fun: Operation::Cmp, name: "cmp" }
    } else if code == 0xdd {
        OpCode { fetch: Mode::AbsoluteX, fun: Operation::Cmp, name: "cmp" }
    } else if code == 0xde {
        OpCode { fetch: Mode::AbsoluteX, fun: Operation::Dec, name: "dec" }
    } else if code == 0xe0 {
        OpCode { fetch: Mode::Immediate, fun: Operation::Cpx, name: "cpx" }
    } else if code == 0xe1 {
        OpCode { fetch: Mode::IndirectX, fun: Operation::Sbc, name: "sbc" }
    } else if code == 0xe4 {
        OpCode { fetch: Mode::Zeropage, fun: Operation::Cpx, name: "cpx" }
    } else if code == 0xe5 {
        OpCode { fetch: Mode::Zeropage, fun: Operation::Sbc, name: "sbc" }
    } else if code == 0xe6 {
        OpCode { fetch: Mode::Zeropage, fun: Operation::Inc, name: "inc" }
    } else if code == 0xe8 {
        OpCode { fetch: Mode::Implied, fun: Operation::Inx, name: "inx" }
    } else if code == 0xe9 {
        OpCode { fetch: Mode::Immediate, fun: Operation::Sbc, name: "sbc" }
    } else if code == 0xea {
        OpCode { fetch: Mode::Implied, fun: Operation::Nop, name: "nop" }
    } else if code == 0xec {
        OpCode { fetch: Mode::Absolute, fun: Operation::Cpx, name: "cpx" }
    } else if code == 0xed {
        OpCode { fetch: Mode::Absolute, fun: Operation::Sbc, name: "sbc" }
    } else if code == 0xee {
        OpCode { fetch: Mode::Absolute, fun: Operation::Inc, name: "inc" }
    } else if code == 0xf0 {
        OpCode { fetch: Mode::Relative, fun: Operation::Beq, name: "beq" }
    } else if code == 0xf1 {
        OpCode { fetch: Mode::IndirectY, fun: Operation::Sbc, name: "sbc" }
    } else if code == 0xf5 {
        OpCode { fetch: Mode::ZeropageX, fun: Operation::Sbc, name: "sbc" }
    } else if code == 0xf6 {
        OpCode { fetch: Mode::ZeropageX, fun: Operation::Inc, name: "inc" }
    } else if code == 0xf8 {
        OpCode { fetch: Mode::Implied, fun: Operation::Sed, name: "sed" }
    } else if code == 0xf9 {
        OpCode { fetch: Mode::AbsoluteY, fun: Operation::Sbc, name: "sbc" }
    } else if code == 0xfd {
        OpCode { fetch: Mode::AbsoluteX, fun: Operation::Sbc, name: "sbc" }
    } else if code == 0xfe {
        OpCode { fetch: Mode::AbsoluteX, fun: Operation::Inc, name: "inc" }
    } else {
        unassigned()
    }
}

/// The whole table, by opcode.
pub open spec fn table() -> Seq<OpCode> {
    Seq::new(256, |code: int| documented(code as u8))
}

/// Looks `code` up among the documented instructions.
pub fn instruction(code: u8) -> (entry: OpCode)
    ensures
        entry == documented(code),
{
    match code {
        0x69 => OpCode { fetch: Mode::Immediate, fun: Operation::Adc, name: "adc" },
        0x65 => OpCode { fetch: Mode::Zeropage, fun: Operation::Adc, name: "adc" },
        0x75 => OpCode { fetch: Mode::ZeropageX, fun: Operation::Adc, name: "adc" },
        0x6d => OpCode { fetch: Mode::Absolute, fun: Operation::Adc, name: "adc" },
        0x7d => OpCode { fetch: Mode::AbsoluteX, fun: Operation::Adc, name: "adc" },
        0x79 => OpCode { fetch: Mode::AbsoluteY, fun: Operation::Adc, name: "adc" },
        0x61 => OpCode { fetch: Mode::IndirectX, fun: Operation::Adc, name: "adc" },
        0x71 => OpCode { fetch: Mode::IndirectY, fun: Operation::Adc, name: "adc" },
        0x24 => OpCode { fetch: Mode::Zeropage, fun: Operation::Bit, name: "bit" },
        0x2c => OpCode { fetch: Mode::Absolute, fun: Operation::Bit, name: "bit" },
        0x29 => OpCode { fetch: Mode::Immediate, fun: Operation::And, name: "and" },
        0x25 => OpCode { fetch: Mode::Zeropage, fun: Operation::And, name: "and" },
        0x35 => OpCode { fetch: Mode::ZeropageX, fun: Operation::And, name: "and" },
        0x2d => OpCode { fetch: Mode::Absolute, fun: Operation::And, name: "and" },
        0x3d => OpCode { fetch: Mode::AbsoluteX, fun: Operation::And, name: "and" },
        0x39 => OpCode { fetch: Mode::AbsoluteY, fun: Operation::And, name: "and" },
        0x21 => OpCode { fetch: Mode::IndirectX, fun: Operation::And, name: "and" },
        0x31 => OpCode { fetch: Mode::IndirectY, fun: Operation::And, name: "and" },
        0x0a => OpCode { fetch: Mode::Accumulator, fun: Operation::AslA, name: "asl_a" },
        0x4a => OpCode { fetch: Mode::Accumulator, fun: Operation::LsrA, name: "lsr_a" },
        0x06 => OpCode { fetch: Mode::Zeropage, fun: Operation::Asl, name: "asl" },
        0x16 => OpCode { fetch: Mode::ZeropageX, fun: Operation::Asl, name: "asl" },
        0x0e => OpCode { fetch: Mode::Absolute, fun: Operation::Asl, name: "asl" },
        0x1e => OpCode { fetch: Mode::AbsoluteX, fun: Operation::Asl, name: "asl" },
        0x49 => OpCode { fetch: Mode::Immediate, fun: Operation::Eor, name: "eor" },
        0x45 => OpCode { fetch: Mode::Zeropage, fun: Operation::Eor, name: "eor" },
        0x55 => OpCode { fetch: Mode::ZeropageX, fun: Operation::Eor, name: "eor" },
        0x4d => OpCode { fetch: Mode::Absolute, fun: Operation::Eor, name: "eor" },
        0x5d => OpCode { fetch: Mode::AbsoluteX, fun: Operation::Eor, name: "eor" },
        0x59 => OpCode { fetch: Mode::AbsoluteY, fun: Operation::Eor, name: "eor" },
        0x41 => OpCode { fetch: Mode::IndirectX, fun: Operation::Eor, name: "eor" },
        0x51 => OpCode { fetch: Mode::IndirectY, fun: Operation::Eor, name: "eor" },
        0x46 => OpCode { fetch: Mode::Zeropage, fun: Operation::Lsr, name: "lsr" },
        0x56 => OpCode { fetch: Mode::ZeropageX, fun: Operation::Lsr, name: "lsr" },
        0x4e => OpCode { fetch: Mode::Absolute, fun: Operation::Lsr, name: "lsr" },
        0x5e => OpCode { fetch: Mode::AbsoluteX, fun: Operation::Lsr, name: "lsr" },
        0x09 => OpCode { fetch: Mode::Immediate, fun: Operation::Ora, name: "ora" },
        0x05 => OpCode { fetch: Mode::Zeropage, fun: Operation::Ora, name: "ora" },
        0x15 => OpCode { fetch: Mode::ZeropageX, fun: Operation::Ora, name: "ora" },
        0x0d => OpCode { fetch: Mode::Absolute, fun: Operation::Ora, name: "ora" },
        0x1d => OpCode { fetch: Mode::AbsoluteX, fun: Operation::Ora, name: "ora" },
        0x19 => OpCode { fetch: Mode::AbsoluteY, fun: Operation::Ora, name: "ora" },
        0x01 => OpCode { fetch: Mode::IndirectX, fun: Operation::Ora, name: "ora" },
        0x11 => OpCode { fetch: Mode::IndirectY, fun: Operation::Ora, name: "ora" },
        0x10 => OpCode { fetch: Mode::Relative, fun: Operation::Bpl, name: "bpl" },
        0x30 => OpCode { fetch: Mode::Relative, fun: Operation::Bmi, name: "bmi" },
        0x50 => OpCode { fetch: Mode::Relative, fun: Operation::Bvc, name: "bvc" },
        0x70 => OpCode { fetch: Mode::Relative, fun: Operation::Bvs, name: "bvs" },
        0xf0 => OpCode { fetch: Mode::Relative, fun: Operation::Beq, name: "beq" },
        0xd0 => OpCode { fetch: Mode::Relative, fun: Operation::Bne, name: "bne" },
        0x90 => OpCode { fetch: Mode::Relative, fun: Operation::Bcc, name: "bcc" },
        0xb0 => OpCode { fetch: Mode::Relative, fun: Operation::Bcs, name: "bcs" },
        0x00 => OpCode { fetch: Mode::Implied, fun: Operation::Brk, name: "brk" },
        0xc9 => OpCode { fetch: Mode::Immediate, fun: Operation::Cmp, name: "cmp" },
        0xc5 => OpCode { fetch: Mode::Zeropage, fun: Operation::Cmp, name: "cmp" },
        0xd5 => OpCode { fetch: Mode::ZeropageX, fun: Operation::Cmp, name: "cmp" },
        0xcd => OpCode { fetch: Mode::Absolute, fun: Operation::Cmp, name: "cmp" },
        0xdd => OpCode { fetch: Mode::AbsoluteX, fun: Operation::Cmp, name: "cmp" },
        0xd9 => OpCode { fetch: Mode::AbsoluteY, fun: Operation::Cmp, name: "cmp" },
        0xc1 => OpCode { fetch: Mode::IndirectX, fun: Operation::Cmp, name: "cmp" },
        0xd1 => OpCode { fetch: Mode::IndirectY, fun: Operation::Cmp, name: "cmp" },
        0xe0 => OpCode { fetch: Mode::Immediate, fun: Operation::Cpx, name: "cpx" },
        0xe4 => OpCode { fetch: Mode::Zeropage, fun: Operation::Cpx, name: "cpx" },
        0xec => OpCode { fetch: Mode::Absolute, fun: Operation::Cpx, name: "cpx" },
        0xc0 => OpCode { fetch: Mode::Immediate, fun: Operation::Cpy, name: "cpy" },
        0xc4 => OpCode { fetch: Mode::Zeropage, fun: Operation::Cpy, name: "cpy" },
        0xcc => OpCode { fetch: Mode::Absolute, fun: Operation::Cpy, name: "cpy" },
        0xc6 => OpCode { fetch: Mode::Zeropage, fun: Operation::Dec, name: "dec" },
        0xd6 => OpCode { fetch: Mode::ZeropageX, fun: Operation::Dec, name: "dec" },
        0xce => OpCode { fetch: Mode::Absolute, fun: Operation::Dec, name: "dec" },
        0xde => OpCode { fetch: Mode::AbsoluteX, fun: Operation::Dec, name: "dec" },
        0xe6 => OpCode { fetch: Mode::Zeropage, fun: Operation::Inc, name: "inc" },
        0xf6 => OpCode { fetch: Mode::ZeropageX, fun: Operation::Inc, name: "inc" },
        0xee => OpCode { fetch: Mode::Absolute, fun: Operation::Inc, name: "inc" },
        0xfe => OpCode { fetch: Mode::AbsoluteX, fun: Operation::Inc, name: "inc" },
        0x18 => OpCode { fetch: Mode::Implied, fun: Operation::Clc, name: "clc" },
        0x38 => OpCode { fetch: Mode::Implied, fun: Operation::Sec, name: "sec" },
        0x58 => OpCode { fetch: Mode::Implied, fun: Operation::Cli, name: "cli" },
        0x78 => OpCode { fetch: Mode::Implied, fun: Operation::Sei, name: "sei" },
        0xb8 => OpCode { fetch: Mode::Implied, fun: Operation::Clv, name: "clv" },
        0xd8 => OpCode { fetch: Mode::Implied, fun: Operation::Cld, name: "cld" },
        0xf8 => OpCode { fetch: Mode::Implied, fun: Operation::Sed, name: "sed" },
        0x4c => OpCode { fetch: Mode::Absolute, fun: Operation::Jmp, name: "jmp" },
        0x6c => OpCode { fetch: Mode::Indirect, fun: Operation::Jmp, name: "jmp" },
        0x20 => OpCode { fetch: Mode::Absolute, fun: Operation::Jsr, name: "jsr" },
        0xa9 => OpCode { fetch: Mode::Immediate, fun: Operation::Lda, name: "lda" },
        0xa5 => OpCode { fetch: Mode::Zeropage, fun: Operation::Lda, name: "lda" },
        0xb5 => OpCode { fetch: Mode::ZeropageX, fun: Operation::Lda, name: "lda" },
        0xad => OpCode { fetch: Mode::Absolute, fun: Operation::Lda, name: "lda" },
        0xbd => OpCode { fetch: Mode::AbsoluteX, fun: Operation::Lda, name: "lda" },
        0xb9 => OpCode { fetch: Mode::AbsoluteY, fun: Operation::Lda, name: "lda" },
        0xa1 => OpCode { fetch: Mode::IndirectX, fun: Operation::Lda, name: "lda" },
        0xb1 => OpCode { fetch: Mode::IndirectY, fun: Operation::Lda, name: "lda" },
        0xa2 => OpCode { fetch: Mode::Immediate, fun: Operation::Ldx, name: "ldx" },
        0xa6 => OpCode { fetch: Mode::Zeropage, fun: Operation::Ldx, name: "ldx" },
        0xb6 => OpCode { fetch: Mode::ZeropageY, fun: Operation::Ldx, name: "ldx" },
        0xae => OpCode { fetch: Mode::Absolute, fun: Operation::Ldx, name: "ldx" },
        0xbe => OpCode { fetch: Mode::AbsoluteY, fun: Operation::Ldx, name: "ldx" },
        0xa0 => OpCode { fetch: Mode::Immediate, fun: Operation::Ldy, name: "ldy" },
        0xa4 => OpCode { fetch: Mode::Zeropage, fun: Operation::Ldy, name: "ldy" },
        0xb4 => OpCode { fetch: Mode::ZeropageX, fun: Operation::Ldy, name: "ldy" },
        0xac => OpCode { fetch: Mode::Absolute, fun: Operation::Ldy, name: "ldy" },
        0xbc => OpCode { fetch: Mode::AbsoluteX, fun: Operation::Ldy, name: "ldy" },
        0xea => OpCode { fetch: Mode::Implied, fun: Operation::Nop, name: "nop" },
        0xaa => OpCode { fetch: Mode::Implied, fun: Operation::Tax, name: "tax" },
        0x8a => OpCode { fetch: Mode::Implied, fun: Operation::Txa, name: "txa" },
        0xca => OpCode { fetch: Mode::Implied, fun: Operation::Dex, name: "dex" },
        0xe8 => OpCode { fetch: Mode::Implied, fun: Operation::Inx, name: "inx" },
        0xa8 => OpCode { fetch: Mode::Implied, fun: Operation::Tay, name: "tay" },
        0x98 => OpCode { fetch: Mode::Implied, fun: Operation::Tya, name: "tya" },
        0x88 => OpCode { fetch: Mode::Implied, fun: Operation::Dey, name: "dey" },
        0xc8 => OpCode { fetch: Mode::Implied, fun: Operation::Iny, name: "iny" },
        0x60 => OpCode { fetch: Mode::Implied, fun: Operation::Rts, name: "rts" },
        0x40 => OpCode { fetch: Mode::Implied, fun: Operation::Rti, name: "rti" },
        0xe9 => OpCode { fetch: Mode::Immediate, fun: Operation::Sbc, name: "sbc" },
        0xe5 => OpCode { fetch: Mode::Zeropage, fun: Operation::Sbc, name: "sbc" },
        0xf5 => OpCode { fetch: Mode::ZeropageX, fun: Operation::Sbc, name: "sbc" },
        0xed => OpCode { fetch: Mode::Absolute, fun: Operation::Sbc, name: "sbc" },
        0xfd => OpCode { fetch: Mode::AbsoluteX, fun: Operation::Sbc, name: "sbc" },
        0xf9 => OpCode { fetch: Mode::AbsoluteY, fun: Operation::Sbc, name: "sbc" },
        0xe1 => OpCode { fetch: Mode::IndirectX, fun: Operation::Sbc, name: "sbc" },
        0xf1 => OpCode { fetch: Mode::IndirectY, fun: Operation::Sbc, name: "sbc" },
        0x85 => OpCode { fetch: Mode::Zeropage, fun: Operation::Sta, name: "sta" },
        0x95 => OpCode { fetch: Mode::ZeropageX, fun: Operation::Sta, name: "sta" },
        0x8d => OpCode { fetch: Mode::Absolute, fun: Operation::Sta, name: "sta" },
        0x9d => OpCode { fetch: Mode::AbsoluteX, fun: Operation::Sta, name: "sta" },
        0x99 => OpCode { fetch: Mode::AbsoluteY, fun: Operation::Sta, name: "sta" },
        0x81 => OpCode { fetch: Mode::IndirectX, fun: Operation::Sta, name: "sta" },
        0x91 => OpCode { fetch: Mode::IndirectY, fun: Operation::Sta, name: "sta" },
        0x86 => OpCode { fetch: Mode::Zeropage, fun: Operation::Stx, name: "stx" },
        0x96 => OpCode { fetch: Mode::ZeropageX, fun: Operation::Stx, name: "stx" },
        0x8e => OpCode { fetch: Mode::Absolute, fun: Operation::Stx, name: "stx" },
        0x84 => OpCode { fetch: Mode::Zeropage, fun: Operation::Sty, name: "sty" },
        0x94 => OpCode { fetch: Mode::ZeropageX, fun: Operation::Sty, name: "sty" },
        0x8c => OpCode { fetch: Mode::Absolute, fun: Operation::Sty, name: "sty" },
        0x9a => OpCode { fetch: Mode::Implied, fun: Operation::Txs, name: "txs" },
        0xba => OpCode { fetch: Mode::Implied, fun: Operation::Tsx, name: "tsx" },
        0x48 => OpCode { fetch: Mode::Implied, fun: Operation::Pha, name: "pha" },
        0x68 => OpCode { fetch: Mode::Implied, fun: Operation::Pla, name: "pla" },
        0x08 => OpCode { fetch: Mode::Implied, fun: Operation::Php, name: "php" },
        0x28 => OpCode { fetch: Mode::Implied, fun: Operation::Plp, name: "plp" },
        0x2a => OpCode { fetch: Mode::Accumulator, fun: Operation::RolA, name: "rol_a" },
        0x26 => OpCode { fetch: Mode::Zeropage, fun: Operation::Rol, name: "rol" },
        0x36 => OpCode { fetch: Mode::ZeropageX, fun: Operation::Rol, name: "rol" },
        0x2e => OpCode { fetch: Mode::Absolute, fun: Operation::Rol, name: "rol" },
        0x3e => OpCode { fetch: Mode::AbsoluteX, fun: Operation::Rol, name: "rol" },
        0x6a => OpCode { fetch: Mode::Accumulator, fun: Operation::RorA, name: "ror_a" },
        0x66 => OpCode { fetch: Mode::Zeropage, fun: Operation::Ror, name: "ror" },
        0x76 => OpCode { fetch: Mode::ZeropageX, fun: Operation::Ror, name: "ror" },
        0x6e => OpCode { fetch: Mode::Absolute, fun: Operation::Ror, name: "ror" },
        0x7e => OpCode { fetch: Mode::AbsoluteX, fun: Operation::Ror, name: "ror" },
        _ => OpCode { fetch: Mode::Invalid, fun: Operation::Nop, name: "-" },
    }
}

impl<T: AddressBusIO<u16, u8>> MOS6502<T> {
    /// A processor attached to `bus`, with the registers zeroed but for the
    /// stack pointer at `$FF` and the status with the interrupt-disable flag
    /// set, and with every documented instruction registered. The program
    /// counter is zero: the caller sets it, or raises a reset.
    pub fn new(bus: T) -> (cpu: MOS6502<T>)
        ensures
            cpu@ == Machine::initial(crate::image(&bus)),
    {
        let noop = OpCode { fetch: Mode::Invalid, fun: Operation::Nop, name: "-" };
        let mut opcodes: Vec<OpCode> = Vec::new();
        let mut count: usize = 0;
        while count < 256
            invariant
                count <= 256,
                opcodes@.len() == count,
                noop == unassigned(),
            decreases 256 - count,
        {
            opcodes.push(noop);
            count = count + 1;
        }
        let mut cpu = MOS6502 {
            a: 0,
            x: 0,
            y: 0,
            pc: 0,
            sp: 0xff,
            value: 0,
            addr: 0,
            ticks: 0,
            opcode: noop,
            current_opcode: 0,
            debug_pc: 0,
            debug_line: String::new(),
            opcodes,
            code_breakpoint: false,
            requested_code_breakpoint: false,
            debug: false,
            status: ALWAYS_SET | INTERRUPT,
            bus,
        };
        let ghost blank = cpu@;
        let mut code: u8 = 0;
        loop
            invariant_except_break
                cpu@ == (Machine { opcodes: cpu@.opcodes, ..blank }),
                cpu@.opcodes.len() == 256,
                forall|i: int| 0 <= i < code ==> cpu@.opcodes[i] == documented(i as u8),
            ensures
                cpu@ == (Machine { opcodes: cpu@.opcodes, ..blank }),
                cpu@.opcodes.len() == 256,
                forall|i: int| 0 <= i < 256 ==> cpu@.opcodes[i] == documented(i as u8),
            decreases 256 - code,
        {
            let entry = instruction(code);
            cpu.register_opcode(entry.name, entry.fun, code, entry.fetch);
            if code == 0xff {
                break ;
            }
            code = code + 1;
        }
        assert(cpu@.opcodes =~= table());
        cpu
    }

    /// Assigns the instruction `fun` with the fetch `fetch` to the opcode
    /// `code`.
    pub fn register_opcode(&mut self, name: &'static str, fun: Operation, code: u8, fetch: Mode)
        requires
            old(self).opcodes@.len() == 256,
        ensures
            final(self)@ == (Machine {
                opcodes: old(self)@.opcodes.update(code as int, OpCode { fetch, fun, name }),
                ..old(self)@
            }),
    {
        self.opcodes.set(code as usize, OpCode { fetch, fun, name });
    }
}

} // verus!
