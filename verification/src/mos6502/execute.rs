//! The instructions: what each does with the operand that was fetched.
use crate::mos6502::bits::{
    lemma_rotate_left, lemma_rotate_right, lemma_shift_left, lemma_shift_right,
};
use crate::mos6502::{
    Operation, ALWAYS_SET, BRK, CARRY, DECIMAL, INTERRUPT, MOS6502, OVERFLOW, SIGN, ZERO,
};
use crate::AddressBusIO;
use vstd::prelude::*;

verus! {

impl<T: AddressBusIO<u16, u8>> MOS6502<T> {
    /// Sets the zero and sign flags from `result`.
    pub fn set_nz(&mut self, result: u8)
        ensures
            final(self)@ == old(self)@.nz(result),
    {
        self.set_flag(ZERO, result == 0);
        self.set_flag(SIGN, result & 0x80 != 0);
    }

    pub fn lda(&mut self)
        ensures
            final(self)@ == old(self)@.lda(),
    {
        let a = self.value;
        self.a = a;
        self.set_nz(a);
    }

    pub fn ldx(&mut self)
        ensures
            final(self)@ == old(self)@.ldx(),
    {
        let x = self.value;
        self.x = x;
        self.set_nz(x);
    }

    pub fn ldy(&mut self)
        ensures
            final(self)@ == old(self)@.ldy(),
    {
        let y = self.value;
        self.y = y;
        self.set_nz(y);
    }

    pub fn sta(&mut self)
        requires
            !old(self)@.sta().fault,
        ensures
            final(self)@ == old(self)@.sta(),
    {
        let addr = self.addr;
        let a = self.a;
        self.write8(addr, a);
    }

    pub fn stx(&mut self)
        requires
            !old(self)@.stx().fault,
        ensures
            final(self)@ == old(self)@.stx(),
    {
        let addr = self.addr;
        let x = self.x;
        self.write8(addr, x);
    }

    pub fn sty(&mut self)
        requires
            !old(self)@.sty().fault,
        ensures
            final(self)@ == old(self)@.sty(),
    {
        let addr = self.addr;
        let y = self.y;
        self.write8(addr, y);
    }

    pub fn tax(&mut self)
        ensures
            final(self)@ == old(self)@.tax(),
    {
        let x = self.a;
        self.x = x;
        self.set_nz(x);
    }

    pub fn tay(&mut self)
        ensures
            final(self)@ == old(self)@.tay(),
    {
        let y = self.a;
        self.y = y;
        self.set_nz(y);
    }

    pub fn txa(&mut self)
        ensures
            final(self)@ == old(self)@.txa(),
    {
        let a = self.x;
        self.a = a;
        self.set_nz(a);
    }

    pub fn tya(&mut self)
        ensures
            final(self)@ == old(self)@.tya(),
    {
        let a = self.y;
        self.a = a;
        self.set_nz(a);
    }

    pub fn txs(&mut self)
        ensures
            final(self)@ == old(self)@.txs(),
    {
        self.sp = self.x;
    }

    pub fn tsx(&mut self)
        ensures
            final(self)@ == old(self)@.tsx(),
    {
        self.x = self.sp;
    }

    pub fn inx(&mut self)
        ensures
            final(self)@ == old(self)@.inx(),
    {
        let x = self.x.wrapping_add(1);
        self.x = x;
        self.set_nz(x);
    }

    pub fn iny(&mut self)
        ensures
            final(self)@ == old(self)@.iny(),
    {
        let y = self.y.wrapping_add(1);
        self.y = y;
        self.set_nz(y);
    }

    pub fn dex(&mut self)
        ensures
            final(self)@ == old(self)@.dex(),
    {
        let x = self.x.wrapping_sub(1);
        self.x = x;
        self.set_nz(x);
    }

    pub fn dey(&mut self)
        ensures
            final(self)@ == old(self)@.dey(),
    {
        let y = self.y.wrapping_sub(1);
        self.y = y;
        self.set_nz(y);
    }

    pub fn inc(&mut self)
        requires
            !old(self)@.inc().fault,
        ensures
            final(self)@ == old(self)@.inc(),
    {
        let value = self.value.wrapping_add(1);
        let addr = self.addr;
        self.write8(addr, value);
        self.set_nz(value);
    }

    pub fn dec(&mut self)
        requires
            !old(self)@.dec().fault,
        ensures
            final(self)@ == old(self)@.dec(),
    {
        let value = self.value.wrapping_sub(1);
        let addr = self.addr;
        self.write8(addr, value);
        self.set_nz(value);
    }

    pub fn and(&mut self)
        ensures
            final(self)@ == old(self)@.and(),
    {
        let a = self.a & self.value;
        self.a = a;
        self.set_nz(a);
    }

    pub fn ora(&mut self)
        ensures
            final(self)@ == old(self)@.ora(),
    {
        let a = self.a | self.value;
        self.a = a;
        self.set_nz(a);
    }

    pub fn eor(&mut self)
        ensures
            final(self)@ == old(self)@.eor(),
    {
        let a = self.a ^ self.value;
        self.a = a;
        self.set_nz(a);
    }

    pub fn bit(&mut self)
        ensures
            final(self)@ == old(self)@.bit(),
    {
        let a = self.a;
        let value = self.value;
        self.set_flag(ZERO, (a & value) == 0);
        self.set_flag(SIGN, (value & 0x80) != 0);
        self.set_flag(OVERFLOW, (value & 0x40) != 0);
    }

    pub fn asl_a(&mut self)
        ensures
            final(self)@ == old(self)@.asl_a(),
    {
        let a = self.a;
        self.set_flag(CARRY, a & 0x80 != 0);
        let result = a << 1;
        proof {
            lemma_shift_left(a);
        }
        self.a = result;
        self.set_nz(result);
    }

    pub fn lsr_a(&mut self)
        ensures
            final(self)@ == old(self)@.lsr_a(),
    {
        let a = self.a;
        self.set_flag(CARRY, a & 0x01 != 0);
        let result = a >> 1;
        proof {
            lemma_shift_right(a);
        }
        self.a = result;
        self.set_nz(result);
    }

    pub fn rol_a(&mut self)
        ensures
            final(self)@ == old(self)@.rol_a(),
    {
        let a = self.a;
        let carry = self.get_flag(CARRY);
        self.set_flag(CARRY, a & 0x80 != 0);
        let result = if carry {
            (a << 1) | 1
        } else {
            a << 1
        };
        proof {
            lemma_shift_left(a);
            lemma_rotate_left(a);
        }
        self.a = result;
        self.set_nz(result);
    }

    pub fn ror_a(&mut self)
        ensures
            final(self)@ == old(self)@.ror_a(),
    {
        let a = self.a;
        let carry = self.get_flag(CARRY);
        self.set_flag(CARRY, a & 0x01 != 0);
        let result = if carry {
            (a >> 1) | 0x80
        } else {
            a >> 1
        };
        proof {
            lemma_shift_right(a);
            lemma_rotate_right(a);
        }
        self.a = result;
        self.set_nz(result);
    }

    pub fn asl(&mut self)
        requires
            !old(self)@.asl().fault,
        ensures
            final(self)@ == old(self)@.asl(),
    {
        let value = self.value;
        self.set_flag(CARRY, value & 0x80 != 0);
        let result = value << 1;
        proof {
            lemma_shift_left(value);
        }
        let addr = self.addr;
        self.write8(addr, result);
        self.set_nz(result);
    }

    pub fn lsr(&mut self)
        requires
            !old(self)@.lsr().fault,
        ensures
            final(self)@ == old(self)@.lsr(),
    {
        let value = self.value;
        self.set_flag(CARRY, value & 0x01 != 0);
        let result = value >> 1;
        proof {
            lemma_shift_right(value);
        }
        let addr = self.addr;
        self.write8(addr, result);
        self.set_nz(result);
    }

    pub fn rol(&mut self)
        requires
            !old(self)@.rol().fault,
        ensures
            final(self)@ == old(self)@.rol(),
    {
        let value = self.value;
        let carry = self.get_flag(CARRY);
        self.set_flag(CARRY, value & 0x80 != 0);
        let result = if carry {
            (value << 1) | 1
        } else {
            value << 1
        };
        proof {
            lemma_shift_left(value);
            lemma_rotate_left(value);
        }
        let addr = self.addr;
        self.write8(addr, result);
        self.set_nz(result);
    }

    pub fn ror(&mut self)
        requires
            !old(self)@.ror().fault,
        ensures
            final(self)@ == old(self)@.ror(),
    {
        let value = self.value;
        let carry = self.get_flag(CARRY);
        self.set_flag(CARRY, value & 0x01 != 0);
        let result = if carry {
            (value >> 1) | 0x80
        } else {
            value >> 1
        };
        proof {
            lemma_shift_right(value);
            lemma_rotate_right(value);
        }
        let addr = self.addr;
        self.write8(addr, result);
        self.set_nz(result);
    }

    pub fn adc(&mut self)
        ensures
            final(self)@ == old(self)@.adc(),
    {
        let carry: u16 = if self.get_flag(CARRY) {
            1
        } else {
            0
        };
        let a = self.a;
        let value = self.value;
        let sum: u16 = a as u16 + value as u16 + carry;
        self.set_flag(CARRY, sum > 0xff);
        let result = (sum % 0x100) as u8;
        self.a = result;
        self.set_nz(result);
        self.set_flag(OVERFLOW, ((a ^ result) & (value ^ result)) & 0x80 != 0);
    }

    pub fn sbc(&mut self)
        ensures
            final(self)@ == old(self)@.sbc(),
    {
        let borrow: i16 = if self.get_flag(CARRY) {
            0
        } else {
            1
        };
        let a = self.a;
        let value = self.value;
        let difference: i16 = a as i16 - value as i16 - borrow;
        self.set_flag(CARRY, difference >= 0 && difference <= 0xff);
        let result = if difference < 0 {
            (difference + 0x100) as u8
        } else {
            difference as u8
        };
        self.a = result;
        self.set_nz(result);
        self.set_flag(OVERFLOW, ((a ^ result) & (value ^ result)) & 0x80 != 0);
    }

    /// Sets the flags of a comparison of `register` with the operand.
    pub fn compare(&mut self, register: u8)
        ensures
            final(self)@ == old(self)@.compared(register),
    {
        let value = self.value;
        self.set_flag(CARRY, register >= value);
        self.set_flag(ZERO, register == value);
        self.set_flag(SIGN, register < value);
    }

    pub fn cmp(&mut self)
        ensures
            final(self)@ == old(self)@.cmp(),
    {
        let a = self.a;
        self.compare(a);
    }

    pub fn cpx(&mut self)
        ensures
            final(self)@ == old(self)@.cpx(),
    {
        let x = self.x;
        self.compare(x);
    }

    pub fn cpy(&mut self)
        ensures
            final(self)@ == old(self)@.cpy(),
    {
        let y = self.y;
        self.compare(y);
    }

    pub fn sec(&mut self)
        ensures
            final(self)@ == old(self)@.sec(),
    {
        self.set_flag(CARRY, true);
    }

    pub fn clc(&mut self)
        ensures
            final(self)@ == old(self)@.clc(),
    {
        self.set_flag(CARRY, false);
    }

    pub fn sei(&mut self)
        ensures
            final(self)@ == old(self)@.sei(),
    {
        self.set_flag(INTERRUPT, true);
    }

    pub fn cli(&mut self)
        ensures
            final(self)@ == old(self)@.cli(),
    {
        self.set_flag(INTERRUPT, false);
    }

    pub fn sed(&mut self)
        ensures
            final(self)@ == old(self)@.sed(),
    {
        self.set_flag(DECIMAL, true);
    }

    pub fn cld(&mut self)
        ensures
            final(self)@ == old(self)@.cld(),
    {
        self.set_flag(DECIMAL, false);
    }

    pub fn clv(&mut self)
        ensures
            final(self)@ == old(self)@.clv(),
    {
        self.set_flag(OVERFLOW, false);
    }

    pub fn jmp(&mut self)
        ensures
            final(self)@ == old(self)@.jmp(),
    {
        self.pc = self.addr;
    }

    /// Jumps to the target where `taken`, at the cost of one cycle.
    pub fn branch(&mut self, taken: bool)
        requires
            !old(self)@.branched(taken).fault,
        ensures
            final(self)@ == old(self)@.branched(taken),
    {
        if taken {
            self.pc = self.addr;
            self.tick(1);
        }
    }

    pub fn beq(&mut self)
        requires
            !old(self)@.beq().fault,
        ensures
            final(self)@ == old(self)@.beq(),
    {
        let taken = self.get_flag(ZERO);
        self.branch(taken);
    }

    pub fn bne(&mut self)
        requires
            !old(self)@.bne().fault,
        ensures
            final(self)@ == old(self)@.bne(),
    {
        let taken = !self.get_flag(ZERO);
        self.branch(taken);
    }

    pub fn bmi(&mut self)
        requires
            !old(self)@.bmi().fault,
        ensures
            final(self)@ == old(self)@.bmi(),
    {
        let taken = self.get_flag(SIGN);
        self.branch(taken);
    }

    pub fn bpl(&mut self)
        requires
            !old(self)@.bpl().fault,
        ensures
            final(self)@ == old(self)@.bpl(),
    {
        let taken = !self.get_flag(SIGN);
        self.branch(taken);
    }

    pub fn bvs(&mut self)
        requires
            !old(self)@.bvs().fault,
        ensures
            final(self)@ == old(self)@.bvs(),
    {
        let taken = self.get_flag(OVERFLOW);
        self.branch(taken);
    }

    pub fn bvc(&mut self)
        requires
            !old(self)@.bvc().fault,
        ensures
            final(self)@ == old(self)@.bvc(),
    {
        let taken = !self.get_flag(OVERFLOW);
        self.branch(taken);
    }

    pub fn bcs(&mut self)
        requires
            !old(self)@.bcs().fault,
        ensures
            final(self)@ == old(self)@.bcs(),
    {
        let taken = self.get_flag(CARRY);
        self.branch(taken);
    }

    pub fn bcc(&mut self)
        requires
            !old(self)@.bcc().fault,
        ensures
            final(self)@ == old(self)@.bcc(),
    {
        let taken = !self.get_flag(CARRY);
        self.branch(taken);
    }

    /// Pushes `value` on the stack.
    pub fn push(&mut self, value: u8)
        requires
            !old(self)@.pushed(value).fault,
        ensures
            final(self)@ == old(self)@.pushed(value),
    {
        let cell: u16 = 0x100 + self.sp as u16;
        self.write8(cell, value);
        self.sp = self.sp.wrapping_sub(1);
    }

    /// Pulls a byte from the stack.
    pub fn pull(&mut self) -> (value: u8)
        requires
            !old(self)@.pulled().fault,
        ensures
            value == old(self)@.top(),
            final(self)@ == old(self)@.pulled(),
    {
        self.sp = self.sp.wrapping_add(1);
        let cell: u16 = 0x100 + self.sp as u16;
        self.read8(cell)
    }

    pub fn pha(&mut self)
        requires
            !old(self)@.pha().fault,
        ensures
            final(self)@ == old(self)@.pha(),
    {
        let a = self.a;
        self.push(a);
    }

    pub fn php(&mut self)
        requires
            !old(self)@.php().fault,
        ensures
            final(self)@ == old(self)@.php(),
    {
        let status = self.status;
        self.push(status);
    }

    pub fn pla(&mut self)
        requires
            !old(self)@.pla().fault,
        ensures
            final(self)@ == old(self)@.pla(),
    {
        self.a = self.pull();
    }

    pub fn plp(&mut self)
        requires
            !old(self)@.plp().fault,
        ensures
            final(self)@ == old(self)@.plp(),
    {
        self.status = self.pull();
    }

    pub fn jsr(&mut self)
        requires
            !old(self)@.jsr().fault,
        ensures
            final(self)@ == old(self)@.jsr(),
    {
        let back = self.pc.wrapping_sub(1);
        self.push((back / 0x100) as u8);
        self.push((back % 0x100) as u8);
        self.pc = self.addr;
    }

    pub fn rts(&mut self)
        requires
            !old(self)@.rts().fault,
        ensures
            final(self)@ == old(self)@.rts(),
    {
        let low = self.pull();
        let high = self.pull();
        let back: u16 = (high as u16) * 0x100 + (low as u16);
        self.pc = back.wrapping_add(1);
    }

    pub fn rti(&mut self)
        requires
            !old(self)@.rti().fault,
        ensures
            final(self)@ == old(self)@.rti(),
    {
        let status = self.pull();
        let low = self.pull();
        let high = self.pull();
        self.pc = (high as u16) * 0x100 + (low as u16);
        self.status = status;
    }

    /// Runs the interrupt sequence through the vector at `address`.
    pub fn interrupt(&mut self, address: u16)
        requires
            !old(self)@.interrupted(address).fault,
        ensures
            final(self)@ == old(self)@.interrupted(address),
    {
        let pc = self.pc;
        self.push((pc / 0x100) as u8);
        self.push((pc % 0x100) as u8);
        let status = self.status;
        self.push(status);
        self.addr = self.read16(address);
        self.pc = self.addr;
    }

    /// Resets the processor through the vector at `address`.
    pub fn reset(&mut self, address: u16)
        requires
            !old(self)@.reset(address).fault,
        ensures
            final(self)@ == old(self)@.reset(address),
    {
        self.status = ALWAYS_SET | INTERRUPT;
        self.addr = self.read16(address);
        self.pc = self.addr;
        self.sp = 0xff;
        self.a = 0;
        self.x = 0;
        self.y = 0;
    }

    pub fn brk(&mut self)
        requires
            !old(self)@.brk().fault,
        ensures
            final(self)@ == old(self)@.brk(),
    {
        if self.code_breakpoint {
            self.requested_code_breakpoint = true;
        } else {
            self.interrupt(0xfffe);
            self.set_flag(BRK, true);
        }
    }

    pub fn nop(&mut self)
        ensures
            final(self)@ == old(self)@,
    {
    }

    /// Does the work of `operation`.
    pub fn execute(&mut self, operation: Operation)
        requires
            !old(self)@.executed(operation).fault,
        ensures
            final(self)@ == old(self)@.executed(operation),
    {
        match operation {
            Operation::Adc => self.adc(),
            Operation::And => self.and(),
            Operation::Asl => self.asl(),
            Operation::AslA => self.asl_a(),
            Operation::Bcc => self.bcc(),
            Operation::Bcs => self.bcs(),
            Operation::Beq => self.beq(),
            Operation::Bit => self.bit(),
            Operation::Bmi => self.bmi(),
            Operation::Bne => self.bne(),
            Operation::Bpl => self.bpl(),
            Operation::Brk => self.brk(),
            Operation::Bvc => self.bvc(),
            Operation::Bvs => self.bvs(),
            Operation::Clc => self.clc(),
            Operation::Cld => self.cld(),
            Operation::Cli => self.cli(),
            Operation::Clv => self.clv(),
            Operation::Cmp => self.cmp(),
            Operation::Cpx => self.cpx(),
            Operation::Cpy => self.cpy(),
            Operation::Dec => self.dec(),
            Operation::Dex => self.dex(),
            Operation::Dey => self.dey(),
            Operation::Eor => self.eor(),
            Operation::Inc => self.inc(),
            Operation::Inx => self.inx(),
            Operation::Iny => self.iny(),
            Operation::Jmp => self.jmp(),
            Operation::Jsr => self.jsr(),
            Operation::Lda => self.lda(),
            Operation::Ldx => self.ldx(),
            Operation::Ldy => self.ldy(),
            Operation::Lsr => self.lsr(),
            Operation::LsrA => self.lsr_a(),
            Operation::Nop => self.nop(),
            Operation::Ora => self.ora(),
            Operation::Pha => self.pha(),
            Operation::Php => self.php(),
            Operation::Pla => self.pla(),
            Operation::Plp => self.plp(),
            Operation::Rol => self.rol(),
            Operation::RolA => self.rol_a(),
            Operation::Ror => self.ror(),
            Operation::RorA => self.ror_a(),
            Operation::Rti => self.rti(),
            Operation::Rts => self.rts(),
            Operation::Sbc => self.sbc(),
            Operation::Sec => self.sec(),
            Operation::Sed => self.sed(),
            Operation::Sei => self.sei(),
            Operation::Sta => self.sta(),
            Operation::Stx => self.stx(),
            Operation::Sty => self.sty(),
            Operation::Tax => self.tax(),
            Operation::Tay => self.tay(),
            Operation::Tsx => self.tsx(),
            Operation::Txa => self.txa(),
            Operation::Txs => self.txs(),
            Operation::Tya => self.tya(),
        }
    }
}

} // verus!
