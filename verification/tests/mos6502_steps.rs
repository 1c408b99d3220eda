use impostor::mos6502::{
    Mode, MOS6502, ALWAYS_SET, BRK, CARRY, DECIMAL, INTERRUPT, OVERFLOW, SIGN, ZERO,
};
use impostor::ram::Ram;
use impostor::{AddressBusIO, Clock, Interrupt};

fn machine(program: Vec<u8>) -> MOS6502<Ram<u8>> {
    let mut ram = Ram::new(0x10000);
    ram.fill(program, 0);
    MOS6502::new(ram)
}

#[test]
fn a_new_processor() {
    let cpu = machine(vec![]);
    assert_eq!(cpu.a, 0);
    assert_eq!(cpu.x, 0);
    assert_eq!(cpu.y, 0);
    assert_eq!(cpu.pc, 0);
    assert_eq!(cpu.sp, 0xff);
    assert_eq!(cpu.status, 0x24);
    assert_eq!(cpu.status, ALWAYS_SET | INTERRUPT);
    assert_eq!(cpu.ticks, 0);
    assert!(!cpu.debug);
    assert_eq!(cpu.debug_line, "");
}

#[test]
fn adc_immediate_without_carry_in() {
    let mut cpu = machine(vec![0x69, 0x01]);
    cpu.a = 1;
    cpu.status = 0x20;
    cpu.step();
    assert_eq!(cpu.a, 2);
    assert!(!cpu.get_flag(CARRY));
    assert!(!cpu.get_flag(ZERO));
    assert!(!cpu.get_flag(SIGN));
    assert_eq!(cpu.ticks, 2);
    assert_eq!(cpu.pc, 2);
    assert_eq!(cpu.debug_pc, 0);
    assert_eq!(cpu.current_opcode, 0x69);
}

#[test]
fn adc_flags_for_every_pair() {
    let mut cpu = machine(vec![]);
    for carry in 0..2u16 {
        for a in 0..=255u16 {
            for m in 0..=255u16 {
                cpu.status = 0x20;
                cpu.a = a as u8;
                cpu.value = m as u8;
                cpu.set_flag(CARRY, carry == 1);
                cpu.adc();
                let sum = a + m + carry;
                let r = (sum & 0xff) as u8;
                assert_eq!(cpu.a, r);
                assert_eq!(cpu.get_flag(CARRY), sum > 0xff);
                assert_eq!(cpu.get_flag(ZERO), r == 0);
                assert_eq!(cpu.get_flag(SIGN), r & 0x80 != 0);
                assert_eq!(
                    cpu.get_flag(OVERFLOW),
                    ((a as u8 ^ r) & (m as u8 ^ r)) & 0x80 != 0
                );
            }
        }
    }
}

#[test]
fn sbc_flags_for_every_pair() {
    let mut cpu = machine(vec![]);
    for carry in 0..2i16 {
        for a in 0..=255i16 {
            for m in 0..=255i16 {
                cpu.a = a as u8;
                cpu.value = m as u8;
                cpu.status = 0x20;
                cpu.set_flag(CARRY, carry == 1);
                cpu.sbc();
                let difference = a - m - (1 - carry);
                let r = difference as u8;
                assert_eq!(cpu.a, r);
                assert_eq!(cpu.get_flag(CARRY), difference >= 0);
                assert_eq!(cpu.get_flag(ZERO), r == 0);
                assert_eq!(cpu.get_flag(SIGN), r & 0x80 != 0);
                assert_eq!(
                    cpu.get_flag(OVERFLOW),
                    ((a as u8 ^ r) & (m as u8 ^ r)) & 0x80 != 0
                );
            }
        }
    }
}

#[test]
fn compare_flags_for_every_pair() {
    let mut cpu = machine(vec![]);
    for register in 0..=255u8 {
        for m in 0..=255u8 {
            cpu.status = 0x20;
            cpu.value = m;
            cpu.a = register;
            cpu.cmp();
            assert_eq!(cpu.get_flag(CARRY), register >= m);
            assert_eq!(cpu.get_flag(ZERO), register == m);
            assert_eq!(cpu.get_flag(SIGN), register < m);
            cpu.status = 0x20;
            cpu.x = register;
            cpu.cpx();
            assert_eq!(cpu.get_flag(CARRY), register >= m);
            assert_eq!(cpu.get_flag(ZERO), register == m);
            assert_eq!(cpu.get_flag(SIGN), register < m);
            cpu.status = 0x20;
            cpu.y = register;
            cpu.cpy();
            assert_eq!(cpu.get_flag(CARRY), register >= m);
            assert_eq!(cpu.get_flag(ZERO), register == m);
            assert_eq!(cpu.get_flag(SIGN), register < m);
        }
    }
}

#[test]
fn bit_flags_for_every_pair() {
    let mut cpu = machine(vec![]);
    for a in 0..=255u8 {
        for m in 0..=255u8 {
            cpu.status = 0x20;
            cpu.a = a;
            cpu.value = m;
            cpu.bit();
            assert_eq!(cpu.a, a);
            assert_eq!(cpu.get_flag(ZERO), a & m == 0);
            assert_eq!(cpu.get_flag(SIGN), m & 0x80 != 0);
            assert_eq!(cpu.get_flag(OVERFLOW), m & 0x40 != 0);
        }
    }
}

#[test]
fn shift_and_rotate_flags_for_every_value() {
    let mut cpu = machine(vec![]);
    for carry in [false, true] {
        for a in 0..=255u8 {
            cpu.status = 0x20;
            cpu.set_flag(CARRY, carry);
            cpu.a = a;
            cpu.asl_a();
            assert_eq!(cpu.a, a << 1);
            assert_eq!(cpu.get_flag(CARRY), a & 0x80 != 0);
            assert_eq!(cpu.get_flag(ZERO), a << 1 == 0);
            assert_eq!(cpu.get_flag(SIGN), (a << 1) & 0x80 != 0);

            cpu.status = 0x20;
            cpu.set_flag(CARRY, carry);
            cpu.a = a;
            cpu.lsr_a();
            assert_eq!(cpu.a, a >> 1);
            assert_eq!(cpu.get_flag(CARRY), a & 1 != 0);
            assert_eq!(cpu.get_flag(ZERO), a >> 1 == 0);
            assert!(!cpu.get_flag(SIGN));

            cpu.status = 0x20;
            cpu.set_flag(CARRY, carry);
            cpu.a = a;
            cpu.rol_a();
            let rolled = (a << 1) | carry as u8;
            assert_eq!(cpu.a, rolled);
            assert_eq!(cpu.get_flag(CARRY), a & 0x80 != 0);
            assert_eq!(cpu.get_flag(ZERO), rolled == 0);
            assert_eq!(cpu.get_flag(SIGN), rolled & 0x80 != 0);

            cpu.status = 0x20;
            cpu.set_flag(CARRY, carry);
            cpu.a = a;
            cpu.ror_a();
            let rored = (a >> 1) | ((carry as u8) << 7);
            assert_eq!(cpu.a, rored);
            assert_eq!(cpu.get_flag(CARRY), a & 1 != 0);
            assert_eq!(cpu.get_flag(ZERO), rored == 0);
            assert_eq!(cpu.get_flag(SIGN), carry);
        }
    }
}

#[test]
fn increments_and_decrements_wrap() {
    let mut cpu = machine(vec![0xe8, 0xc8, 0xca, 0xca, 0x88, 0x88]);
    cpu.x = 0xff;
    cpu.y = 0x7f;
    cpu.set_flag(CARRY, true);
    cpu.step();
    assert_eq!(cpu.x, 0);
    assert!(cpu.get_flag(ZERO));
    assert!(!cpu.get_flag(SIGN));
    assert!(cpu.get_flag(CARRY));
    cpu.step();
    assert_eq!(cpu.y, 0x80);
    assert!(!cpu.get_flag(ZERO));
    assert!(cpu.get_flag(SIGN));
    cpu.step();
    assert_eq!(cpu.x, 0xff);
    assert!(cpu.get_flag(SIGN));
    cpu.step();
    assert_eq!(cpu.x, 0xfe);
    cpu.step();
    assert_eq!(cpu.y, 0x7f);
    assert!(!cpu.get_flag(SIGN));
    cpu.step();
    assert_eq!(cpu.y, 0x7e);
    assert_eq!(cpu.ticks, 12);
}

#[test]
fn inc_and_dec_in_memory() {
    let mut cpu = machine(vec![0xe6, 0x10, 0xc6, 0x11, 0xee, 0x00, 0x02, 0xce, 0x01, 0x02]);
    cpu.write(0x0010, 0xff);
    cpu.write(0x0011, 0x00);
    cpu.write(0x0200, 0x7f);
    cpu.write(0x0201, 0x01);
    cpu.step();
    assert_eq!(cpu.read(0x0010), 0x00);
    assert!(cpu.get_flag(ZERO));
    cpu.step();
    assert_eq!(cpu.read(0x0011), 0xff);
    assert!(cpu.get_flag(SIGN));
    cpu.step();
    assert_eq!(cpu.read(0x0200), 0x80);
    assert!(cpu.get_flag(SIGN));
    cpu.step();
    assert_eq!(cpu.read(0x0201), 0x00);
    assert!(cpu.get_flag(ZERO));
    assert_eq!(cpu.ticks, 3 + 3 + 4 + 4);
}

#[test]
fn loads_and_stores() {
    let mut cpu = machine(vec![
        0xa9, 0x80, // lda #$80
        0x85, 0x20, // sta $20
        0xa2, 0x00, // ldx #$00
        0x8e, 0x00, 0x03, // stx $0300
        0xa4, 0x20, // ldy $20
        0x8c, 0x01, 0x03, // sty $0301
    ]);
    cpu.step();
    assert_eq!(cpu.a, 0x80);
    assert!(cpu.get_flag(SIGN));
    assert!(!cpu.get_flag(ZERO));
    cpu.step();
    assert_eq!(cpu.read(0x0020), 0x80);
    cpu.write(0x0300, 0x55);
    cpu.step();
    assert_eq!(cpu.x, 0);
    assert!(cpu.get_flag(ZERO));
    assert!(!cpu.get_flag(SIGN));
    cpu.step();
    assert_eq!(cpu.read(0x0300), 0);
    cpu.step();
    assert_eq!(cpu.y, 0x80);
    cpu.step();
    assert_eq!(cpu.read(0x0301), 0x80);
    assert_eq!(cpu.ticks, 2 + 3 + 2 + 4 + 3 + 4);
}

#[test]
fn transfers() {
    let mut cpu = machine(vec![0xaa, 0xa8, 0x8a, 0x98, 0x9a, 0xba]);
    cpu.a = 0x90;
    cpu.step();
    assert_eq!(cpu.x, 0x90);
    assert!(cpu.get_flag(SIGN));
    cpu.step();
    assert_eq!(cpu.y, 0x90);
    cpu.x = 0;
    cpu.step();
    assert_eq!(cpu.a, 0);
    assert!(cpu.get_flag(ZERO));
    cpu.y = 0x01;
    cpu.step();
    assert_eq!(cpu.a, 1);
    assert!(!cpu.get_flag(ZERO));
    cpu.x = 0x33;
    let status = cpu.status;
    cpu.step();
    assert_eq!(cpu.sp, 0x33);
    assert_eq!(cpu.status, status);
    cpu.sp = 0x44;
    cpu.step();
    assert_eq!(cpu.x, 0x44);
    assert_eq!(cpu.status, status);
}

#[test]
fn logic_instructions() {
    let mut cpu = machine(vec![0x29, 0x0f, 0x09, 0x80, 0x49, 0xff]);
    cpu.a = 0xf0;
    cpu.step();
    assert_eq!(cpu.a, 0x00);
    assert!(cpu.get_flag(ZERO));
    cpu.step();
    assert_eq!(cpu.a, 0x80);
    assert!(cpu.get_flag(SIGN));
    cpu.step();
    assert_eq!(cpu.a, 0x7f);
    assert!(!cpu.get_flag(SIGN));
    assert!(!cpu.get_flag(ZERO));
}

#[test]
fn flag_instructions() {
    let mut cpu = machine(vec![0x38, 0x18, 0xf8, 0xd8, 0x58, 0x78, 0xb8]);
    cpu.step();
    assert!(cpu.get_flag(CARRY));
    cpu.step();
    assert!(!cpu.get_flag(CARRY));
    cpu.step();
    assert!(cpu.get_flag(DECIMAL));
    cpu.step();
    assert!(!cpu.get_flag(DECIMAL));
    cpu.step();
    assert!(!cpu.get_flag(INTERRUPT));
    cpu.step();
    assert!(cpu.get_flag(INTERRUPT));
    cpu.set_flag(OVERFLOW, true);
    cpu.step();
    assert!(!cpu.get_flag(OVERFLOW));
    assert_eq!(cpu.ticks, 14);
}

#[test]
fn set_flag_touches_one_flag() {
    let mut cpu = machine(vec![]);
    for mask in [CARRY, ZERO, INTERRUPT, DECIMAL, BRK, ALWAYS_SET, OVERFLOW, SIGN] {
        for status in [0x00u8, 0xff, 0x24, 0xa5] {
            cpu.status = status;
            cpu.set_flag(mask, true);
            assert_eq!(cpu.status, status | mask);
            assert!(cpu.get_flag(mask));
            cpu.status = status;
            cpu.set_flag(mask, false);
            assert_eq!(cpu.status, status & !mask);
            assert!(!cpu.get_flag(mask));
        }
    }
}

#[test]
fn cycles_of_every_addressing_mode() {
    // (program, x, y, cycles, bytes)
    let cases: Vec<(Vec<u8>, u8, u8, u64, u16)> = vec![
        (vec![0xea], 0, 0, 2, 1),                   // implied
        (vec![0x0a], 0, 0, 2, 1),                   // accumulator
        (vec![0xa9, 0x01], 0, 0, 2, 2),             // immediate
        (vec![0xa5, 0x10], 0, 0, 3, 2),             // zeropage
        (vec![0xb5, 0x10], 0xff, 0, 3, 2),          // zeropage,X
        (vec![0xb6, 0x10], 0, 0xff, 3, 2),          // zeropage,Y
        (vec![0xad, 0x00, 0x02], 0, 0, 4, 3),       // absolute
        (vec![0xbd, 0x00, 0x02], 0xff, 0, 4, 3),    // absolute,X in the page
        (vec![0xbd, 0x01, 0x02], 0xff, 0, 5, 3),    // absolute,X across
        (vec![0xb9, 0xff, 0x02], 0, 0x00, 4, 3),    // absolute,Y in the page
        (vec![0xb9, 0xff, 0x02], 0, 0x01, 5, 3),    // absolute,Y across
        (vec![0x6c, 0x00, 0x02], 0, 0, 5, 0x1234),  // indirect (a jump)
        (vec![0xa1, 0x40], 0x04, 0, 6, 2),          // (indirect,X)
        (vec![0xb1, 0x44], 0, 0x10, 5, 2),          // (indirect),Y in the page
        (vec![0xb1, 0x44], 0, 0xff, 6, 2),          // (indirect),Y across
    ];
    for (program, x, y, cycles, pc) in cases {
        let opcode = program[0];
        let mut cpu = machine(program);
        cpu.write(0x0200, 0x34);
        cpu.write(0x0201, 0x12);
        cpu.write(0x0044, 0x80);
        cpu.write(0x0045, 0x03);
        cpu.x = x;
        cpu.y = y;
        cpu.step();
        assert_eq!(cpu.ticks, cycles, "cycles of ${:02X}", opcode);
        assert_eq!(cpu.pc, pc, "program counter behind ${:02X}", opcode);
    }
}

#[test]
fn effective_addresses() {
    let mut cpu = machine(vec![0xb5, 0xf0, 0xb6, 0xf0, 0xbd, 0xff, 0xff, 0xa1, 0xfe, 0xb1, 0xff]);
    cpu.write(0x0010, 0x11);
    cpu.write(0x0020, 0x22);
    cpu.write(0x000f, 0x33);
    // zeropage,X wraps inside page zero: $F0 + $20 = $10.
    cpu.x = 0x20;
    cpu.step();
    assert_eq!(cpu.addr, 0x0010);
    assert_eq!(cpu.a, 0x11);
    // zeropage,Y: $F0 + $30 = $20.
    cpu.y = 0x30;
    cpu.step();
    assert_eq!(cpu.addr, 0x0020);
    assert_eq!(cpu.x, 0x22);
    // absolute,X wraps at sixteen bits: $FFFF + $10 = $000F.
    cpu.x = 0x10;
    cpu.step();
    assert_eq!(cpu.addr, 0x000f);
    assert_eq!(cpu.a, 0x33);
    // (indirect,X): the pointer is ($FE + 1) = $FF and its high byte is at $00.
    cpu.write(0x00ff, 0x00);
    cpu.write(0x0000, 0x04);
    cpu.write(0x0400, 0x44);
    cpu.x = 0x01;
    cpu.step();
    assert_eq!(cpu.addr, 0x0400);
    assert_eq!(cpu.a, 0x44);
    // (indirect),Y: the word at $FF goes on at $0100.
    cpu.write(0x00ff, 0x10);
    cpu.write(0x0100, 0x05);
    cpu.write(0x0512, 0x55);
    cpu.y = 0x02;
    cpu.step();
    assert_eq!(cpu.addr, 0x0512);
    assert_eq!(cpu.a, 0x55);
}

#[test]
fn branches() {
    // beq +2 is not taken, bne +2 is; then bmi, bpl, bcs, bcc, bvs, bvc.
    let mut cpu = machine(vec![0xf0, 0x02, 0xd0, 0x02, 0xea, 0xea, 0x10, 0xfe]);
    cpu.status = 0x20;
    cpu.step();
    assert_eq!(cpu.pc, 2);
    assert_eq!(cpu.ticks, 2);
    cpu.step();
    assert_eq!(cpu.pc, 6);
    assert_eq!(cpu.ticks, 5);
    // bpl -2 jumps back onto itself.
    cpu.step();
    assert_eq!(cpu.pc, 6);
    assert_eq!(cpu.ticks, 8);
    cpu.set_flag(SIGN, true);
    cpu.step();
    assert_eq!(cpu.pc, 8);
    assert_eq!(cpu.ticks, 10);
}

#[test]
fn every_branch_follows_its_flag() {
    let table: Vec<(u8, u8, bool)> = vec![
        (0xf0, ZERO, true),
        (0xd0, ZERO, false),
        (0x30, SIGN, true),
        (0x10, SIGN, false),
        (0xb0, CARRY, true),
        (0x90, CARRY, false),
        (0x70, OVERFLOW, true),
        (0x50, OVERFLOW, false),
    ];
    for (opcode, mask, when_set) in table {
        for set in [false, true] {
            let mut cpu = machine(vec![opcode, 0x10]);
            cpu.status = 0x20;
            cpu.set_flag(mask, set);
            cpu.step();
            let taken = set == when_set;
            assert_eq!(cpu.pc, if taken { 0x12 } else { 0x02 });
            assert_eq!(cpu.ticks, if taken { 3 } else { 2 });
        }
    }
}

#[test]
fn a_branch_backward_wraps() {
    let mut cpu = machine(vec![0xd0, 0x80]);
    cpu.status = 0x20;
    cpu.step();
    // $0002 - 128 wraps to $FF82.
    assert_eq!(cpu.pc, 0xff82);
}

#[test]
fn jumps() {
    let mut cpu = machine(vec![0x4c, 0x00, 0x03]);
    cpu.write(0x0300, 0x6c);
    cpu.write(0x0301, 0x10);
    cpu.write(0x0302, 0x03);
    cpu.write(0x0310, 0x78);
    cpu.write(0x0311, 0x56);
    cpu.step();
    assert_eq!(cpu.pc, 0x0300);
    assert_eq!(cpu.ticks, 4);
    cpu.step();
    assert_eq!(cpu.pc, 0x5678);
    assert_eq!(cpu.ticks, 9);
}

#[test]
fn subroutines() {
    let mut cpu = machine(vec![0x20, 0x00, 0x03]);
    cpu.write(0x0300, 0x60);
    cpu.step();
    assert_eq!(cpu.pc, 0x0300);
    assert_eq!(cpu.sp, 0xfd);
    // The address of the last byte of the jsr, high byte first.
    assert_eq!(cpu.read(0x01ff), 0x00);
    assert_eq!(cpu.read(0x01fe), 0x02);
    assert_eq!(cpu.ticks, 4);
    cpu.step();
    assert_eq!(cpu.pc, 0x0003);
    assert_eq!(cpu.sp, 0xff);
    assert_eq!(cpu.ticks, 6);
}

#[test]
fn the_stack_wraps_inside_page_one() {
    let mut cpu = machine(vec![0x48, 0x48, 0x68]);
    cpu.sp = 0x00;
    cpu.a = 0x77;
    cpu.step();
    assert_eq!(cpu.sp, 0xff);
    assert_eq!(cpu.read(0x0100), 0x77);
    cpu.a = 0x88;
    cpu.step();
    assert_eq!(cpu.sp, 0xfe);
    assert_eq!(cpu.read(0x01ff), 0x88);
    cpu.a = 0;
    cpu.step();
    assert_eq!(cpu.a, 0x88);
    assert_eq!(cpu.sp, 0xff);
}

#[test]
fn push_and_pull_of_the_status() {
    let mut cpu = machine(vec![0x08, 0x28]);
    cpu.status = 0xa5;
    cpu.step();
    assert_eq!(cpu.read(0x01ff), 0xa5);
    assert_eq!(cpu.sp, 0xfe);
    cpu.status = 0x20;
    cpu.step();
    assert_eq!(cpu.status, 0xa5);
    assert_eq!(cpu.sp, 0xff);
    assert_eq!(cpu.ticks, 4);
}

#[test]
fn brk_and_rti() {
    let mut cpu = machine(vec![0xea, 0x00]);
    cpu.write(0xfffe, 0x00);
    cpu.write(0xffff, 0x04);
    cpu.write(0x0400, 0x40);
    cpu.status = 0x21;
    cpu.step();
    cpu.step();
    assert_eq!(cpu.pc, 0x0400);
    assert_eq!(cpu.sp, 0xfc);
    assert_eq!(cpu.read(0x01ff), 0x00);
    assert_eq!(cpu.read(0x01fe), 0x02);
    // The stacked status is the one before the break flag was set.
    assert_eq!(cpu.read(0x01fd), 0x21);
    assert!(cpu.get_flag(BRK));
    assert_eq!(cpu.ticks, 4);
    cpu.step();
    assert_eq!(cpu.pc, 0x0002);
    assert_eq!(cpu.status, 0x21);
    assert_eq!(cpu.sp, 0xff);
    assert_eq!(cpu.ticks, 6);
}

#[test]
fn brk_as_a_breakpoint() {
    let mut cpu = machine(vec![0x00, 0xea]);
    impostor::Debug::set_code_breakpoint(&mut cpu, true);
    assert!(!impostor::Debug::is_code_breakpoint_requested(&mut cpu));
    cpu.step();
    assert_eq!(cpu.pc, 1);
    assert_eq!(cpu.sp, 0xff);
    assert!(!cpu.get_flag(BRK));
    assert!(impostor::Debug::is_code_breakpoint_requested(&mut cpu));
    // Taking the request clears it.
    assert!(!impostor::Debug::is_code_breakpoint_requested(&mut cpu));
    cpu.step();
    assert!(!cpu.take_breakpoint_pending());
}

#[test]
fn the_maskable_interrupt() {
    let mut cpu = machine(vec![]);
    cpu.write(0xfffe, 0x34);
    cpu.write(0xffff, 0x12);
    cpu.pc = 0xabcd;
    // Masked while the interrupt-disable flag is set.
    cpu.raise(4);
    assert_eq!(cpu.pc, 0xabcd);
    assert_eq!(cpu.ticks, 0);
    cpu.status = 0x20;
    cpu.raise(4);
    assert_eq!(cpu.pc, 0x1234);
    assert_eq!(cpu.sp, 0xfc);
    assert_eq!(cpu.read(0x01ff), 0xab);
    assert_eq!(cpu.read(0x01fe), 0xcd);
    assert_eq!(cpu.read(0x01fd), 0x20);
    assert_eq!(cpu.status, 0x30);
    assert_eq!(cpu.ticks, 5);
    // Masked while the break flag is set.
    cpu.raise(4);
    assert_eq!(cpu.sp, 0xfc);
    assert_eq!(cpu.ticks, 5);
}

#[test]
fn the_non_maskable_interrupt() {
    let mut cpu = machine(vec![]);
    cpu.write(0xfffa, 0x00);
    cpu.write(0xfffb, 0x80);
    cpu.pc = 0x0123;
    cpu.raise(6);
    assert_eq!(cpu.pc, 0x8000);
    assert_eq!(cpu.sp, 0xfc);
    assert_eq!(cpu.read(0x01ff), 0x01);
    assert_eq!(cpu.read(0x01fe), 0x23);
    assert_eq!(cpu.read(0x01fd), 0x24);
    assert_eq!(cpu.status, 0x24);
    assert_eq!(cpu.ticks, 5);
}

#[test]
fn the_reset() {
    let mut cpu = machine(vec![]);
    cpu.write(0xfffc, 0x00);
    cpu.write(0xfffd, 0xc0);
    cpu.a = 1;
    cpu.x = 2;
    cpu.y = 3;
    cpu.sp = 0x10;
    // Not honoured while the interrupt-disable flag is set.
    cpu.raise(40);
    assert_eq!(cpu.pc, 0);
    assert_eq!(cpu.a, 1);
    cpu.status = 0xe3;
    cpu.raise(40);
    assert_eq!(cpu.pc, 0xc000);
    assert_eq!(cpu.sp, 0xff);
    assert_eq!(cpu.a, 0);
    assert_eq!(cpu.x, 0);
    assert_eq!(cpu.y, 0);
    assert_eq!(cpu.status, 0x24);
    assert_eq!(cpu.ticks, 0);
}

#[test]
fn an_unknown_line_is_ignored() {
    let mut cpu = machine(vec![]);
    cpu.status = 0x20;
    cpu.pc = 0x1000;
    for line in [0u16, 1, 5, 7, 39, 41, 0xffff] {
        cpu.raise(line);
    }
    assert_eq!(cpu.pc, 0x1000);
    assert_eq!(cpu.sp, 0xff);
    assert_eq!(cpu.status, 0x20);
    assert_eq!(cpu.ticks, 0);
}

#[test]
fn the_word_at_the_top_of_memory_wraps() {
    let mut cpu = machine(vec![0x55]);
    cpu.write(0xffff, 0xaa);
    assert_eq!(cpu.read16(0xffff), 0x55aa);
}

#[test]
fn trace_lines() {
    let mut ram = Ram::new(0x10000);
    ram.fill(
        vec![
        0xa9, 0x80, // lda #$80
        0xaa, // tax
        0x0a, // asl_a
        0xd0, 0x02, // bne (not taken)
        0xa5, 0x10, // lda $10
        0xb5, 0x10, // lda $10,X
        0xad, 0x34, 0x12, // lda $1234
        0xbd, 0x34, 0x12, // lda $1234,X
        0xb9, 0x34, 0x12, // lda $1234,Y
        0xa1, 0x10, // lda ($10,X)
        0xb1, 0x20, // lda ($20),Y
        0xb6, 0x10, // ldx $10,Y
        0x6c, 0x00, 0x03, // jmp ($0300)
        ],
        0x0400,
    );
    let mut cpu = MOS6502::new(ram);
    cpu.pc = 0x0400;
    cpu.debug = true;
    cpu.status = 0x20;
    cpu.step();
    assert_eq!(cpu.debug_line, "lda #$80 [A=$80 X=$00 Y=$00 SP=$FF |$A9| N---]");
    cpu.step();
    assert_eq!(cpu.debug_line, "tax [A=$80 X=$80 Y=$00 SP=$FF |$AA| N---]");
    cpu.step();
    assert_eq!(cpu.debug_line, "asl_a [A=$00 X=$80 Y=$00 SP=$FF |$0A| --ZC]");
    cpu.step();
    assert_eq!(cpu.debug_line, "bne $0408 [A=$00 X=$80 Y=$00 SP=$FF |$D0| --ZC]");
    cpu.write(0x0010, 0x01);
    cpu.step();
    assert_eq!(cpu.debug_line, "lda $10 [A=$01 X=$80 Y=$00 SP=$FF |$A5| ---C]");
    cpu.step();
    assert_eq!(
        cpu.debug_line,
        "lda $10,X (zeropage addr: $90) [A=$00 X=$80 Y=$00 SP=$FF |$B5| --ZC]"
    );
    cpu.step();
    assert_eq!(cpu.debug_line, "lda $1234 [A=$00 X=$80 Y=$00 SP=$FF |$AD| --ZC]");
    cpu.step();
    assert_eq!(
        cpu.debug_line,
        "lda $1234,X (absolute addr: $12B4) [A=$00 X=$80 Y=$00 SP=$FF |$BD| --ZC]"
    );
    cpu.y = 0xff;
    cpu.step();
    assert_eq!(
        cpu.debug_line,
        "lda $1234,Y (absolute addr: $1333) [A=$00 X=$80 Y=$FF SP=$FF |$B9| --ZC]"
    );
    cpu.write(0x0090, 0xcd);
    cpu.write(0x0091, 0xab);
    cpu.write(0xabcd, 0x7e);
    cpu.step();
    assert_eq!(
        cpu.debug_line,
        "lda ($10,X) (indirect addr: $ABCD) [A=$7E X=$80 Y=$FF SP=$FF |$A1| ---C]"
    );
    cpu.write(0x0020, 0x00);
    cpu.write(0x0021, 0x40);
    cpu.set_flag(OVERFLOW, true);
    cpu.step();
    assert_eq!(
        cpu.debug_line,
        "lda ($20),Y (indirect addr: $40FF) [A=$00 X=$80 Y=$FF SP=$FF |$B1| -VZC]"
    );
    cpu.step();
    assert_eq!(
        cpu.debug_line,
        "ldx $10,Y (zeropage addr: $0F) [A=$00 X=$00 Y=$FF SP=$FF |$B6| -VZC]"
    );
    cpu.write(0x0300, 0x00);
    cpu.write(0x0301, 0x80);
    cpu.step();
    assert_eq!(
        cpu.debug_line,
        "jmp ($0300) (indirect addr: $8000) [A=$00 X=$00 Y=$FF SP=$FF |$6C| -VZC]"
    );
    assert_eq!(cpu.debug_pc, 0x0419);
}

#[test]
fn no_trace_line_without_debug() {
    let mut cpu = machine(vec![0xa5, 0x10, 0xa9, 0x01]);
    cpu.step();
    cpu.step();
    assert_eq!(cpu.debug_line, "");
}

#[test]
fn the_debugger_view() {
    let mut cpu = machine(vec![0xa9, 0x05]);
    assert_eq!(impostor::Debug::get_cursor(&cpu), 0);
    impostor::Debug::set_cursor(&mut cpu, 0x0200);
    assert_eq!(impostor::Debug::get_cursor(&cpu), 0x0200);
    assert_eq!(cpu.pc, 0x0200);
    impostor::Debug::inject(&mut cpu, 0x0200, 0xa9);
    impostor::Debug::inject(&mut cpu, 0x0201, 0x07);
    assert_eq!(impostor::Debug::inspect(&mut cpu, 0x0201), 0x07);
    impostor::Debug::next(&mut cpu);
    assert_eq!(cpu.a, 7);
    assert_eq!(impostor::Debug::get_cursor(&cpu), 0x0202);
    assert_eq!(impostor::Debug::address_str(&cpu, 0x00ff), "$00FF");
    assert_eq!(impostor::Debug::address_str(&cpu, 0xabcd), "$ABCD");
    assert_eq!(impostor::Debug::data_str(&cpu, 0x0a), "$0A");
    assert_eq!(impostor::Debug::data_str(&cpu, 0xf0), "$F0");
}

#[test]
fn opcode_names() {
    let mut cpu = machine(vec![0x69, 0x00, 0x2a, 0xea]);
    cpu.step();
    assert_eq!(cpu.get_opcode_name(), "adc");
    cpu.step();
    assert_eq!(cpu.get_opcode_name(), "rol_a");
    cpu.step();
    assert_eq!(cpu.get_opcode_name(), "nop");
}

#[test]
fn the_table_holds_the_documented_instructions() {
    let cpu = machine(vec![]);
    assert_eq!(cpu.opcodes.len(), 256);
    let assigned = cpu.opcodes.iter().filter(|entry| entry.name != "-").count();
    assert_eq!(assigned, 151);
    assert_eq!(cpu.opcodes[0xea].name, "nop");
    assert_eq!(cpu.opcodes[0x00].name, "brk");
    assert_eq!(cpu.opcodes[0xff].name, "-");
    assert_eq!(cpu.opcodes[0x02].name, "-");
}

#[test]
fn a_step_in_two_halves() {
    let mut cpu = machine(vec![0xa9, 0x42, 0xff]);
    let code = cpu.decode();
    assert_eq!(code, 0xa9);
    assert_eq!(cpu.current_opcode, 0xa9);
    assert_eq!(cpu.opcode.name, "lda");
    assert!(matches!(cpu.opcode.fetch, Mode::Immediate));
    assert_eq!(cpu.debug_pc, 0);
    assert_eq!(cpu.pc, 1);
    assert_eq!(cpu.a, 0);
    assert_eq!(cpu.ticks, 0);
    cpu.perform();
    assert_eq!(cpu.a, 0x42);
    assert_eq!(cpu.pc, 2);
    assert_eq!(cpu.ticks, 2);
    let code = cpu.decode();
    assert_eq!(code, 0xff);
    assert!(matches!(cpu.opcode.fetch, Mode::Invalid));
    assert_eq!(cpu.debug_pc, 2);
}
