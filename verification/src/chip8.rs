//! A Chip-8 interpreter on a bus.
//!
//! An instruction is two bytes, high byte first. Its top nibble selects the
//! family, `x` and `y` name registers, and `nnn`, `nn` and `n` are operands
//! of twelve, eight and four bits. Registers and addresses wrap at their
//! width. An instruction that is not assigned, a call or return beyond the
//! sixteen cells of the stack, a key number beyond the sixteen keys and an
//! access that the bus does not answer are faults.
use crate::random::draw_u8;
use crate::{image, lemma_image_after, Access, AddressBusIO, BusState, Clock};
use vstd::prelude::*;

verus! {

/// `n` reduced to eight bits.
pub open spec fn low8(n: int) -> u8 {
    (n % 0x100) as u8
}

/// `n` reduced to sixteen bits.
pub open spec fn low16(n: int) -> u16 {
    (n % 0x1_0000) as u16
}

/// The bit of a row of a sprite that belongs to `column`, leftmost first.
pub open spec fn column_bit(column: int) -> u8 {
    if column == 0 {
        0x80
    } else if column == 1 {
        0x40
    } else if column == 2 {
        0x20
    } else if column == 3 {
        0x10
    } else if column == 4 {
        0x08
    } else if column == 5 {
        0x04
    } else if column == 6 {
        0x02
    } else {
        0x01
    }
}

/// Whether `key` is the first key that is down.
pub open spec fn is_first_key(keys: Seq<bool>, key: int) -> bool {
    &&& 0 <= key < keys.len()
    &&& keys[key]
    &&& forall|earlier: int| 0 <= earlier < key ==> !#[trigger] keys[earlier]
}

/// The parts of an instruction.
pub struct Instruction {
    pub opcode: u16,
}

impl Instruction {
    pub open spec fn family(self) -> int {
        self.opcode as int / 0x1000
    }

    pub open spec fn nnn(self) -> u16 {
        (self.opcode as int % 0x1000) as u16
    }

    pub open spec fn nn(self) -> u8 {
        (self.opcode as int % 0x100) as u8
    }

    pub open spec fn n(self) -> u8 {
        (self.opcode as int % 0x10) as u8
    }

    pub open spec fn x(self) -> int {
        (self.opcode as int / 0x100) % 0x10
    }

    pub open spec fn y(self) -> int {
        (self.opcode as int / 0x10) % 0x10
    }
}

/// The whole state of the interpreter and what it sees of its bus.
pub ghost struct Chip8State {
    pub reg: Seq<u8>,
    pub index: u16,
    pub screen: Seq<u8>,
    pub keys: Seq<bool>,
    pub pc: u16,
    pub delay_timer: u8,
    pub sound_timer: u8,
    pub stack: Seq<u16>,
    pub sp: u8,
    pub redraw: bool,
    pub bus: BusState<u16, u8>,
    pub fault: bool,
}

impl Chip8State {
    /// After a read at `address`.
    pub open spec fn loaded(self, address: u16) -> Chip8State {
        Chip8State {
            bus: self.bus.after_read(address),
            fault: self.fault || !self.bus.reads(address),
            ..self
        }
    }

    /// After a write of `value` at `address`.
    pub open spec fn stored(self, address: u16, value: u8) -> Chip8State {
        Chip8State {
            bus: self.bus.after_write(address, value),
            fault: self.fault || !self.bus.writes(address),
            ..self
        }
    }

    /// After one tick of the two timers: each counts down to zero and
    /// stays there.
    pub open spec fn timed(self) -> Chip8State {
        Chip8State {
            delay_timer: if self.delay_timer > 0 {
                (self.delay_timer - 1) as u8
            } else {
                0
            },
            sound_timer: if self.sound_timer > 0 {
                (self.sound_timer - 1) as u8
            } else {
                0
            },
            ..self
        }
    }

    /// At fault.
    pub open spec fn failed(self) -> Chip8State {
        Chip8State { fault: true, ..self }
    }

    /// The byte at the program counter.
    pub open spec fn next(self) -> u8 {
        self.bus.now(self.pc)
    }

    /// After the byte at the program counter has been consumed.
    pub open spec fn advanced(self) -> Chip8State {
        Chip8State { pc: low16(self.pc + 1), ..self.loaded(self.pc) }
    }

    /// The instruction at the program counter.
    pub open spec fn instruction(self) -> Instruction {
        Instruction { opcode: (self.next() as int * 0x100 + self.advanced().next() as int) as u16 }
    }

    /// With register `register` holding `value`.
    pub open spec fn with_reg(self, register: int, value: u8) -> Chip8State {
        Chip8State { reg: self.reg.update(register, value), ..self }
    }

    /// With the next instruction skipped where `skip`.
    pub open spec fn skipped(self, skip: bool) -> Chip8State {
        if skip {
            Chip8State { pc: low16(self.pc + 2), ..self }
        } else {
            self
        }
    }

    /// `00EE`: the return address is taken from the stack, which grows
    /// downward from cell fifteen.
    pub open spec fn returned(self) -> Chip8State {
        if self.sp >= 0x0f {
            self.failed()
        } else {
            Chip8State { sp: (self.sp + 1) as u8, pc: self.stack[self.sp + 1], ..self }
        }
    }

    /// `2nnn`: the address of the next instruction is put on the stack.
    pub open spec fn called(self, target: u16) -> Chip8State {
        if self.sp == 0 || self.sp > 0x0f {
            self.failed()
        } else {
            Chip8State {
                stack: self.stack.update(self.sp as int, self.pc),
                sp: (self.sp - 1) as u8,
                pc: target,
                ..self
            }
        }
    }

    /// `8xyn`: arithmetic and logic on two registers. Register fifteen
    /// takes the carry, the absence of a borrow or the bit shifted out, and
    /// it takes it before the result is computed.
    pub open spec fn computed(self, x: int, y: int, n: u8) -> Chip8State {
        if n == 0 {
            self.with_reg(x, self.reg[y])
        } else if n == 1 {
            self.with_reg(x, self.reg[x] | self.reg[y])
        } else if n == 2 {
            self.with_reg(x, self.reg[x] & self.reg[y])
        } else if n == 3 {
            self.with_reg(x, self.reg[x] ^ self.reg[y])
        } else if n == 4 {
            let carried = self.with_reg(
                0xf,
                if self.reg[x] + self.reg[y] > 255 {
                    1u8
                } else {
                    0u8
                },
            );
            carried.with_reg(x, low8(carried.reg[x] + carried.reg[y]))
        } else if n == 5 {
            let set = self.with_reg(0xf, 1);
            let borrowed = if set.reg[y] > set.reg[x] {
                set.with_reg(0xf, 0)
            } else {
                set
            };
            borrowed.with_reg(x, low8(borrowed.reg[x] - borrowed.reg[y]))
        } else if n == 6 {
            let shifted = self.with_reg(0xf, self.reg[x] & 0x01);
            shifted.with_reg(x, (shifted.reg[x] / 2) as u8)
        } else {
            self.failed()
        }
    }

    /// One row of a sprite from `column` on: each set bit flips a pixel, up
    /// to the right edge of the screen, and a pixel that was lit sets
    /// register fifteen.
    pub open spec fn plotted(self, row: u8, pixels: u8, x: int, column: int) -> Chip8State
        decreases 8 - column,
    {
        if column >= 8 || column < 0 {
            self
        } else {
            let pixel_x = low8(self.reg[x] + column);
            if pixel_x >= 64 {
                self
            } else {
                let offset = row as int * 64 + pixel_x as int;
                let after = if pixels & column_bit(column) != 0 {
                    Chip8State {
                        reg: if self.screen[offset] == 1 {
                            self.reg.update(0xf, 1)
                        } else {
                            self.reg
                        },
                        screen: self.screen.update(offset, self.screen[offset] ^ 1),
                        ..self
                    }
                } else {
                    self
                };
                after.plotted(row, pixels, x, column + 1)
            }
        }
    }

    /// The rows of a sprite from `row` on: each is read from the bus and
    /// plotted, up to the bottom edge of the screen.
    pub open spec fn drawn(self, x: int, y: int, n: u8, row: int) -> Chip8State
        decreases n - row,
    {
        if row >= n || row < 0 {
            self
        } else {
            let address = low16(self.index + row);
            let pixels = self.bus.now(address);
            let read = self.loaded(address);
            let pixel_y = low8(read.reg[y] + row);
            if pixel_y >= 32 {
                read
            } else {
                read.plotted(pixel_y, pixels, x, 0).drawn(x, y, n, row + 1)
            }
        }
    }

    /// `Fx0A`: the first key that is down goes to register `x`; with no key
    /// down the instruction is run again.
    pub open spec fn keyed(self, x: int) -> Chip8State {
        if exists|key: int| is_first_key(self.keys, key) {
            self.with_reg(x, (choose|key: int| is_first_key(self.keys, key)) as u8)
        } else {
            Chip8State { pc: low16(self.pc - 2), ..self }
        }
    }

    /// `Fx33`: the three decimal digits of register `x` are written from the
    /// index on.
    pub open spec fn digits(self, x: int) -> Chip8State {
        let value = self.reg[x];
        self.stored(self.index, (value / 100) as u8).stored(
            low16(self.index + 1),
            ((value / 10) % 10) as u8,
        ).stored(low16(self.index + 2), ((value % 100) % 10) as u8)
    }

    /// `Fx65`: the registers from `register` to `x` are read from the bus,
    /// register zero at the index.
    pub open spec fn restored(self, x: int, register: int) -> Chip8State
        decreases x + 1 - register,
    {
        if register > x || register < 0 {
            self
        } else {
            let address = low16(self.index + register);
            self.loaded(address).with_reg(register, self.bus.now(address)).restored(
                x,
                register + 1,
            )
        }
    }

    /// `Ex9E` and `ExA1`: a skip on the key whose number is in register
    /// `x`.
    pub open spec fn key_skipped(self, x: int, nn: u8) -> Chip8State {
        if self.reg[x] >= 16 {
            self.failed()
        } else if nn == 0x9e {
            self.skipped(self.keys[self.reg[x] as int])
        } else if nn == 0xa1 {
            self.skipped(!self.keys[self.reg[x] as int])
        } else {
            self.failed()
        }
    }

    /// `Fxnn`: timers, keys, the index and memory.
    pub open spec fn serviced(self, x: int, nn: u8) -> Chip8State {
        if nn == 0x07 {
            self.with_reg(x, self.delay_timer)
        } else if nn == 0x15 {
            Chip8State { delay_timer: self.reg[x], ..self }
        } else if nn == 0x18 {
            Chip8State { sound_timer: self.reg[x], ..self }
        } else if nn == 0x0a {
            self.keyed(x)
        } else if nn == 0x33 {
            self.digits(x)
        } else if nn == 0x65 {
            self.restored(x, 0)
        } else if nn == 0x1e {
            Chip8State { index: low16(self.index + self.reg[x]), ..self }
        } else if nn == 0x29 {
            Chip8State { index: (self.reg[x] * 5) as u16, ..self }
        } else {
            self.failed()
        }
    }

    /// What `instruction` does. `sample` is the random byte that `Cxnn`
    /// takes.
    pub open spec fn executed(self, instruction: Instruction, sample: u8) -> Chip8State {
        let x = instruction.x();
        let y = instruction.y();
        let nn = instruction.nn();
        let nnn = instruction.nnn();
        let family = instruction.family();
        if self.fault {
            self
        } else if family == 0x0 {
            if nn == 0xe0 {
                Chip8State { screen: Seq::new(2048, |i: int| 0u8), ..self }
            } else if nn == 0xee {
                self.returned()
            } else {
                self.failed()
            }
        } else if family == 0x1 {
            Chip8State { pc: nnn, ..self }
        } else if family == 0x2 {
            self.called(nnn)
        } else if family == 0x3 {
            self.skipped(self.reg[x] == nn)
        } else if family == 0x4 {
            self.skipped(self.reg[x] != nn)
        } else if family == 0x5 {
            self.skipped(self.reg[x] == self.reg[y])
        } else if family == 0x6 {
            self.with_reg(x, nn)
        } else if family == 0x7 {
            self.with_reg(x, low8(self.reg[x] + nn))
        } else if family == 0x8 {
            self.computed(x, y, instruction.n())
        } else if family == 0x9 {
            self.skipped(self.reg[x] != self.reg[y])
        } else if family == 0xa {
            Chip8State { index: nnn, ..self }
        } else if family == 0xb {
            Chip8State { pc: low16(nnn + self.reg[0]), ..self }
        } else if family == 0xc {
            self.with_reg(x, sample & nn)
        } else if family == 0xd {
            Chip8State { redraw: true, ..self }.with_reg(0xf, 0).drawn(x, y, instruction.n(), 0)
        } else if family == 0xe {
            self.key_skipped(x, nn)
        } else {
            self.serviced(x, nn)
        }
    }

    /// One instruction: it is read at the program counter and run.
    pub open spec fn stepped(self, sample: u8) -> Chip8State {
        self.advanced().advanced().executed(self.instruction(), sample)
    }
}

/// Why an instruction cannot be run.
#[derive(Clone, Copy, Debug, PartialEq, Eq, Structural)]
pub enum Trap {
    /// The instruction is none that the interpreter knows.
    InvalidOpcode,
    /// A call with the stack full, or a return with the stack empty.
    StackOutOfBounds,
    /// A skip on a key that the keypad does not have.
    NoSuchKey,
}

impl Chip8State {
    /// Why `instruction` cannot be run in this state, if anything but the
    /// bus stands in its way.
    pub open spec fn trap(self, instruction: Instruction) -> Option<Trap> {
        let x = instruction.x();
        let nn = instruction.nn();
        let family = instruction.family();
        if family == 0x0 {
            if nn == 0xe0 {
                None
            } else if nn == 0xee {
                if self.sp >= 0x0f {
                    Some(Trap::StackOutOfBounds)
                } else {
                    None
                }
            } else {
                Some(Trap::InvalidOpcode)
            }
        } else if family == 0x2 {
            if self.sp == 0 || self.sp > 0x0f {
                Some(Trap::StackOutOfBounds)
            } else {
                None
            }
        } else if family == 0x8 {
            if instruction.n() <= 6 {
                None
            } else {
                Some(Trap::InvalidOpcode)
            }
        } else if family == 0xe {
            if self.reg[x] >= 16 {
                Some(Trap::NoSuchKey)
            } else if nn == 0x9e || nn == 0xa1 {
                None
            } else {
                Some(Trap::InvalidOpcode)
            }
        } else if family == 0xf {
            if nn == 0x07 || nn == 0x15 || nn == 0x18 || nn == 0x0a || nn == 0x33 || nn == 0x65
                || nn == 0x1e || nn == 0x29 {
                None
            } else {
                Some(Trap::InvalidOpcode)
            }
        } else {
            None
        }
    }
}

/// The interpreter, with the bus it is attached to.
pub struct Chip8<T: AddressBusIO<u16, u8>> {
    pub bus: T,
    pub reg: [u8; 16],
    pub index: u16,
    /// One byte for each pixel, row by row: 1 where it is lit.
    pub screen: [u8; 2048],
    pub keys: [bool; 16],
    pub pc: u16,
    pub delay_timer: u8,
    pub sound_timer: u8,
    pub stack: [u16; 16],
    pub sp: u8,
    /// Set by each draw; whoever shows the screen clears it.
    pub redraw: bool,
}

impl<T: AddressBusIO<u16, u8>> View for Chip8<T> {
    type V = Chip8State;

    open spec fn view(&self) -> Chip8State {
        Chip8State {
            reg: self.reg@,
            index: self.index,
            screen: self.screen@,
            keys: self.keys@,
            pc: self.pc,
            delay_timer: self.delay_timer,
            sound_timer: self.sound_timer,
            stack: self.stack@,
            sp: self.sp,
            redraw: self.redraw,
            bus: image(&self.bus),
            fault: false,
        }
    }
}

/// The rows of the sixteen glyphs, `0` to `F`, five bytes each: what a
/// program expects at the bottom of memory.
pub open spec fn glyphs() -> Seq<u8> {
    seq![
        0xF0u8, 0x90, 0x90, 0x90, 0xF0,
        0x20, 0x60, 0x20, 0x20, 0x70,
        0xF0, 0x10, 0xF0, 0x80, 0xF0,
        0xF0, 0x10, 0xF0, 0x10, 0xF0,
        0x90, 0x90, 0xF0, 0x10, 0x10,
        0xF0, 0x80, 0xF0, 0x10, 0xF0,
        0xF0, 0x80, 0xF0, 0x90, 0xF0,
        0xF0, 0x10, 0x20, 0x40, 0x40,
        0xF0, 0x90, 0xF0, 0x90, 0xF0,
        0xF0, 0x90, 0xF0, 0x10, 0xF0,
        0xF0, 0x90, 0xF0, 0x90, 0x90,
        0xE0, 0x90, 0xE0, 0x90, 0xE0,
        0xF0, 0x80, 0x80, 0x80, 0xF0,
        0xE0, 0x90, 0x90, 0x90, 0xE0,
        0xF0, 0x80, 0xF0, 0x80, 0xF0,
        0xF0, 0x80, 0xF0, 0x80, 0x80,
    ]
}

/// The glyphs, ready to be put in memory.
pub fn font() -> (font: Vec<u8>)
    ensures
        font@ == glyphs(),
{
    let font = vec![
        0xF0u8, 0x90, 0x90, 0x90, 0xF0,
        0x20, 0x60, 0x20, 0x20, 0x70,
        0xF0, 0x10, 0xF0, 0x80, 0xF0,
        0xF0, 0x10, 0xF0, 0x10, 0xF0,
        0x90, 0x90, 0xF0, 0x10, 0x10,
        0xF0, 0x80, 0xF0, 0x10, 0xF0,
        0xF0, 0x80, 0xF0, 0x90, 0xF0,
        0xF0, 0x10, 0x20, 0x40, 0x40,
        0xF0, 0x90, 0xF0, 0x90, 0xF0,
        0xF0, 0x90, 0xF0, 0x10, 0xF0,
        0xF0, 0x90, 0xF0, 0x90, 0x90,
        0xE0, 0x90, 0xE0, 0x90, 0xE0,
        0xF0, 0x80, 0x80, 0x80, 0xF0,
        0xE0, 0x90, 0x90, 0x90, 0xE0,
        0xF0, 0x80, 0xF0, 0x80, 0xF0,
        0xF0, 0x80, 0xF0, 0x80, 0x80,
    ];
    assert(font@ =~= glyphs());
    font
}

/// The bit of a row of a sprite that belongs to `column`.
fn bit_of(column: u8) -> (bit: u8)
    requires
        column < 8,
    ensures
        bit == column_bit(column as int),
{
    match column {
        0 => 0x80,
        1 => 0x40,
        2 => 0x20,
        3 => 0x10,
        4 => 0x08,
        5 => 0x04,
        6 => 0x02,
        _ => 0x01,
    }
}

impl<T: AddressBusIO<u16, u8>> Chip8<T> {
    /// An interpreter attached to `bus`: registers, timers, screen and keys
    /// cleared, the program counter at `$200` and the stack empty.
    pub fn new(bus: T) -> (chip: Chip8<T>)
        ensures
            chip@ == (Chip8State {
                reg: Seq::new(16, |i: int| 0u8),
                index: 0,
                screen: Seq::new(2048, |i: int| 0u8),
                keys: Seq::new(16, |i: int| false),
                pc: 0x200,
                delay_timer: 0,
                sound_timer: 0,
                stack: Seq::new(16, |i: int| 0u16),
                sp: 0xf,
                redraw: false,
                bus: image(&bus),
                fault: false,
            }),
    {
        let chip = Chip8 {
            reg: [0; 16],
            pc: 0x200,
            stack: [0; 16],
            sp: 0xf,
            index: 0,
            delay_timer: 0,
            sound_timer: 0,
            screen: [0; 2048],
            keys: [false; 16],
            redraw: false,
            bus,
        };
        assert(chip.reg@ =~= Seq::new(16, |i: int| 0u8));
        assert(chip.screen@ =~= Seq::new(2048, |i: int| 0u8));
        assert(chip.keys@ =~= Seq::new(16, |i: int| false));
        assert(chip.stack@ =~= Seq::new(16, |i: int| 0u16));
        chip
    }

    /// Counts both timers down by one. Returns whether the sound timer
    /// has just run out, which is when the beep is due.
    pub fn tick_timers(&mut self) -> (beep: bool)
        ensures
            final(self)@ == old(self)@.timed(),
            beep == (old(self).sound_timer == 1),
    {
        if self.delay_timer > 0 {
            self.delay_timer = self.delay_timer - 1;
        }
        if self.sound_timer > 0 {
            self.sound_timer = self.sound_timer - 1;
            self.sound_timer == 0
        } else {
            false
        }
    }

    /// Reads the byte at `addr`.
    pub fn read8(&mut self, addr: u16) -> (value: u8)
        requires
            !old(self)@.loaded(addr).fault,
        ensures
            value == old(self)@.bus.now(addr),
            final(self)@ == old(self)@.loaded(addr),
    {
        let value = self.bus.read(addr);
        proof {
            lemma_image_after(&old(self).bus, Access::Read { address: addr }, &self.bus);
        }
        value
    }

    /// Writes `value` at `addr`.
    pub fn write8(&mut self, addr: u16, value: u8)
        requires
            !old(self)@.stored(addr, value).fault,
        ensures
            final(self)@ == old(self)@.stored(addr, value),
    {
        self.bus.write(addr, value);
        proof {
            lemma_image_after(&old(self).bus, Access::Write { address: addr, value }, &self.bus);
        }
    }

    /// Returns the program counter and moves it to the next byte.
    pub fn advance_pc(&mut self) -> (pc: u16)
        ensures
            pc == old(self).pc,
            final(self)@ == (Chip8State { pc: low16(old(self).pc + 1), ..old(self)@ }),
    {
        let pc = self.pc;
        self.pc = pc.wrapping_add(1);
        pc
    }

    /// Reads the byte at the program counter and moves past it.
    pub fn read8_from_pc(&mut self) -> (value: u8)
        requires
            !old(self)@.advanced().fault,
        ensures
            value == old(self)@.next(),
            final(self)@ == old(self)@.advanced(),
    {
        let pc = self.advance_pc();
        self.read8(pc)
    }

    /// Reads the instruction at the program counter, high byte first, and
    /// moves past it.
    pub fn read16_from_pc(&mut self) -> (value: u16)
        requires
            !old(self)@.advanced().advanced().fault,
        ensures
            value == old(self)@.instruction().opcode,
            final(self)@ == old(self)@.advanced().advanced(),
    {
        let high = self.read8_from_pc();
        let low = self.read8_from_pc();
        (high as u16) * 0x100 + (low as u16)
    }

    /// Skips the next instruction where `skip`.
    fn skip(&mut self, skip: bool)
        ensures
            final(self)@ == old(self)@.skipped(skip),
    {
        if skip {
            self.pc = self.pc.wrapping_add(2);
        }
    }

    /// Puts `value` in register `register`.
    fn set_reg(&mut self, register: usize, value: u8)
        requires
            register < 16,
        ensures
            final(self)@ == old(self)@.with_reg(register as int, value),
    {
        self.reg[register] = value;
    }

    /// `8xyn`.
    fn compute(&mut self, x: usize, y: usize, n: u8)
        requires
            x < 16,
            y < 16,
            !old(self)@.computed(x as int, y as int, n).fault,
        ensures
            final(self)@ == old(self)@.computed(x as int, y as int, n),
    {
        match n {
            0 => {
                let value = self.reg[y];
                self.set_reg(x, value);
            },
            1 => {
                let value = self.reg[x] | self.reg[y];
                self.set_reg(x, value);
            },
            2 => {
                let value = self.reg[x] & self.reg[y];
                self.set_reg(x, value);
            },
            3 => {
                let value = self.reg[x] ^ self.reg[y];
                self.set_reg(x, value);
            },
            4 => {
                let a = self.reg[x] as u16;
                let b = self.reg[y] as u16;
                self.set_reg(0xf, if a + b > 255 {
                    1
                } else {
                    0
                });
                let value = self.reg[x].wrapping_add(self.reg[y]);
                self.set_reg(x, value);
            },
            5 => {
                self.set_reg(0xf, 1);
                if self.reg[y] > self.reg[x] {
                    self.set_reg(0xf, 0);
                }
                let value = self.reg[x].wrapping_sub(self.reg[y]);
                self.set_reg(x, value);
            },
            _ => {
                let bit = self.reg[x] & 0x01;
                self.set_reg(0xf, bit);
                let value = self.reg[x] / 2;
                self.set_reg(x, value);
            },
        }
    }

    /// Plots one row of a sprite.
    fn plot(&mut self, row: u8, pixels: u8, x: usize)
        requires
            x < 16,
            row < 32,
        ensures
            final(self)@ == old(self)@.plotted(row, pixels, x as int, 0),
    {
        let mut column: u8 = 0;
        while column < 8
            invariant
                column <= 8,
                x < 16,
                row < 32,
                self@.plotted(row, pixels, x as int, column as int) == old(self)@.plotted(
                    row,
                    pixels,
                    x as int,
                    0,
                ),
            decreases 8 - column,
        {
            let pixel_x = self.reg[x].wrapping_add(column);
            if pixel_x >= 64 {
                return ;
            }
            let offset = row as usize * 64 + pixel_x as usize;
            if pixels & bit_of(column) != 0 {
                if self.screen[offset] == 1 {
                    self.reg[0xf] = 0x01;
                }
                self.screen[offset] = self.screen[offset] ^ 1;
            }
            column = column + 1;
        }
    }

    /// `Dxyn`: draws a sprite of `n` rows.
    fn draw(&mut self, x: usize, y: usize, n: u8)
        requires
            x < 16,
            y < 16,
            !old(self)@.drawn(x as int, y as int, n, 0).fault,
        ensures
            final(self)@ == old(self)@.drawn(x as int, y as int, n, 0),
    {
        let mut row: u8 = 0;
        while row < n
            invariant
                row <= n,
                x < 16,
                y < 16,
                !old(self)@.drawn(x as int, y as int, n, 0).fault,
                self@.drawn(x as int, y as int, n, row as int) == old(self)@.drawn(
                    x as int,
                    y as int,
                    n,
                    0,
                ),
            decreases n - row,
        {
            let address = self.index.wrapping_add(row as u16);
            proof {
                lemma_drawn_fault(self@, x as int, y as int, n, row as int);
            }
            let pixels = self.read8(address);
            let pixel_y = self.reg[y].wrapping_add(row);
            if pixel_y >= 32 {
                return ;
            }
            self.plot(pixel_y, pixels, x);
            row = row + 1;
        }
    }

    /// `Fx0A`: waits for a key.
    fn wait_key(&mut self, x: usize)
        requires
            x < 16,
        ensures
            final(self)@ == old(self)@.keyed(x as int),
    {
        let mut key: u8 = 0;
        while key < 16
            invariant
                key <= 16,
                x < 16,
                *self == *old(self),
                forall|earlier: int| 0 <= earlier < key ==> !#[trigger] self.keys@[earlier],
            decreases 16 - key,
        {
            if self.keys[key as usize] {
                proof {
                    let chosen = choose|k: int| is_first_key(self@.keys, k);
                    assert(is_first_key(self@.keys, key as int));
                    if chosen < key {
                        assert(!self.keys@[chosen]);
                    }
                    if key < chosen {
                        assert(!self.keys@[key as int]);
                    }
                }
                self.set_reg(x, key);
                return ;
            }
            key = key + 1;
        }
        self.pc = self.pc.wrapping_sub(2);
    }

    /// `Fx33`: writes the decimal digits of register `x`.
    fn store_digits(&mut self, x: usize)
        requires
            x < 16,
            !old(self)@.digits(x as int).fault,
        ensures
            final(self)@ == old(self)@.digits(x as int),
    {
        let index = self.index;
        let value = self.reg[x];
        self.write8(index, value / 100);
        self.write8(index.wrapping_add(1), (value / 10) % 10);
        self.write8(index.wrapping_add(2), (value % 100) % 10);
    }

    /// `Fx65`: reads the registers up to `x`.
    fn restore(&mut self, x: usize)
        requires
            x < 16,
            !old(self)@.restored(x as int, 0).fault,
        ensures
            final(self)@ == old(self)@.restored(x as int, 0),
    {
        let mut register: usize = 0;
        while register <= x
            invariant
                register <= x + 1,
                x < 16,
                !old(self)@.restored(x as int, 0).fault,
                self@.restored(x as int, register as int) == old(self)@.restored(x as int, 0),
            decreases x + 1 - register,
        {
            let address = self.index.wrapping_add(register as u16);
            proof {
                lemma_restored_fault(self@, x as int, register as int);
            }
            let value = self.read8(address);
            self.set_reg(register, value);
            register = register + 1;
        }
    }

    /// `Ex9E` and `ExA1`.
    fn key_skip(&mut self, x: usize, nn: u8)
        requires
            x < 16,
            !old(self)@.key_skipped(x as int, nn).fault,
        ensures
            final(self)@ == old(self)@.key_skipped(x as int, nn),
    {
        let key = self.reg[x] as usize;
        if nn == 0x9e {
            let down = self.keys[key];
            self.skip(down);
        } else {
            let down = self.keys[key];
            self.skip(!down);
        }
    }

    /// `Fxnn`.
    fn service(&mut self, x: usize, nn: u8)
        requires
            x < 16,
            !old(self)@.serviced(x as int, nn).fault,
        ensures
            final(self)@ == old(self)@.serviced(x as int, nn),
    {
        match nn {
            0x07 => {
                let value = self.delay_timer;
                self.set_reg(x, value);
            },
            0x15 => {
                self.delay_timer = self.reg[x];
            },
            0x18 => {
                self.sound_timer = self.reg[x];
            },
            0x0a => self.wait_key(x),
            0x33 => self.store_digits(x),
            0x65 => self.restore(x),
            0x1e => {
                self.index = self.index.wrapping_add(self.reg[x] as u16);
            },
            _ => {
                self.index = (self.reg[x] as u16) * 5;
            },
        }
    }

    /// Why the instruction `opcode` cannot be run now, if anything but the
    /// bus stands in its way.
    pub fn trap(&self, opcode: u16) -> (trap: Option<Trap>)
        ensures
            trap == self@.trap(Instruction { opcode }),
    {
        let nn = (opcode % 0x100) as u8;
        let n = (opcode % 0x10) as u8;
        let x = ((opcode / 0x100) % 0x10) as usize;
        match opcode / 0x1000 {
            0x0 => {
                if nn == 0xe0 {
                    None
                } else if nn == 0xee {
                    if self.sp >= 0x0f {
                        Some(Trap::StackOutOfBounds)
                    } else {
                        None
                    }
                } else {
                    Some(Trap::InvalidOpcode)
                }
            },
            0x2 => {
                if self.sp == 0 || self.sp > 0x0f {
                    Some(Trap::StackOutOfBounds)
                } else {
                    None
                }
            },
            0x8 => {
                if n <= 6 {
                    None
                } else {
                    Some(Trap::InvalidOpcode)
                }
            },
            0xe => {
                if self.reg[x] >= 16 {
                    Some(Trap::NoSuchKey)
                } else if nn == 0x9e || nn == 0xa1 {
                    None
                } else {
                    Some(Trap::InvalidOpcode)
                }
            },
            0xf => {
                if nn == 0x07 || nn == 0x15 || nn == 0x18 || nn == 0x0a || nn == 0x33 || nn == 0x65
                    || nn == 0x1e || nn == 0x29 {
                    None
                } else {
                    Some(Trap::InvalidOpcode)
                }
            },
            _ => None,
        }
    }

    /// Runs one instruction, with `sample` as the random byte for the
    /// instruction that takes one.
    pub fn step_with(&mut self, sample: u8)
        requires
            !old(self)@.stepped(sample).fault,
        ensures
            final(self)@ == old(self)@.stepped(sample),
    {
        let opcode = self.read16_from_pc();
        self.perform(opcode, sample);
    }

    /// Runs the instruction `opcode`, which has been read already, with
    /// `sample` as the random byte for the instruction that takes one.
    pub fn perform(&mut self, opcode: u16, sample: u8)
        requires
            !old(self)@.executed(Instruction { opcode }, sample).fault,
        ensures
            final(self)@ == old(self)@.executed(Instruction { opcode }, sample),
    {
        let nnn = opcode % 0x1000;
        let nn = (opcode % 0x100) as u8;
        let n = (opcode % 0x10) as u8;
        let x = ((opcode / 0x100) % 0x10) as usize;
        let y = ((opcode / 0x10) % 0x10) as usize;
        match opcode / 0x1000 {
            0x0 => {
                if nn == 0xe0 {
                    self.screen = [0; 2048];
                    assert(self.screen@ =~= Seq::new(2048, |i: int| 0u8));
                } else {
                    self.sp = self.sp + 1;
                    self.pc = self.stack[self.sp as usize];
                }
            },
            0x1 => {
                self.pc = nnn;
            },
            0x2 => {
                let sp = self.sp;
                self.stack[sp as usize] = self.pc;
                self.sp = sp - 1;
                self.pc = nnn;
            },
            0x3 => {
                let skip = self.reg[x] == nn;
                self.skip(skip);
            },
            0x4 => {
                let skip = self.reg[x] != nn;
                self.skip(skip);
            },
            0x5 => {
                let skip = self.reg[x] == self.reg[y];
                self.skip(skip);
            },
            0x6 => self.set_reg(x, nn),
            0x7 => {
                let value = self.reg[x].wrapping_add(nn);
                self.set_reg(x, value);
            },
            0x8 => self.compute(x, y, n),
            0x9 => {
                let skip = self.reg[x] != self.reg[y];
                self.skip(skip);
            },
            0xa => {
                self.index = nnn;
            },
            0xb => {
                self.pc = nnn.wrapping_add(self.reg[0] as u16);
            },
            0xc => self.set_reg(x, sample & nn),
            0xd => {
                self.redraw = true;
                self.set_reg(0xf, 0x00);
                self.draw(x, y, n);
            },
            0xe => self.key_skip(x, nn),
            _ => self.service(x, nn),
        }
    }
}

/// Where drawing from `row` on ends without a fault, the read of that row
/// is answered.
proof fn lemma_drawn_fault(state: Chip8State, x: int, y: int, n: u8, row: int)
    requires
        0 <= row < n,
        !state.fault,
        !state.drawn(x, y, n, row).fault,
    ensures
        !state.loaded(low16(state.index + row)).fault,
{
    let read = state.loaded(low16(state.index + row));
    let pixel_y = low8(read.reg[y] + row);
    if pixel_y < 32 {
        lemma_plotted_keeps(read, pixel_y, state.bus.now(low16(state.index + row)), x, 0);
        lemma_drawn_keeps(
            read.plotted(pixel_y, state.bus.now(low16(state.index + row)), x, 0),
            x,
            y,
            n,
            row + 1,
        );
    }
}

/// Plotting changes neither the fault, the index nor the bus.
proof fn lemma_plotted_keeps(state: Chip8State, row: u8, pixels: u8, x: int, column: int)
    ensures
        state.plotted(row, pixels, x, column).fault == state.fault,
        state.plotted(row, pixels, x, column).index == state.index,
        state.plotted(row, pixels, x, column).bus == state.bus,
    decreases 8 - column,
{
    if 0 <= column < 8 {
        let pixel_x = low8(state.reg[x] + column);
        if pixel_x < 64 {
            let offset = row as int * 64 + pixel_x as int;
            let after = if pixels & column_bit(column) != 0 {
                Chip8State {
                    reg: if state.screen[offset] == 1 {
                        state.reg.update(0xf, 1)
                    } else {
                        state.reg
                    },
                    screen: state.screen.update(offset, state.screen[offset] ^ 1),
                    ..state
                }
            } else {
                state
            };
            lemma_plotted_keeps(after, row, pixels, x, column + 1);
        }
    }
}

/// A fault stays through drawing.
proof fn lemma_drawn_keeps(state: Chip8State, x: int, y: int, n: u8, row: int)
    ensures
        state.fault ==> state.drawn(x, y, n, row).fault,
    decreases n - row,
{
    if 0 <= row < n {
        let address = low16(state.index + row);
        let read = state.loaded(address);
        let pixel_y = low8(read.reg[y] + row);
        if pixel_y < 32 {
            lemma_plotted_keeps(read, pixel_y, state.bus.now(address), x, 0);
            lemma_drawn_keeps(
                read.plotted(pixel_y, state.bus.now(address), x, 0),
                x,
                y,
                n,
                row + 1,
            );
        }
    }
}

/// A fault stays through the reading of the registers.
proof fn lemma_restored_keeps(state: Chip8State, x: int, register: int)
    ensures
        state.fault ==> state.restored(x, register).fault,
    decreases x + 1 - register,
{
    if 0 <= register <= x {
        let address = low16(state.index + register);
        lemma_restored_keeps(
            state.loaded(address).with_reg(register, state.bus.now(address)),
            x,
            register + 1,
        );
    }
}

/// Where reading the registers from `register` on ends without a fault, the
/// read of that register is answered.
proof fn lemma_restored_fault(state: Chip8State, x: int, register: int)
    requires
        0 <= register <= x,
        !state.fault,
        !state.restored(x, register).fault,
    ensures
        !state.loaded(low16(state.index + register)).fault,
{
    let address = low16(state.index + register);
    lemma_restored_keeps(
        state.loaded(address).with_reg(register, state.bus.now(address)),
        x,
        register + 1,
    );
}

/// On a bus that answers every access, drawing ends without a fault.
proof fn lemma_drawn_answered(state: Chip8State, x: int, y: int, n: u8, row: int)
    requires
        !state.fault,
        state.bus.answers_all(),
    ensures
        !state.drawn(x, y, n, row).fault,
    decreases n - row,
{
    if 0 <= row < n {
        let address = low16(state.index + row);
        let read = state.loaded(address);
        assert((state.bus.readable)(Seq::empty(), address));
        crate::lemma_answers_after(state.bus, Access::Read { address });
        let pixel_y = low8(read.reg[y] + row);
        if pixel_y < 32 {
            lemma_plotted_keeps(read, pixel_y, state.bus.now(address), x, 0);
            lemma_drawn_answered(
                read.plotted(pixel_y, state.bus.now(address), x, 0),
                x,
                y,
                n,
                row + 1,
            );
        }
    }
}

/// On a bus that answers every access, reading the registers ends without
/// a fault.
proof fn lemma_restored_answered(state: Chip8State, x: int, register: int)
    requires
        !state.fault,
        state.bus.answers_all(),
    ensures
        !state.restored(x, register).fault,
    decreases x + 1 - register,
{
    if 0 <= register <= x {
        let address = low16(state.index + register);
        assert((state.bus.readable)(Seq::empty(), address));
        crate::lemma_answers_after(state.bus, Access::Read { address });
        lemma_restored_answered(
            state.loaded(address).with_reg(register, state.bus.now(address)),
            x,
            register + 1,
        );
    }
}

/// An instruction that nothing traps runs without a fault on a bus that
/// answers every access: the traps are all that can stop the interpreter
/// short of the bus.
pub proof fn untrapped_runs(state: Chip8State, instruction: Instruction, sample: u8)
    requires
        !state.fault,
        state.trap(instruction) is None,
        state.bus.answers_all(),
    ensures
        !state.executed(instruction, sample).fault,
{
    let x = instruction.x();
    let y = instruction.y();
    let nn = instruction.nn();
    let family = instruction.family();
    if family == 0xd {
        let cleared = Chip8State { redraw: true, ..state }.with_reg(0xf, 0);
        lemma_drawn_answered(cleared, x, y, instruction.n(), 0);
    } else if family == 0xf {
        if nn == 0x33 {
            let value = state.reg[x];
            let first = Access::Write { address: state.index, value: (value / 100) as u8 };
            let second = Access::Write {
                address: low16(state.index + 1),
                value: ((value / 10) % 10) as u8,
            };
            assert((state.bus.writable)(Seq::empty(), state.index));
            crate::lemma_answers_after(state.bus, first);
            assert((state.bus.after(first).writable)(Seq::empty(), low16(state.index + 1)));
            crate::lemma_answers_after(state.bus.after(first), second);
            assert((state.bus.after(first).after(second).writable)(
                Seq::empty(),
                low16(state.index + 2),
            ));
        } else if nn == 0x65 {
            lemma_restored_answered(state, x, 0);
        }
    }
}

impl<T: AddressBusIO<u16, u8>> Clock for Chip8<T> {
    /// A step can be made where it ends without a fault whatever random
    /// byte is drawn.
    open spec fn can_step(&self) -> bool {
        forall|sample: u8| !(#[trigger] self@.stepped(sample)).fault
    }

    /// Runs one instruction. The random byte is drawn here.
    fn step(&mut self)
        ensures
            exists|sample: u8| final(self)@ == #[trigger] old(self)@.stepped(sample),
    {
        let sample = draw_u8();
        self.step_with(sample);
    }
}

} // verus!
