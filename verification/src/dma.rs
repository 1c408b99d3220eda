//! The registers of a block-transfer engine, and the transfers they ask
//! for.
//!
//! The engine has four cells. Cell 0 takes the number of the block behind
//! the last one to move and cell 1 the bus address behind the last block;
//! cell 2 holds how many blocks are still to move and cell 3 the flags, of
//! which bit 0 says that blocks go from the bus to the device. Each step
//! moves one block, the one furthest from the end first. What this module
//! holds is the registers and the arithmetic; whoever owns the device and the
//! bus moves the bytes.
use crate::lemma_history_head;
use crate::{Access, AddressBusIO};
use vstd::prelude::*;

verus! {

/// One block to move.
#[derive(Clone, Copy, Debug, PartialEq, Eq, Structural)]
pub struct Transfer {
    /// The number of the block on the device.
    pub block: u16,
    /// The bus address of the first byte of the block.
    pub address: u16,
    /// Whether the block goes from the bus to the device.
    pub to_device: bool,
}

/// The registers of the engine.
#[derive(Clone, Copy, Debug, PartialEq, Eq, Structural)]
pub struct DmaRegisters {
    pub block: u16,
    pub blocks_to_transfer: u8,
    pub address: u16,
    pub flags: u8,
    /// Which byte of the block number the next write to cell 0 gives.
    pub block_counter: u8,
    /// Which byte of the address the next write to cell 1 gives.
    pub address_counter: u8,
}

/// The byte `value` as the part of a 16-bit register that write number
/// `counter` gives: the first write gives the byte itself, the second
/// nothing.
pub open spec fn part(value: u8, counter: u8) -> u16 {
    if counter == 0 {
        value as u16
    } else {
        0
    }
}

/// The counter behind `counter`: it alternates between the two bytes.
pub open spec fn turned(counter: u8) -> u8 {
    if counter == 0 {
        1
    } else {
        0
    }
}

impl DmaRegisters {
    /// Whether the two byte counters are in their range.
    pub open spec fn wf(self) -> bool {
        self.block_counter <= 1 && self.address_counter <= 1
    }

    /// The registers after a write of `value` at `address`.
    pub open spec fn written(self, address: u16, value: u8) -> DmaRegisters {
        if address == 0 {
            DmaRegisters {
                block: self.block | part(value, self.block_counter),
                block_counter: turned(self.block_counter),
                ..self
            }
        } else if address == 1 {
            DmaRegisters {
                address: self.address | part(value, self.address_counter),
                address_counter: turned(self.address_counter),
                ..self
            }
        } else if address == 2 {
            DmaRegisters { blocks_to_transfer: value, ..self }
        } else if address == 3 {
            DmaRegisters { flags: value, ..self }
        } else {
            self
        }
    }

    /// What a read at `address` returns.
    pub open spec fn answer(self, address: u16) -> u8 {
        if address == 2 {
            self.blocks_to_transfer
        } else if address == 3 {
            self.flags
        } else {
            0
        }
    }

    /// The registers after `access`.
    pub open spec fn accessed(self, access: Access<u16, u8>) -> DmaRegisters {
        match access {
            Access::Read { .. } => self,
            Access::Write { address, value } => self.written(address, value),
        }
    }

    /// The registers after every access of `history`, in order.
    pub open spec fn replayed(self, history: Seq<Access<u16, u8>>) -> DmaRegisters
        decreases history.len(),
    {
        if history.len() == 0 {
            self
        } else {
            self.accessed(history[0]).replayed(history.skip(1))
        }
    }

    /// The block that the next step moves, if any is left: with `n` blocks
    /// to go it is block `block - n`, at the bus address `n` blocks before
    /// `address`, all modulo sixteen bits.
    pub open spec fn pending(self, block_size: u16) -> Option<Transfer> {
        if self.blocks_to_transfer == 0 {
            None
        } else {
            let current = self.block.wrapping_sub(self.blocks_to_transfer as u16);
            Some(
                Transfer {
                    block: current,
                    address: self.address.wrapping_add(
                        current.wrapping_sub(self.block).wrapping_mul(block_size),
                    ),
                    to_device: self.flags & 0x01 == 1,
                },
            )
        }
    }

    /// Registers that ask for nothing.
    pub fn new() -> (registers: DmaRegisters)
        ensures
            registers == (DmaRegisters {
                block: 0,
                blocks_to_transfer: 0,
                address: 0,
                flags: 0,
                block_counter: 0,
                address_counter: 0,
            }),
    {
        DmaRegisters {
            block: 0,
            blocks_to_transfer: 0,
            address: 0,
            flags: 0,
            block_counter: 0,
            address_counter: 0,
        }
    }

    /// The block that the next step moves, if any is left.
    pub fn next_transfer(&self, block_size: u16) -> (transfer: Option<Transfer>)
        ensures
            transfer == self.pending(block_size),
    {
        if self.blocks_to_transfer == 0 {
            return None;
        }
        let current = self.block.wrapping_sub(self.blocks_to_transfer as u16);
        let address = self.address.wrapping_add(
            current.wrapping_sub(self.block).wrapping_mul(block_size),
        );
        Some(Transfer { block: current, address, to_device: self.flags & 0x01 == 1 })
    }

    /// Counts one block as moved.
    pub fn complete(&mut self)
        requires
            old(self).blocks_to_transfer > 0,
        ensures
            *final(self) == (DmaRegisters {
                blocks_to_transfer: (old(self).blocks_to_transfer - 1) as u8,
                ..*old(self)
            }),
    {
        self.blocks_to_transfer = self.blocks_to_transfer - 1;
    }
}

/// One access and then `rest` is `rest` on the registers that the access
/// leaves.
pub proof fn lemma_replayed_step(
    registers: DmaRegisters,
    first: Access<u16, u8>,
    rest: Seq<Access<u16, u8>>,
)
    ensures
        registers.replayed(seq![first] + rest) == registers.accessed(first).replayed(rest),
{
    lemma_history_head(first, rest);
}

impl AddressBusIO<u16, u8> for DmaRegisters {
    /// The two byte counters must be in their range; every address is
    /// answered.
    open spec fn readable(&self, history: Seq<Access<u16, u8>>, address: u16) -> bool {
        self.wf()
    }

    open spec fn writable(&self, history: Seq<Access<u16, u8>>, address: u16) -> bool {
        self.wf()
    }

    open spec fn value(&self, history: Seq<Access<u16, u8>>, address: u16) -> u8 {
        self.replayed(history).answer(address)
    }

    fn read(&mut self, address: u16) -> (value: u8)
        ensures
            *final(self) == *old(self),
    {
        proof {
            assert forall|history: Seq<Access<u16, u8>>, at: u16| #[trigger]
                self.value(history, at) == old(self).value(
                    seq![Access::Read { address }] + history,
                    at,
                ) by {
                lemma_replayed_step(*self, Access::Read { address }, history);
            }
        }
        match address {
            2 => self.blocks_to_transfer,
            3 => self.flags,
            _ => 0,
        }
    }

    fn write(&mut self, address: u16, value: u8)
        ensures
            *final(self) == old(self).written(address, value),
    {
        match address {
            0 => {
                if self.block_counter == 0 {
                    self.block = self.block | (value as u16);
                }
                self.block_counter = self.block_counter + 1;
                if self.block_counter > 1 {
                    self.block_counter = 0;
                }
            },
            1 => {
                if self.address_counter == 0 {
                    self.address = self.address | (value as u16);
                }
                self.address_counter = self.address_counter + 1;
                if self.address_counter > 1 {
                    self.address_counter = 0;
                }
            },
            2 => {
                self.blocks_to_transfer = value;
            },
            3 => {
                self.flags = value;
            },
            _ => {},
        }
        proof {
            let block = old(self).block;
            let target = old(self).address;
            assert(block | 0u16 == block) by (bit_vector);
            assert(target | 0u16 == target) by (bit_vector);
            assert forall|history: Seq<Access<u16, u8>>, at: u16| #[trigger]
                self.value(history, at) == old(self).value(
                    seq![Access::Write { address, value }] + history,
                    at,
                ) by {
                lemma_replayed_step(*old(self), Access::Write { address, value }, history);
            }
        }
    }
}

/// The byte counters stay in their range whatever is written.
pub proof fn lemma_wf_stays(registers: DmaRegisters, history: Seq<Access<u16, u8>>)
    requires
        registers.wf(),
    ensures
        registers.replayed(history).wf(),
    decreases history.len(),
{
    if history.len() > 0 {
        lemma_wf_stays(registers.accessed(history[0]), history.skip(1));
    }
}

} // verus!
