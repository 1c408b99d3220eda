//! The registers of a terminal device.
//!
//! The device has four cells. A read of cell 0 takes a byte of input, or
//! zero where none is waiting; cells 1 and 2 read back the byte last written
//! to the standard output and to the standard error. A write to cell 1 goes
//! to the standard output, one to cell 2 to the standard error, and one to
//! cell 3 ends the program with the written byte as its status. What this
//! module holds is the registers and the decisions; whoever owns the streams
//! carries the decisions out.
use vstd::prelude::*;

verus! {

/// What a write asks the owner of the streams to do.
#[derive(Clone, Copy, Debug, PartialEq, Eq, Structural)]
pub enum TermAction {
    /// Nothing.
    Nothing,
    /// Put the byte on the standard output.
    Stdout(u8),
    /// Put the byte on the standard error.
    Stderr(u8),
    /// End the program with this status.
    Exit(u8),
}

/// The two registers that remember what was last written.
pub struct UnixTerm {
    pub last_stdout: u8,
    pub last_stderr: u8,
}

impl UnixTerm {
    /// What a write of `value` at `address` asks for.
    pub open spec fn action(address: u8, value: u8) -> TermAction {
        if address == 0x01 {
            TermAction::Stdout(value)
        } else if address == 0x02 {
            TermAction::Stderr(value)
        } else if address == 0x03 {
            TermAction::Exit(value)
        } else {
            TermAction::Nothing
        }
    }

    /// What a read at `address` returns when `input` is the byte of input
    /// that is waiting, if one is.
    pub open spec fn answer(&self, address: u8, input: Option<u8>) -> u8 {
        if address == 0x00 {
            match input {
                Some(byte) => byte,
                None => 0,
            }
        } else if address == 0x01 {
            self.last_stdout
        } else if address == 0x02 {
            self.last_stderr
        } else {
            0
        }
    }

    /// Registers that remember nothing yet.
    pub fn new() -> (term: UnixTerm)
        ensures
            term.last_stdout == 0,
            term.last_stderr == 0,
    {
        UnixTerm { last_stdout: 0, last_stderr: 0 }
    }

    /// Answers a read at `address`. `input` is the byte of input that is
    /// waiting, if one is; only cell 0 takes it.
    pub fn read(&self, address: u8, input: Option<u8>) -> (value: u8)
        ensures
            value == self.answer(address, input),
    {
        match address {
            0x00 => match input {
                Some(byte) => byte,
                None => 0,
            },
            0x01 => self.last_stdout,
            0x02 => self.last_stderr,
            _ => 0,
        }
    }

    /// Takes a write of `value` at `address`: remembers a byte written to
    /// one of the two streams, and says what is to be done.
    pub fn write(&mut self, address: u8, value: u8) -> (action: TermAction)
        ensures
            action == Self::action(address, value),
            final(self).last_stdout == if address == 0x01 {
                value
            } else {
                old(self).last_stdout
            },
            final(self).last_stderr == if address == 0x02 {
                value
            } else {
                old(self).last_stderr
            },
    {
        match address {
            0x01 => {
                self.last_stdout = value;
                TermAction::Stdout(value)
            },
            0x02 => {
                self.last_stderr = value;
                TermAction::Stderr(value)
            },
            0x03 => TermAction::Exit(value),
            _ => TermAction::Nothing,
        }
    }
}

} // verus!
