//! The commands of the line debugger.
//!
//! A line is a command word and up to two numbers, written as
//! [`to_number`](crate::utils::to_number) reads them: `p <address>` shows a
//! cell and `p <address> <amount>` a run of cells, `w <address> <value>`
//! changes a cell, `j <address>` moves the cursor, `s` runs one instruction,
//! and `q` or `r` leaves the debugger. What this module holds is the reading
//! of a line that has been cut into words; whoever owns the terminal reads
//! the lines and carries the commands out.
use crate::utils::{literal_digits, literal_radix, to_number};
use crate::{Address, Data};
use vstd::prelude::*;

verus! {

/// Which command a usage message is for.
#[derive(Clone, Copy, Debug, PartialEq, Eq, Structural)]
pub enum Usage {
    Print,
    Write,
    Jump,
}

/// What a line asks for.
pub enum Command<T, U> {
    /// An empty line.
    Nothing,
    /// Show the cell at the address.
    Show(T),
    /// Show as many cells as the second number says, from the address on.
    Dump(T, T),
    /// Give the cell at the address the value.
    Write(T, U),
    /// Move the cursor to the address.
    Jump(T),
    /// Run one instruction.
    Step,
    /// Leave the debugger.
    Quit,
    /// A number is missing.
    Syntax(Usage),
    /// A number could not be read.
    Malformed(core::num::ParseIntError),
    /// The command word is not known.
    Unknown,
}

/// What a line asks for, without the parser's own account of a number that
/// could not be read.
pub enum Meaning<T, U> {
    Nothing,
    Show(T),
    Dump(T, T),
    Write(T, U),
    Jump(T),
    Step,
    Quit,
    Syntax(Usage),
    Malformed,
    Unknown,
}

impl<T, U> Command<T, U> {
    pub open spec fn meaning(self) -> Meaning<T, U> {
        match self {
            Command::Nothing => Meaning::Nothing,
            Command::Show(address) => Meaning::Show(address),
            Command::Dump(address, amount) => Meaning::Dump(address, amount),
            Command::Write(address, value) => Meaning::Write(address, value),
            Command::Jump(address) => Meaning::Jump(address),
            Command::Step => Meaning::Step,
            Command::Quit => Meaning::Quit,
            Command::Syntax(usage) => Meaning::Syntax(usage),
            Command::Malformed(_) => Meaning::Malformed,
            Command::Unknown => Meaning::Unknown,
        }
    }
}

/// The number that `text` is a literal of, for the width `T`.
pub open spec fn number_of<T: Address>(text: Seq<char>) -> Option<T> {
    T::parsed(literal_digits(text), literal_radix(text))
}

/// Whether `text` is the one letter `letter`.
pub open spec fn is_word(text: Seq<char>, letter: char) -> bool {
    text.len() == 1 && text[0] == letter
}

/// What `p` with the words `second` and `third` behind it asks for.
pub open spec fn print_meaning<T: Address, U: Data>(
    second: Option<Seq<char>>,
    third: Option<Seq<char>>,
) -> Meaning<T, U> {
    match second {
        None => Meaning::Syntax(Usage::Print),
        Some(first_number) => match number_of::<T>(first_number) {
            None => Meaning::Malformed,
            Some(address) => match third {
                None => Meaning::Show(address),
                Some(second_number) => match number_of::<T>(second_number) {
                    None => Meaning::Malformed,
                    Some(amount) => Meaning::Dump(address, amount),
                },
            },
        },
    }
}

/// What `w` with the words `second` and `third` behind it asks for.
pub open spec fn write_meaning<T: Address, U: Data>(
    second: Option<Seq<char>>,
    third: Option<Seq<char>>,
) -> Meaning<T, U> {
    match second {
        None => Meaning::Syntax(Usage::Write),
        Some(first_number) => match number_of::<T>(first_number) {
            None => Meaning::Malformed,
            Some(address) => match third {
                None => Meaning::Syntax(Usage::Write),
                Some(second_number) => match number_of::<U>(second_number) {
                    None => Meaning::Malformed,
                    Some(value) => Meaning::Write(address, value),
                },
            },
        },
    }
}

/// What `j` with the word `second` behind it asks for.
pub open spec fn jump_meaning<T: Address, U: Data>(second: Option<Seq<char>>) -> Meaning<T, U> {
    match second {
        None => Meaning::Syntax(Usage::Jump),
        Some(number) => match number_of::<T>(number) {
            None => Meaning::Malformed,
            Some(address) => Meaning::Jump(address),
        },
    }
}

/// What a line asks for whose first three words are `first`, `second` and
/// `third`.
pub open spec fn line_meaning<T: Address, U: Data>(
    first: Option<Seq<char>>,
    second: Option<Seq<char>>,
    third: Option<Seq<char>>,
) -> Meaning<T, U> {
    match first {
        None => Meaning::Nothing,
        Some(word) => if is_word(word, 'p') {
            print_meaning::<T, U>(second, third)
        } else if is_word(word, 'w') {
            write_meaning::<T, U>(second, third)
        } else if is_word(word, 'j') {
            jump_meaning::<T, U>(second)
        } else if is_word(word, 'q') || is_word(word, 'r') {
            Meaning::Quit
        } else if is_word(word, 's') {
            Meaning::Step
        } else {
            Meaning::Unknown
        },
    }
}

/// The words of a line as sequences of characters.
pub open spec fn word_view(word: Option<&str>) -> Option<Seq<char>> {
    match word {
        Some(text) => Some(text@),
        None => None,
    }
}

/// Whether `word` is the one letter `letter`.
fn is_letter(word: &str, letter: char) -> (same: bool)
    ensures
        same == is_word(word@, letter),
{
    word.unicode_len() == 1 && word.get_char(0) == letter
}

/// Reads `p` and what stands behind it.
fn read_print<T: Address, U: Data>(second: Option<&str>, third: Option<&str>) -> (command: Command<
    T,
    U,
>)
    ensures
        command.meaning() == print_meaning::<T, U>(word_view(second), word_view(third)),
{
    match second {
        None => Command::Syntax(Usage::Print),
        Some(first_number) => match to_number::<T>(first_number) {
            Err(error) => Command::Malformed(error),
            Ok(address) => match third {
                None => Command::Show(address),
                Some(second_number) => match to_number::<T>(second_number) {
                    Err(error) => Command::Malformed(error),
                    Ok(amount) => Command::Dump(address, amount),
                },
            },
        },
    }
}

/// Reads `w` and what stands behind it.
fn read_write<T: Address, U: Data>(second: Option<&str>, third: Option<&str>) -> (command: Command<
    T,
    U,
>)
    ensures
        command.meaning() == write_meaning::<T, U>(word_view(second), word_view(third)),
{
    match second {
        None => Command::Syntax(Usage::Write),
        Some(first_number) => match to_number::<T>(first_number) {
            Err(error) => Command::Malformed(error),
            Ok(address) => match third {
                None => Command::Syntax(Usage::Write),
                Some(second_number) => match to_number::<U>(second_number) {
                    Err(error) => Command::Malformed(error),
                    Ok(value) => Command::Write(address, value),
                },
            },
        },
    }
}

/// Reads `j` and what stands behind it.
fn read_jump<T: Address, U: Data>(second: Option<&str>) -> (command: Command<T, U>)
    ensures
        command.meaning() == jump_meaning::<T, U>(word_view(second)),
{
    match second {
        None => Command::Syntax(Usage::Jump),
        Some(number) => match to_number::<T>(number) {
            Err(error) => Command::Malformed(error),
            Ok(address) => Command::Jump(address),
        },
    }
}

/// Reads a line from its first three words; a word that the line does not
/// have is `None`.
pub fn command<T: Address, U: Data>(
    first: Option<&str>,
    second: Option<&str>,
    third: Option<&str>,
) -> (command: Command<T, U>)
    ensures
        command.meaning() == line_meaning::<T, U>(
            word_view(first),
            word_view(second),
            word_view(third),
        ),
{
    match first {
        None => Command::Nothing,
        Some(word) => {
            if is_letter(word, 'p') {
                read_print(second, third)
            } else if is_letter(word, 'w') {
                read_write(second, third)
            } else if is_letter(word, 'j') {
                read_jump(second)
            } else if is_letter(word, 'q') || is_letter(word, 'r') {
                Command::Quit
            } else if is_letter(word, 's') {
                Command::Step
            } else {
                Command::Unknown
            }
        },
    }
}

/// One line of a dump: the address it is labelled with, and how many cells
/// follow the label.
#[derive(Clone, Copy, Debug, PartialEq, Eq, Structural)]
pub struct Row {
    pub label: u64,
    pub cells: u64,
}

/// Line `line` of a dump of `amount` cells from `address` on: sixteen cells
/// to the line, the rest on the last.
pub open spec fn dump_row(address: u64, amount: u64, line: int) -> Row {
    Row {
        label: (address + 16 * line) as u64,
        cells: if amount - 16 * line >= 16 {
            16
        } else {
            (amount - 16 * line) as u64
        },
    }
}

/// The lines of a dump of `amount` cells from `address` on. A line that is
/// full is always followed by another, so the last line may have its label
/// and no cell.
pub fn dump_rows(address: u64, amount: u64) -> (rows: Vec<Row>)
    requires
        address + amount <= u64::MAX,
    ensures
        rows@.len() == amount / 16 + 1,
        forall|line: int|
            0 <= line < rows@.len() ==> #[trigger] rows@[line] == dump_row(address, amount, line),
{
    let mut rows: Vec<Row> = Vec::new();
    let mut done: u64 = 0;
    while amount - done >= 16
        invariant
            done <= amount,
            address + amount <= u64::MAX,
            done % 16 == 0,
            rows@.len() == done / 16,
            forall|line: int|
                0 <= line < rows@.len() ==> #[trigger] rows@[line] == dump_row(
                    address,
                    amount,
                    line,
                ),
        decreases amount - done,
    {
        rows.push(Row { label: address + done, cells: 16 });
        done = done + 16;
    }
    rows.push(Row { label: address + done, cells: amount - done });
    rows
}

} // verus!
