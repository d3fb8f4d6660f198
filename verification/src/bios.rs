//! The BIOS trap dispatcher: one transition per `IN` or `OUT` that the
//! emulator traps, from the CPU snapshot to the next snapshot and to what the
//! console is owed.

use crate::cpu::{Cpu, CpuState};
use crate::error::{Error, ErrorKind};
use crate::image::{BIOS_PORT, PROGRAM_START};
use vstd::prelude::*;

verus! {

/// BIOS function 0: end the program.
pub const TERMINATE: u8 = 0;

/// BIOS function 1: read a character from the console.
pub const CONSOLE_READ: u8 = 1;

/// BIOS function 2: write the character in register E.
pub const CONSOLE_WRITE: u8 = 2;

/// BIOS function 9: print the `$`-terminated string at the address in DE.
pub const PRINT_STRING: u8 = 9;

/// What a trap owes the console.
#[derive(Clone, Copy, Debug, PartialEq, Eq, Structural)]
pub enum Output {
    /// Nothing is written.
    Nothing,
    /// This one character is written.
    Char(u8),
    /// The string that the computer's memory holds at this address is
    /// written.
    StringAt(u16),
}

impl Output {
    /// The bytes that go to the console where no memory is needed to know
    /// them: none, or the one character. A string is not known before the
    /// memory was read.
    pub open spec fn immediate(self) -> Option<Seq<u8>> {
        match self {
            Output::Nothing => Some(Seq::empty()),
            Output::Char(character) => Some(seq![character]),
            Output::StringAt(_) => None,
        }
    }
}

/// The transition of an `OUT` trap.
///
/// An absent port and every port but 0 change nothing. On port 0 register C
/// selects the BIOS function: 0 ends the program, 1 answers a console read
/// with 0 in register A, 2 writes the character in register E, 9 prints the
/// string at the address in DE, and any other value is an error.
pub open spec fn out_transition(port: Option<u8>, cpu: Cpu) -> Result<(Cpu, Output), Error> {
    if port != Some(BIOS_PORT) {
        Ok((cpu, Output::Nothing))
    } else if cpu.state.c == TERMINATE {
        Err(Error::Terminated)
    } else if cpu.state.c == CONSOLE_READ {
        Ok((cpu.with_a(0), Output::Nothing))
    } else if cpu.state.c == CONSOLE_WRITE {
        Ok((cpu, Output::Char(cpu.state.e)))
    } else if cpu.state.c == PRINT_STRING {
        Ok((cpu, Output::StringAt(cpu.state.de())))
    } else {
        Err(Error::UnknownFunction(cpu.state.c))
    }
}

/// The address in the register pair DE.
pub fn string_address(state: &CpuState) -> (address: u16)
    ensures
        address == state.de(),
{
    let d: u8 = state.d;
    let e: u8 = state.e;
    let address: u16 = ((d as u16) << 8) | (e as u16);
    assert(((d as u16) << 8) | (e as u16) == (d as u16) * 0x100 + (e as u16)) by (bit_vector);
    address
}

/// Session start: the program counter is set to the program's first
/// address, whatever it was; nothing else changes.
pub fn initialise(cpu: Cpu) -> (next: Cpu)
    ensures
        next == cpu.with_program_counter(PROGRAM_START),
        next.state.program_counter == 0x100,
{
    let mut next: Cpu = cpu;
    next.state.program_counter = PROGRAM_START;
    next
}

/// Interrupt poll: the snapshot passes through unchanged.
pub fn interrupt_check(cpu: Cpu) -> (next: Cpu)
    ensures
        next == cpu,
{
    cpu
}

/// An `IN` trap. No input device is attached: on every port, register A
/// becomes 0 and nothing else changes.
pub fn in_api(port: Option<u8>, cpu: Cpu) -> (next: Cpu)
    ensures
        next == cpu.with_a(0),
{
    let _port: Option<u8> = port;
    let mut next: Cpu = cpu;
    next.state.a = 0;
    next
}

/// An `OUT` trap: the next snapshot and what the console is owed, or the
/// error that ends the session.
pub fn out_api(port: Option<u8>, cpu: Cpu) -> (step: Result<(Cpu, Output), Error>)
    ensures
        step == out_transition(port, cpu),
{
    match port {
        Some(number) if number == BIOS_PORT => {},
        _ => {
            return Ok((cpu, Output::Nothing));
        },
    }
    let operation: u8 = cpu.state.c;
    if operation == TERMINATE {
        Err(Error::Terminated)
    } else if operation == CONSOLE_READ {
        let mut next: Cpu = cpu;
        next.state.a = 0;
        Ok((next, Output::Nothing))
    } else if operation == CONSOLE_WRITE {
        let character: u8 = cpu.state.e;
        Ok((cpu, Output::Char(character)))
    } else if operation == PRINT_STRING {
        let address: u16 = string_address(&cpu.state);
        Ok((cpu, Output::StringAt(address)))
    } else {
        Err(Error::UnknownFunction(operation))
    }
}

/// The cases of an `OUT` trap. With no port or with a port other than 0 the
/// snapshot stays as it is and nothing is written. On port 0, function 1
/// clears register A and nothing else, function 2 leaves the snapshot as it
/// is and writes exactly the character in register E, function 9 asks for
/// the string at the address in DE, and function 0 and every other function
/// end the session with a fatal BIOS error.
pub proof fn out_cases(port: Option<u8>, cpu: Cpu)
    ensures
        port != Some(0u8) ==> out_transition(port, cpu) == Ok::<(Cpu, Output), Error>(
            (cpu, Output::Nothing),
        ),
        port == Some(0u8) && cpu.state.c == 1 ==> out_transition(port, cpu) == Ok::<
            (Cpu, Output),
            Error,
        >((cpu.with_a(0), Output::Nothing)),
        port == Some(0u8) && cpu.state.c == 2 ==> out_transition(port, cpu) == Ok::<
            (Cpu, Output),
            Error,
        >((cpu, Output::Char(cpu.state.e))),
        port == Some(0u8) && cpu.state.c == 9 ==> out_transition(port, cpu) == Ok::<
            (Cpu, Output),
            Error,
        >((cpu, Output::StringAt(cpu.state.de()))),
        port == Some(0u8) && cpu.state.c == 0 ==> out_transition(port, cpu) == Err::<
            (Cpu, Output),
            Error,
        >(Error::Terminated),
        port == Some(0u8) && cpu.state.c != 0 && cpu.state.c != 1 && cpu.state.c != 2 && cpu.state.c
            != 9 ==> out_transition(port, cpu) == Err::<(Cpu, Output), Error>(
            Error::UnknownFunction(cpu.state.c),
        ),
        out_transition(port, cpu) matches Err(error) ==> error.kind_of() == ErrorKind::FatalBios,
{
}

} // verus!
