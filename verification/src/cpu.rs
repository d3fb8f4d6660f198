//! The CPU snapshot that the emulator hands over with every trap.

use vstd::prelude::*;

verus! {

/// The five condition flags. Each is independent of the others.
#[derive(Clone, Copy, Debug, PartialEq, Eq, Structural)]
pub struct CpuFlags {
    pub sign: bool,
    pub zero: bool,
    pub aux_carry: bool,
    pub parity: bool,
    pub carry: bool,
}

/// Registers, counters and flags of the CPU.
#[derive(Clone, Copy, Debug, PartialEq, Eq, Structural)]
pub struct CpuState {
    pub a: u8,
    pub b: u8,
    pub c: u8,
    pub d: u8,
    pub e: u8,
    pub h: u8,
    pub l: u8,
    pub stack_pointer: u16,
    pub program_counter: u16,
    pub cycles: u64,
    pub flags: CpuFlags,
    pub interrupts_enabled: bool,
}

/// A CPU snapshot: the state, the computer it belongs to, and the
/// instruction byte that was executed last.
#[derive(Clone, Debug, PartialEq, Eq)]
pub struct Cpu {
    pub state: CpuState,
    pub id: String,
    pub opcode: u8,
}

impl CpuState {
    /// The address in the register pair DE: D is the high byte, E the low.
    pub open spec fn de(self) -> u16 {
        (self.d as int * 0x100 + self.e as int) as u16
    }
}

impl Cpu {
    /// This snapshot with register A replaced.
    pub open spec fn with_a(self, a: u8) -> Cpu {
        Cpu { state: CpuState { a, ..self.state }, ..self }
    }

    /// This snapshot with the program counter replaced.
    pub open spec fn with_program_counter(self, program_counter: u16) -> Cpu {
        Cpu { state: CpuState { program_counter, ..self.state }, ..self }
    }
}

} // verus!
