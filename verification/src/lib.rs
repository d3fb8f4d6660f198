//! BIOS-trap bridge for an 8080-class CPU emulator harness.
//!
//! The instruction loop lives elsewhere. This library resolves the `IN` and
//! `OUT` traps that the emulator raises for CP/M-style BIOS calls, builds the
//! 64 KiB address space of a freshly loaded computer, and extracts
//! `$`-terminated strings from guest memory, whichever backend holds it.

pub mod bios;
pub mod codec;
pub mod config;
pub mod cpu;
pub mod decimal;
pub mod error;
pub mod ident;
pub mod image;
pub mod memory;
pub mod remote;
pub mod store;
pub mod text;

use vstd::prelude::*;

verus! {

/// The answer of the health probe.
pub fn status() -> (answer: &'static str)
    ensures
        answer@ == "Healthy"@,
{
    "Healthy"
}

} // verus!
