//! The 64 KiB address space of a freshly loaded computer: a fixed BIOS stub in
//! the low 256 bytes, the program image above it, zero to the end.

use vstd::prelude::*;

verus! {

/// Number of bytes in one computer's address space.
pub const ADDRESS_SPACE_SIZE: usize = 0x10000;

/// Number of bytes reserved for the BIOS stub at the bottom of memory.
pub const BIOS_SIZE: usize = 0x100;

/// Number of bytes left for the program above the BIOS stub.
pub const PROGRAM_SPACE_SIZE: usize = 0xFF00;

/// Address at which a loaded program starts.
pub const PROGRAM_START: u16 = 0x100;

/// Address that the BIOS call convention jumps to.
pub const BIOS_ENTRY: usize = 5;

/// `HLT`, which fills the stub away from the entry window.
pub const HALT: u8 = 0x76;

/// `OUT`, whose operand is the port number in the next byte.
pub const OUT: u8 = 0xD3;

/// The port on which `OUT` is a BIOS call.
pub const BIOS_PORT: u8 = 0;

/// `NOP`.
pub const NOP: u8 = 0x00;

/// `RET`.
pub const RETURN: u8 = 0xC9;

/// The byte of the BIOS stub at `address`: `OUT 0; NOP; RET` in the four
/// bytes from the entry address on, `HLT` everywhere else.
pub open spec fn bios_stub_byte(address: int) -> u8 {
    if address == 5 {
        OUT
    } else if address == 6 {
        BIOS_PORT
    } else if address == 7 {
        NOP
    } else if address == 8 {
        RETURN
    } else {
        HALT
    }
}

/// The whole BIOS stub.
pub open spec fn bios_stub_image() -> Seq<u8> {
    Seq::new(0x100, |address: int| bios_stub_byte(address))
}

/// The byte that a computer loaded with `program` holds at `address`.
/// A program longer than the space above the stub loses its tail.
pub open spec fn image_byte(program: Seq<u8>, address: int) -> u8 {
    if address < 0x100 {
        bios_stub_byte(address)
    } else if address - 0x100 < program.len() {
        program[address - 0x100]
    } else {
        0
    }
}

/// The address space of a computer loaded with `program`.
pub open spec fn image_of(program: Seq<u8>) -> Seq<u8> {
    Seq::new(0x10000, |address: int| image_byte(program, address))
}

/// Builds the BIOS stub.
pub fn bios_stub() -> (stub: Vec<u8>)
    ensures
        stub@ == bios_stub_image(),
{
    let mut stub: Vec<u8> = vec![HALT; BIOS_SIZE];
    stub[BIOS_ENTRY] = OUT;
    stub[BIOS_ENTRY + 1] = BIOS_PORT;
    stub[BIOS_ENTRY + 2] = NOP;
    stub[BIOS_ENTRY + 3] = RETURN;
    assert(stub@ =~= bios_stub_image());
    stub
}

/// Cuts or zero-pads `program` to the space above the BIOS stub and puts the
/// stub in front of it.
pub fn build_image(program: Vec<u8>) -> (image: Vec<u8>)
    ensures
        image@ == image_of(program@),
{
    let mut padded: Vec<u8> = program;
    padded.resize(PROGRAM_SPACE_SIZE, 0);
    let mut image: Vec<u8> = bios_stub();
    image.append(&mut padded);
    assert(image@ =~= image_of(program@));
    image
}

/// Layout of a loaded address space. For every program that fits above the
/// BIOS stub, the image has exactly 65536 bytes, its first 256 bytes are the
/// stub, the program follows from address 0x100 on, and every byte after the
/// program is zero.
pub proof fn image_layout(program: Seq<u8>)
    requires
        program.len() <= 0xFF00,
    ensures
        image_of(program).len() == 0x10000,
        image_of(program).subrange(0, 0x100) == bios_stub_image(),
        image_of(program).subrange(0x100, 0x100 + program.len() as int) == program,
        forall|address: int|
            0x100 + program.len() <= address < 0x10000 ==> image_of(program)[address] == 0,
{
    assert(image_of(program).subrange(0, 0x100) =~= bios_stub_image());
    assert(image_of(program).subrange(0x100, 0x100 + program.len() as int) =~= program);
}

} // verus!
