//! One computer's address space: exactly 65536 bytes, addressed by 16 bits.

use crate::error::Error;
use crate::image::{build_image, image_of, ADDRESS_SPACE_SIZE};
use crate::text::{delimiter_is_sentinel_bound, sentinel_bound, string_at, SENTINEL};
use vstd::prelude::*;

verus! {

/// An address space. Its view is the sequence of its bytes, by address.
pub struct AddressSpace {
    bytes: Vec<u8>,
}

impl View for AddressSpace {
    type V = Seq<u8>;

    closed spec fn view(&self) -> Seq<u8> {
        self.bytes@
    }
}

impl AddressSpace {
    /// An address space holds one byte for each of the 65536 addresses.
    #[verifier::type_invariant]
    pub(crate) open spec fn whole(self) -> bool {
        self@.len() == 0x10000
    }

    /// Takes `image` as an address space, which it is where it has exactly
    /// 65536 bytes.
    pub fn from_image(image: Vec<u8>) -> (space: Result<AddressSpace, Error>)
        ensures
            image@.len() == 0x10000 ==> (space matches Ok(taken) && taken@ == image@),
            image@.len() != 0x10000 ==> space == Err::<AddressSpace, Error>(
                Error::ImageSize(image.len()),
            ),
    {
        if image.len() != ADDRESS_SPACE_SIZE {
            return Err(Error::ImageSize(image.len()));
        }
        Ok(AddressSpace { bytes: image })
    }

    /// The address space of a computer loaded with `program`: the BIOS stub,
    /// then the program, cut or zero-padded to the space above the stub.
    pub fn load(program: Vec<u8>) -> (space: AddressSpace)
        ensures
            space@ == image_of(program@),
    {
        AddressSpace { bytes: build_image(program) }
    }

    /// All bytes, by address.
    pub fn image(&self) -> (bytes: &Vec<u8>)
        ensures
            bytes@ == self@,
            bytes@.len() == 0x10000,
    {
        proof {
            use_type_invariant(self);
        }
        &self.bytes
    }

    /// The byte at `address`.
    pub fn byte(&self, address: u16) -> (value: u8)
        ensures
            value == self@[address as int],
    {
        proof {
            use_type_invariant(self);
        }
        self.bytes[address as usize]
    }

    /// Copies the bytes from `start` up to `bound`.
    fn copy_range(&self, start: usize, bound: usize) -> (read: Vec<u8>)
        requires
            start <= bound <= 0x10000,
        ensures
            read@ == self@.subrange(start as int, bound as int),
    {
        proof {
            use_type_invariant(self);
        }
        let mut read: Vec<u8> = Vec::new();
        let mut address: usize = start;
        while address < bound
            invariant
                start <= address <= bound <= self.bytes@.len(),
                read@ == self.bytes@.subrange(start as int, address as int),
            decreases bound - address,
        {
            read.push(self.bytes[address]);
            address += 1;
            assert(read@ =~= self.bytes@.subrange(start as int, address as int));
        }
        read
    }

    /// Reads from `start` to the end of the address space, in ascending
    /// order of address.
    pub fn read_from(&self, start: u16) -> (read: Vec<u8>)
        ensures
            read@ == self@.skip(start as int),
            read@.len() == 0x10000 - start,
    {
        proof {
            use_type_invariant(self);
        }
        self.copy_range(start as usize, ADDRESS_SPACE_SIZE)
    }

    /// The address of the first sentinel from `start` on, or 0x10000 where
    /// none follows.
    pub fn find_sentinel(&self, start: u16) -> (bound: usize)
        ensures
            bound == sentinel_bound(self@, start as int),
            start <= bound <= 0x10000,
    {
        proof {
            use_type_invariant(self);
        }
        let mut bound: usize = start as usize;
        while bound < ADDRESS_SPACE_SIZE && self.bytes[bound] != SENTINEL
            invariant
                self.bytes@.len() == 0x10000,
                start <= bound <= 0x10000,
                forall|address: int| start <= address < bound ==> self.bytes@[address] != SENTINEL,
            decreases 0x10000 - bound,
        {
            bound += 1;
        }
        proof {
            delimiter_is_sentinel_bound(self@, start as int, bound as int);
        }
        bound
    }

    /// Extracts the string at `start` by bounding the range where the memory
    /// lies: the first sentinel is located, and only the bytes before it are
    /// read.
    pub fn extract_string(&self, start: u16) -> (text: Vec<u8>)
        ensures
            text@ == string_at(self@, start as int),
    {
        let bound: usize = self.find_sentinel(start);
        self.copy_range(start as usize, bound)
    }
}

} // verus!
