//! The relational backend: an address-space table, keyed by computer and
//! address, that this process holds itself.
//!
//! A computer enters the table in one piece, with all 65536 bytes of its
//! address space, and is never changed or removed afterwards.

use crate::bios::{out_api, out_transition, Output};
use crate::cpu::Cpu;
use crate::error::Error;
use crate::ident::{hyphenated, is_identifier_text, is_random_version, ComputerId};
use crate::image::{build_image, image_of};
use crate::memory::AddressSpace;
use crate::text::string_at;
use vstd::prelude::*;

verus! {

/// One row of the table: the byte that a computer holds at an address.
#[derive(Clone, Debug, PartialEq, Eq)]
pub struct AddressSpaceEntry {
    pub computer: String,
    pub address: u16,
    pub value: u8,
}

/// One computer: its identifier and its address space.
struct Computer {
    id: String,
    memory: AddressSpace,
}

/// The address-space table. Its view maps the identifier of every computer
/// it holds to that computer's memory.
pub struct AddressSpaceTable {
    computers: Vec<Computer>,
}

impl View for AddressSpaceTable {
    type V = Map<Seq<char>, Seq<u8>>;

    closed spec fn view(&self) -> Map<Seq<char>, Seq<u8>> {
        Map::new(
            |id: Seq<char>| exists|i: int| self.holds(id, i),
            |id: Seq<char>| self.computers@[choose|i: int| self.holds(id, i)].memory@,
        )
    }
}

/// What the console is owed for `output`, given the memories of all
/// computers and the identifier of the one that trapped.
pub open spec fn console_bytes(
    memories: Map<Seq<char>, Seq<u8>>,
    id: Seq<char>,
    output: Output,
) -> Result<Seq<u8>, Error> {
    match output {
        Output::StringAt(address) => if memories.contains_key(id) {
            Ok(string_at(memories[id], address as int))
        } else {
            Err(Error::UnknownComputer)
        },
        _ => Ok(output.immediate()->Some_0),
    }
}

/// Whether some random identifier is taken: its text is the identifier of a
/// computer among `memories`. Where none is, every draw is new.
pub open spec fn holds_random_identifier(memories: Map<Seq<char>, Seq<u8>>) -> bool {
    exists|value: u128|
        is_random_version(value) && memories.contains_key(#[trigger] hyphenated(value))
}

impl AddressSpaceTable {
    /// Whether the computer at `index` has the identifier `id`.
    closed spec fn holds(self, id: Seq<char>, index: int) -> bool {
        0 <= index < self.computers@.len() && self.computers@[index].id@ == id
    }

    /// No identifier occurs twice.
    #[verifier::type_invariant]
    closed spec fn well_formed(self) -> bool {
        forall|i: int, j: int|
            0 <= i < j < self.computers@.len() ==> (#[trigger] self.computers@[i]).id@ != (
            #[trigger] self.computers@[j]).id@
    }

    /// A table that holds one computer more than `self`, under an identifier
    /// that `self` does not hold, maps that identifier to the new computer's
    /// memory and is otherwise as `self`.
    proof fn push_is_insert(self, after: AddressSpaceTable)
        requires
            self.well_formed(),
            after.computers@.len() == self.computers@.len() + 1,
            after.computers@.drop_last() == self.computers@,
            forall|i: int| !self.holds(after.computers@[self.computers@.len() as int].id@, i),
        ensures
            after@ == self@.insert(
                after.computers@[self.computers@.len() as int].id@,
                after.computers@[self.computers@.len() as int].memory@,
            ),
    {
        let last = self.computers@.len() as int;
        let key = after.computers@[last].id@;
        let bytes = after.computers@[last].memory@;
        assert(after.holds(key, last));
        assert forall|i: int| 0 <= i < last implies after.computers@[i] == self.computers@[i] by {
            assert(after.computers@.drop_last()[i] == after.computers@[i]);
        }
        assert forall|k: Seq<char>| #[trigger]
            after@.contains_key(k) <==> self@.insert(key, bytes).contains_key(k) by {
            if after@.contains_key(k) {
                let i = choose|i: int| after.holds(k, i);
                assert(after.holds(k, i));
                if i < last {
                    assert(self.holds(k, i));
                }
            }
            if self@.contains_key(k) {
                let i = choose|i: int| self.holds(k, i);
                assert(self.holds(k, i));
                assert(after.holds(k, i));
            }
        }
        assert forall|k: Seq<char>| #[trigger] after@.contains_key(k) implies after@[k]
            == self@.insert(key, bytes)[k] by {
            let i = choose|i: int| after.holds(k, i);
            assert(after.holds(k, i));
            if k == key {
                if i < last {
                    assert(after.computers@[i] == self.computers@[i]);
                    assert(self.holds(k, i));
                }
            } else {
                assert(after.computers@[i] == self.computers@[i]);
                assert(self.holds(k, i));
                let j = choose|j: int| self.holds(k, j);
                assert(self.holds(k, j));
                assert(i == j);
            }
        }
        assert(after@ =~= self@.insert(key, bytes));
    }

    /// An empty table.
    pub fn new() -> (table: AddressSpaceTable)
        ensures
            table@ == Map::<Seq<char>, Seq<u8>>::empty(),
    {
        let table = AddressSpaceTable { computers: Vec::new() };
        assert(table@ =~= Map::<Seq<char>, Seq<u8>>::empty()) by {
            assert(forall|id: Seq<char>, i: int| !table.holds(id, i));
        }
        table
    }

    /// The index of the computer `id`, if the table holds it.
    fn find(&self, id: &String) -> (found: Option<usize>)
        ensures
            match found {
                Some(index) => self.holds(id@, index as int) && self@.contains_key(id@)
                    && self@[id@] == self.computers@[index as int].memory@
                    && self@[id@].len() == 0x10000,
                None => !self@.contains_key(id@) && forall|i: int| !self.holds(id@, i),
            },
    {
        proof {
            use_type_invariant(self);
        }
        let mut index: usize = 0;
        while index < self.computers.len()
            invariant
                self.well_formed(),
                index <= self.computers@.len(),
                forall|i: int| 0 <= i < index ==> !self.holds(id@, i),
            decreases self.computers@.len() - index,
        {
            let computer: &Computer = &self.computers[index];
            if computer.id == *id {
                proof {
                    use_type_invariant(&computer.memory);
                    assert(self.holds(id@, index as int));
                    let chosen = choose|i: int| self.holds(id@, i);
                    assert(self.holds(id@, chosen));
                    assert(chosen == index);
                }
                return Some(index);
            }
            index += 1;
        }
        assert(forall|i: int| !self.holds(id@, i));
        None
    }

    /// Whether the table holds a computer with this identifier. One that it
    /// holds owns exactly 65536 bytes.
    pub fn contains(&self, id: &String) -> (present: bool)
        ensures
            present == self@.contains_key(id@),
            present ==> self@[id@].len() == 0x10000,
    {
        self.find(id).is_some()
    }

    /// Enters a computer with its whole address space.
    ///
    /// The image must have exactly 65536 bytes and the identifier must be
    /// new; otherwise the table stays as it was. The computer enters whole or
    /// not at all.
    pub fn initialise(&mut self, id: String, image: Vec<u8>) -> (done: Result<(), Error>)
        ensures
            image@.len() != 0x10000 ==> done == Err::<(), Error>(Error::ImageSize(image.len()))
                && final(self)@ == old(self)@,
            image@.len() == 0x10000 && old(self)@.contains_key(id@) ==> done == Err::<(), Error>(
                Error::ComputerExists,
            ) && final(self)@ == old(self)@,
            image@.len() == 0x10000 && !old(self)@.contains_key(id@) ==> done == Ok::<(), Error>(())
                && final(self)@ == old(self)@.insert(id@, image@),
    {
        let memory: AddressSpace = match AddressSpace::from_image(image) {
            Ok(memory) => memory,
            Err(error) => {
                return Err(error);
            },
        };
        if self.find(&id).is_some() {
            return Err(Error::ComputerExists);
        }
        proof {
            use_type_invariant(&*self);
        }
        let ghost before = *self;
        let mut computers: Vec<Computer> = Vec::new();
        std::mem::swap(&mut computers, &mut self.computers);
        computers.push(Computer { id, memory });
        proof {
            assert forall|i: int| 0 <= i < before.computers@.len() implies (
            #[trigger] computers@[i]).id@ != id@ by {
                assert(!before.holds(id@, i));
            }
        }
        self.computers = computers;
        proof {
            assert(self.computers@.drop_last() =~= before.computers@);
            before.push_is_insert(*self);
        }
        Ok(())
    }

    /// Reads the memory of computer `id` from `start` to the end of the
    /// address space, in ascending order of address.
    pub fn read_from(&self, id: &String, start: u16) -> (read: Result<Vec<u8>, Error>)
        ensures
            self@.contains_key(id@) ==> (read matches Ok(bytes) && bytes@ == self@[id@].skip(
                start as int,
            )),
            !self@.contains_key(id@) ==> read == Err::<Vec<u8>, Error>(Error::UnknownComputer),
    {
        match self.find(id) {
            Some(index) => Ok(self.computers[index].memory.read_from(start)),
            None => Err(Error::UnknownComputer),
        }
    }

    /// The row of computer `id` at `address`.
    pub fn entry(&self, id: &String, address: u16) -> (row: Option<AddressSpaceEntry>)
        ensures
            self@.contains_key(id@) ==> (row matches Some(entry) && entry.computer@ == id@
                && entry.address == address && entry.value == self@[id@][address as int]),
            !self@.contains_key(id@) ==> row is None,
    {
        match self.find(id) {
            Some(index) => Some(
                AddressSpaceEntry {
                    computer: id.clone(),
                    address,
                    value: self.computers[index].memory.byte(address),
                },
            ),
            None => None,
        }
    }

    /// Extracts the string that computer `id` holds at `start`. The range is
    /// bounded in the table: the first sentinel from `start` on is located,
    /// and only the bytes before it are read.
    pub fn extract_string(&self, id: &String, start: u16) -> (string: Result<Vec<u8>, Error>)
        ensures
            self@.contains_key(id@) ==> (string matches Ok(text) && text@ == string_at(
                self@[id@],
                start as int,
            )),
            !self@.contains_key(id@) ==> string == Err::<Vec<u8>, Error>(Error::UnknownComputer),
    {
        match self.find(id) {
            Some(index) => Ok(self.computers[index].memory.extract_string(start)),
            None => Err(Error::UnknownComputer),
        }
    }

    /// Loads `program` as the computer `id`: its address space is built and
    /// entered into the table, and the identifier's text is the answer.
    pub fn load_as(&mut self, id: ComputerId, program: Vec<u8>) -> (loaded: Result<String, Error>)
        ensures
            old(self)@.contains_key(id.text()) ==> loaded == Err::<String, Error>(
                Error::ComputerExists,
            ) && final(self)@ == old(self)@,
            !old(self)@.contains_key(id.text()) ==> (loaded matches Ok(text) && text@ == id.text()
                && final(self)@ == old(self)@.insert(id.text(), image_of(program@))),
    {
        let image: Vec<u8> = build_image(program);
        match self.initialise(id.to_text(), image) {
            Ok(()) => Ok(id.to_text()),
            Err(error) => Err(error),
        }
    }

    /// Loads `program` as a new computer under a fresh random identifier.
    ///
    /// The load fails only where the identifier drawn is already taken, and
    /// then leaves the table as it was. So it succeeds wherever the table
    /// holds no computer under a random identifier's text: into an empty
    /// table, always.
    pub fn load_data(&mut self, program: Vec<u8>) -> (loaded: Result<String, Error>)
        ensures
            match loaded {
                Ok(text) => is_identifier_text(text@) && !old(self)@.contains_key(text@)
                    && final(self)@ == old(self)@.insert(text@, image_of(program@)),
                Err(error) => error == Error::ComputerExists && final(self)@ == old(self)@,
            },
            !holds_random_identifier(old(self)@) ==> loaded is Ok,
    {
        let id: ComputerId = ComputerId::generate();
        self.load_as(id, program)
    }

    /// An `OUT` trap, resolved against this table: the next snapshot and the
    /// bytes that go to the console.
    pub fn out(&self, port: Option<u8>, cpu: Cpu) -> (trapped: Result<(Cpu, Vec<u8>), Error>)
        ensures
            match out_transition(port, cpu) {
                Ok((next, output)) => match console_bytes(self@, cpu.id@, output) {
                    Ok(bytes) => trapped matches Ok(pair) && pair.0 == next && pair.1@ == bytes,
                    Err(error) => trapped == Err::<(Cpu, Vec<u8>), Error>(error),
                },
                Err(error) => trapped == Err::<(Cpu, Vec<u8>), Error>(error),
            },
    {
        let (next, output) = match out_api(port, cpu) {
            Ok(step) => step,
            Err(error) => {
                return Err(error);
            },
        };
        match output {
            Output::Nothing => Ok((next, Vec::new())),
            Output::Char(character) => {
                let mut bytes: Vec<u8> = Vec::new();
                bytes.push(character);
                Ok((next, bytes))
            },
            Output::StringAt(address) => match self.extract_string(&next.id, address) {
                Ok(bytes) => Ok((next, bytes)),
                Err(error) => Err(error),
            },
        }
    }
}

} // verus!
