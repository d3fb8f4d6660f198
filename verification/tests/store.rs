use bios_bridge::cpu::{Cpu, CpuFlags, CpuState};
use bios_bridge::error::Error;
use bios_bridge::ident::ComputerId;
use bios_bridge::image::build_image;
use bios_bridge::store::{AddressSpaceEntry, AddressSpaceTable};
use bios_bridge::text::extract_string;

fn cpu_of(id: &str, c: u8, d: u8, e: u8) -> Cpu {
    Cpu {
        state: CpuState {
            a: 0x7F,
            b: 0,
            c,
            d,
            e,
            h: 0,
            l: 0,
            stack_pointer: 0,
            program_counter: 0x105,
            cycles: 42,
            flags: CpuFlags {
                sign: false,
                zero: false,
                aux_carry: false,
                parity: false,
                carry: false,
            },
            interrupts_enabled: false,
        },
        id: String::from(id),
        opcode: 0xD3,
    }
}

fn known_id() -> ComputerId {
    ComputerId { value: 0x936da01f_9abd_4d9d_80c7_02af85c822a8u128 }
}

#[test]
fn new_table_holds_no_computer() {
    let table: AddressSpaceTable = AddressSpaceTable::new();
    let id: String = known_id().to_text();
    assert!(!table.contains(&id));
    assert_eq!(table.read_from(&id, 0), Err(Error::UnknownComputer));
    assert_eq!(table.extract_string(&id, 0), Err(Error::UnknownComputer));
    assert_eq!(table.entry(&id, 0), None);
}

#[test]
fn initialise_wants_exactly_65536_bytes() {
    let mut table: AddressSpaceTable = AddressSpaceTable::new();
    let id: String = String::from("a");
    assert_eq!(table.initialise(id.clone(), vec![0u8; 65535]), Err(Error::ImageSize(65535)));
    assert_eq!(table.initialise(id.clone(), vec![0u8; 65537]), Err(Error::ImageSize(65537)));
    assert_eq!(table.initialise(id.clone(), Vec::new()), Err(Error::ImageSize(0)));
    assert!(!table.contains(&id));
    assert_eq!(table.initialise(id.clone(), vec![0u8; 65536]), Ok(()));
    assert!(table.contains(&id));
}

#[test]
fn initialise_refuses_an_identifier_twice() {
    let mut table: AddressSpaceTable = AddressSpaceTable::new();
    let id: String = String::from("a");
    assert_eq!(table.initialise(id.clone(), vec![1u8; 65536]), Ok(()));
    assert_eq!(table.initialise(id.clone(), vec![2u8; 65536]), Err(Error::ComputerExists));
    assert_eq!(
        table.entry(&id, 0),
        Some(AddressSpaceEntry { computer: id.clone(), address: 0, value: 1 })
    );
}

#[test]
fn computers_keep_their_own_memory() {
    let mut table: AddressSpaceTable = AddressSpaceTable::new();
    let first: String = String::from("first");
    let second: String = String::from("second");
    assert_eq!(table.initialise(first.clone(), vec![1u8; 65536]), Ok(()));
    assert_eq!(table.initialise(second.clone(), vec![2u8; 65536]), Ok(()));
    assert_eq!(table.read_from(&first, 0xFFFE), Ok(vec![1, 1]));
    assert_eq!(table.read_from(&second, 0xFFFE), Ok(vec![2, 2]));
    assert_eq!(table.read_from(&String::from("third"), 0), Err(Error::UnknownComputer));
}

#[test]
fn read_from_runs_to_the_last_address() {
    let mut table: AddressSpaceTable = AddressSpaceTable::new();
    let id: String = String::from("a");
    let image: Vec<u8> = (0..65536usize).map(|i| (i % 256) as u8).collect();
    assert_eq!(table.initialise(id.clone(), image.clone()), Ok(()));
    assert_eq!(table.read_from(&id, 0), Ok(image.clone()));
    assert_eq!(table.read_from(&id, 0xFF00), Ok(image[0xFF00..].to_vec()));
    assert_eq!(table.read_from(&id, 0xFFFF), Ok(vec![0xFF]));
}

#[test]
fn loaded_program_lies_at_0x100() {
    let mut table: AddressSpaceTable = AddressSpaceTable::new();
    let id: String = table.load_data(vec![0x3E, 0x42, 0x76]).unwrap();
    assert_eq!(id.len(), 36);
    let row = |address: u16, value: u8| {
        Some(AddressSpaceEntry { computer: id.clone(), address, value })
    };
    assert_eq!(table.entry(&id, 0x100), row(0x100, 0x3E));
    assert_eq!(table.entry(&id, 0x101), row(0x101, 0x42));
    assert_eq!(table.entry(&id, 0x102), row(0x102, 0x76));
    assert_eq!(table.entry(&id, 0x103), row(0x103, 0x00));
    assert_eq!(table.entry(&id, 0xFFFF), row(0xFFFF, 0x00));
    assert_eq!(table.entry(&id, 0x0005), row(0x0005, 0xD3));
    assert_eq!(table.entry(&id, 0x0008), row(0x0008, 0xC9));
    assert_eq!(table.entry(&id, 0x0000), row(0x0000, 0x76));
    assert_eq!(table.read_from(&id, 0x103), Ok(vec![0u8; 0x10000 - 0x103]));
    assert_eq!(table.read_from(&id, 0), Ok(build_image(vec![0x3E, 0x42, 0x76])));
}

#[test]
fn load_as_answers_with_the_identifier_text() {
    let mut table: AddressSpaceTable = AddressSpaceTable::new();
    assert_eq!(
        table.load_as(known_id(), vec![1, 2, 3]),
        Ok(String::from("936da01f-9abd-4d9d-80c7-02af85c822a8"))
    );
    assert_eq!(table.load_as(known_id(), vec![4, 5, 6]), Err(Error::ComputerExists));
    assert_eq!(table.read_from(&known_id().to_text(), 0x100).unwrap()[..4], [1, 2, 3, 0]);
}

#[test]
fn two_loads_give_two_computers() {
    let mut table: AddressSpaceTable = AddressSpaceTable::new();
    let first: String = table.load_data(b"ONE$".to_vec()).unwrap();
    let second: String = table.load_data(b"TWO$".to_vec()).unwrap();
    assert_ne!(first, second);
    assert_eq!(table.extract_string(&first, 0x100), Ok(b"ONE".to_vec()));
    assert_eq!(table.extract_string(&second, 0x100), Ok(b"TWO".to_vec()));
}

#[test]
fn extract_string_excludes_the_sentinel() {
    let mut table: AddressSpaceTable = AddressSpaceTable::new();
    let id: String = table.load_data(b"HI$".to_vec()).unwrap();
    assert_eq!(table.extract_string(&id, 0x100), Ok(b"HI".to_vec()));
    assert_eq!(table.extract_string(&id, 0x102), Ok(Vec::new()));
}

#[test]
fn extract_string_without_sentinel_returns_all_remaining_bytes() {
    let mut table: AddressSpaceTable = AddressSpaceTable::new();
    let id: String = table.load_data(b"HI".to_vec()).unwrap();
    let mut expected: Vec<u8> = b"HI".to_vec();
    expected.resize(0xFF00, 0);
    assert_eq!(table.extract_string(&id, 0x100), Ok(expected));
    assert_eq!(table.extract_string(&id, 0xFFFF), Ok(vec![0]));
}

#[test]
fn table_and_reader_cut_the_same_string() {
    let mut table: AddressSpaceTable = AddressSpaceTable::new();
    let program: Vec<u8> = (0..0xFF00usize).map(|i| (i * 13 % 256) as u8).collect();
    let id: String = table.load_data(program).unwrap();
    for start in [0u16, 5, 0x100, 0x123, 0x1000, 0x8000, 0xFFF0, 0xFFFF] {
        let bounded: Vec<u8> = table.extract_string(&id, start).unwrap();
        let scanned: Vec<u8> = extract_string(&table.read_from(&id, start).unwrap());
        assert_eq!(bounded, scanned, "start {}", start);
    }
}

#[test]
fn out_prints_the_string_at_de() {
    let mut table: AddressSpaceTable = AddressSpaceTable::new();
    let id: String = table.load_data(b"\x00\x00HELLO, WORLD$ and more".to_vec()).unwrap();
    let cpu: Cpu = cpu_of(&id, 9, 0x01, 0x02);
    assert_eq!(table.out(Some(0), cpu.clone()), Ok((cpu, b"HELLO, WORLD".to_vec())));
}

#[test]
fn out_writes_one_character() {
    let table: AddressSpaceTable = AddressSpaceTable::new();
    let cpu: Cpu = cpu_of("nobody", 2, 0x00, b'A');
    assert_eq!(table.out(Some(0), cpu.clone()), Ok((cpu, vec![b'A'])));
}

#[test]
fn out_on_another_port_writes_nothing() {
    let table: AddressSpaceTable = AddressSpaceTable::new();
    let cpu: Cpu = cpu_of("nobody", 9, 0x01, 0x00);
    assert_eq!(table.out(Some(1), cpu.clone()), Ok((cpu.clone(), Vec::new())));
    assert_eq!(table.out(None, cpu.clone()), Ok((cpu, Vec::new())));
}

#[test]
fn out_console_read_clears_a_and_writes_nothing() {
    let table: AddressSpaceTable = AddressSpaceTable::new();
    let cpu: Cpu = cpu_of("nobody", 1, 0, 0);
    let mut expected: Cpu = cpu.clone();
    expected.state.a = 0;
    assert_eq!(table.out(Some(0), cpu), Ok((expected, Vec::new())));
}

#[test]
fn out_fails_on_fatal_functions_and_unknown_computers() {
    let table: AddressSpaceTable = AddressSpaceTable::new();
    assert_eq!(table.out(Some(0), cpu_of("nobody", 0, 0, 0)), Err(Error::Terminated));
    assert_eq!(table.out(Some(0), cpu_of("nobody", 5, 0, 0)), Err(Error::UnknownFunction(5)));
    assert_eq!(table.out(Some(0), cpu_of("nobody", 9, 1, 0)), Err(Error::UnknownComputer));
}
