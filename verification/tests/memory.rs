use bios_bridge::error::Error;
use bios_bridge::image::build_image;
use bios_bridge::memory::AddressSpace;
use bios_bridge::text::{extract_string, SENTINEL};

fn space_with(at: usize, bytes: &[u8]) -> AddressSpace {
    let mut image: Vec<u8> = vec![0u8; 0x10000];
    image[at..at + bytes.len()].copy_from_slice(bytes);
    AddressSpace::from_image(image).unwrap()
}

#[test]
fn address_space_takes_exactly_65536_bytes() {
    assert!(AddressSpace::from_image(vec![0u8; 65536]).is_ok());
    assert_eq!(AddressSpace::from_image(vec![0u8; 65535]).err(), Some(Error::ImageSize(65535)));
    assert_eq!(AddressSpace::from_image(vec![0u8; 65537]).err(), Some(Error::ImageSize(65537)));
    assert_eq!(AddressSpace::from_image(Vec::new()).err(), Some(Error::ImageSize(0)));
}

#[test]
fn address_space_keeps_its_image() {
    let image: Vec<u8> = (0..0x10000usize).map(|i| (i % 253) as u8).collect();
    let space: AddressSpace = AddressSpace::from_image(image.clone()).unwrap();
    assert_eq!(space.image(), &image);
    assert_eq!(space.byte(0), 0);
    assert_eq!(space.byte(252), 252);
    assert_eq!(space.byte(253), 0);
    assert_eq!(space.byte(0xFFFF), (0xFFFF % 253) as u8);
}

#[test]
fn loaded_space_is_the_built_image() {
    let space: AddressSpace = AddressSpace::load(vec![0x3E, 0x42, 0x76]);
    assert_eq!(space.image(), &build_image(vec![0x3E, 0x42, 0x76]));
    assert_eq!(space.byte(0x100), 0x3E);
    assert_eq!(space.byte(0x101), 0x42);
    assert_eq!(space.byte(0x102), 0x76);
    assert_eq!(space.byte(0x103), 0x00);
    assert_eq!(space.byte(0xFFFF), 0x00);
    assert_eq!(space.byte(0x0005), 0xD3);
    assert_eq!(space.byte(0x0004), 0x76);
}

#[test]
fn read_from_runs_through_the_last_address() {
    let image: Vec<u8> = (0..0x10000usize).map(|i| (i % 256) as u8).collect();
    let space: AddressSpace = AddressSpace::from_image(image.clone()).unwrap();
    assert_eq!(space.read_from(0), image);
    assert_eq!(space.read_from(0x1234), image[0x1234..].to_vec());
    assert_eq!(space.read_from(0xFFFF), vec![0xFF]);
}

#[test]
fn find_sentinel_gives_the_first_address_from_start() {
    let space: AddressSpace = space_with(0x200, b"AB$CD$EF");
    assert_eq!(space.find_sentinel(0x200), 0x202);
    assert_eq!(space.find_sentinel(0x202), 0x202);
    assert_eq!(space.find_sentinel(0x203), 0x205);
    assert_eq!(space.find_sentinel(0), 0x202);
    assert_eq!(space.find_sentinel(0x206), 0x10000);
    assert_eq!(space.find_sentinel(0xFFFF), 0x10000);
}

#[test]
fn find_sentinel_sees_the_last_address() {
    let space: AddressSpace = space_with(0xFFFF, b"$");
    assert_eq!(space.find_sentinel(0), 0xFFFF);
    assert_eq!(space.find_sentinel(0xFFFF), 0xFFFF);
}

#[test]
fn extract_string_in_memory_holding_hi() {
    let space: AddressSpace = space_with(0x0200, b"HI$");
    assert_eq!(space.extract_string(0x0200), b"HI".to_vec());
    assert_eq!(space.extract_string(0x0201), b"I".to_vec());
    assert_eq!(space.extract_string(0x0202), Vec::<u8>::new());
}

#[test]
fn extract_string_without_sentinel_runs_through_the_last_address() {
    let space: AddressSpace = space_with(0xFFFD, b"END");
    assert_eq!(space.extract_string(0xFFFD), b"END".to_vec());
    assert_eq!(space.extract_string(0xFFFF), b"D".to_vec());
    assert_eq!(space.extract_string(0xFF00).len(), 0x100);
    assert_eq!(space.extract_string(0).len(), 0x10000);
}

#[test]
fn both_strategies_give_the_same_string() {
    let mut image: Vec<u8> = (0..0x10000usize).map(|i| (i * 7 % 256) as u8).collect();
    image[0x4000] = SENTINEL;
    let space: AddressSpace = AddressSpace::from_image(image).unwrap();
    for start in [0u16, 1, 0x24, 0x100, 0x3FFF, 0x4000, 0x4001, 0x8000, 0xFFFE, 0xFFFF] {
        let bounded: Vec<u8> = space.extract_string(start);
        let scanned: Vec<u8> = extract_string(&space.read_from(start));
        assert_eq!(bounded, scanned, "start {}", start);
        assert!(!bounded.contains(&SENTINEL));
    }
}
