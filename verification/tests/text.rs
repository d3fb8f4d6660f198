use bios_bridge::text::{extract_string, SENTINEL};

#[test]
fn sentinel_is_the_dollar_sign() {
    assert_eq!(SENTINEL, b'$');
    assert_eq!(SENTINEL, 0x24);
}

#[test]
fn extract_string_stops_before_the_sentinel() {
    assert_eq!(extract_string(&b"HI$".to_vec()), b"HI".to_vec());
}

#[test]
fn extract_string_ignores_what_follows_the_sentinel() {
    assert_eq!(extract_string(&b"HI$THERE$".to_vec()), b"HI".to_vec());
}

#[test]
fn extract_string_without_sentinel_keeps_all() {
    assert_eq!(extract_string(&b"HELLO".to_vec()), b"HELLO".to_vec());
    let zeros: Vec<u8> = vec![0u8; 300];
    assert_eq!(extract_string(&zeros), zeros);
}

#[test]
fn extract_string_of_nothing_is_empty() {
    assert_eq!(extract_string(&Vec::new()), Vec::<u8>::new());
}

#[test]
fn extract_string_with_leading_sentinel_is_empty() {
    assert_eq!(extract_string(&b"$HI".to_vec()), Vec::<u8>::new());
    assert_eq!(extract_string(&b"$".to_vec()), Vec::<u8>::new());
}

#[test]
fn extract_string_keeps_bytes_next_to_the_sentinel_value() {
    assert_eq!(extract_string(&vec![0x23, 0x25, 0x24, 0x23]), vec![0x23, 0x25]);
}
