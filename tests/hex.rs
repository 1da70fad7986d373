use private_state_toolkit::hex::{commitment_prefix, nibble_to_hex, to_hex};

#[test]
fn nibbles_map_to_lowercase_digits() {
    assert_eq!(nibble_to_hex(0), '0');
    assert_eq!(nibble_to_hex(9), '9');
    assert_eq!(nibble_to_hex(10), 'a');
    assert_eq!(nibble_to_hex(15), 'f');
    assert_eq!(nibble_to_hex(16), '?');
}

#[test]
fn bytes_to_hex() {
    assert_eq!(to_hex(&[]), "");
    assert_eq!(to_hex(&[0x00, 0x0f, 0xa5, 0xff]), "000fa5ff");
}

#[test]
fn prefix_shows_first_six_bytes() {
    let mut c = [0xeeu8; 32];
    c[0] = 0xde;
    c[1] = 0xad;
    c[2] = 0xbe;
    c[3] = 0xef;
    c[4] = 0x01;
    c[5] = 0x23;
    assert_eq!(commitment_prefix(&c), "deadbeef0123");
}
