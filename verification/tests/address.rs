use device_routing::address::{address_from_decoded, parse_address, same_bytes, PeerAddress};
use device_routing::error::DeviceError;
use tdn::types::primitive::PeerAddr;

const RISING: &str = "000102030405060708090a0b0c0d0e0f101112131415161718191a1b1c1d1e1f";

fn rising_bytes() -> [u8; 32] {
    let mut bytes = [0u8; 32];
    for i in 0..32 {
        bytes[i] = i as u8;
    }
    bytes
}

#[test]
fn parses_lower_case_hex() {
    let address = parse_address(RISING).unwrap();
    assert_eq!(address.bytes, rising_bytes());
}

#[test]
fn parses_upper_case_hex() {
    let text = "FF".repeat(32);
    let address = parse_address(&text).unwrap();
    assert_eq!(address.bytes, [255u8; 32]);
}

#[test]
fn parse_does_not_hand_back_its_input() {
    let text = "61".repeat(32);
    let address = parse_address(&text).unwrap();
    assert_eq!(address.bytes, [0x61u8; 32]);
    assert_ne!(&address.bytes[..], &text.as_bytes()[..32]);
}

#[test]
fn parse_agrees_with_the_peer_address_type() {
    let texts = [
        RISING.to_string(),
        "ab".repeat(32),
        "+a".repeat(32),
        "0g".repeat(32),
        "-1".repeat(32),
        " 1".repeat(32),
        "a".repeat(63),
        "a".repeat(65),
        String::new(),
    ];
    for text in texts.iter() {
        let expected = PeerAddr::from_hex(text).ok().map(|addr| addr.0);
        let got = parse_address(text).ok().map(|address| address.bytes);
        assert_eq!(got, expected, "text {:?}", text);
    }
}

#[test]
fn empty_text_is_invalid() {
    assert_eq!(parse_address(""), Err(DeviceError::InvalidAddress));
}

#[test]
fn short_text_is_invalid() {
    assert_eq!(parse_address(&RISING[..62]), Err(DeviceError::InvalidAddress));
}

#[test]
fn long_text_is_invalid() {
    let text = format!("{}00", RISING);
    assert_eq!(parse_address(&text), Err(DeviceError::InvalidAddress));
}

#[test]
fn text_with_a_digit_outside_hex_is_invalid() {
    let text = format!("{}zz", &RISING[..62]);
    assert_eq!(parse_address(&text), Err(DeviceError::InvalidAddress));
}

#[test]
fn text_outside_ascii_is_invalid() {
    // 64 bytes, with a two-byte character across a pair boundary.
    let text = format!("a\u{e9}a{}", "0".repeat(60));
    assert_eq!(text.len(), 64);
    assert_eq!(parse_address(&text), Err(DeviceError::InvalidAddress));
    // 64 characters, none of them ASCII.
    let wide = "\u{e9}".repeat(64);
    assert_eq!(parse_address(&wide), Err(DeviceError::InvalidAddress));
    // 32 two-byte characters: 64 bytes.
    let pairs = "\u{e9}".repeat(32);
    assert_eq!(parse_address(&pairs), Err(DeviceError::InvalidAddress));
}

#[test]
fn decoded_bytes_become_the_address() {
    assert_eq!(
        address_from_decoded(Some([7u8; 32])),
        Ok(PeerAddress { bytes: [7u8; 32] })
    );
    assert_eq!(address_from_decoded(None), Err(DeviceError::InvalidAddress));
}

#[test]
fn addresses_compare_by_their_bytes() {
    let a = PeerAddress::from_bytes([1u8; 32]);
    let b = PeerAddress::from_bytes([1u8; 32]);
    let mut other = [1u8; 32];
    other[31] = 2;
    let c = PeerAddress::from_bytes(other);
    assert!(a.same(&b));
    assert!(!a.same(&c));
    assert!(!c.same(&a));
    assert!(same_bytes(&a.bytes, &b.bytes));
    assert!(!same_bytes(&a.bytes, &c.bytes));
    let mut first = [1u8; 32];
    first[0] = 0;
    assert!(!same_bytes(&a.bytes, &first));
}
