use content_workflow::address::{AddressError, ContentAddress};

const SAMPLE: &str = "000102030405060708090a0b0c0d0e0f101112131415161718191a1b1c1d1e1f";

fn sample_bytes() -> [u8; 32] {
    let mut bytes = [0u8; 32];
    for (i, b) in bytes.iter_mut().enumerate() {
        *b = i as u8;
    }
    bytes
}

#[test]
fn decode_reads_64_hex_digits() {
    let address = ContentAddress::decode(SAMPLE).unwrap();
    assert_eq!(address.to_bytes(), sample_bytes());
}

#[test]
fn decode_takes_the_high_half_first() {
    let text = format!("f0{}", "0".repeat(60)) + "0f";
    let address = ContentAddress::decode(&text).unwrap();
    let bytes = address.to_bytes();
    assert_eq!(bytes[0], 0xf0);
    assert_eq!(bytes[31], 0x0f);
    assert_eq!(bytes[1], 0);
}

#[test]
fn decode_accepts_upper_and_mixed_case() {
    let upper = "AB".repeat(32);
    let mixed = "aB".repeat(32);
    let lower = "ab".repeat(32);
    let expected = ContentAddress::from_bytes([0xab; 32]);
    assert_eq!(ContentAddress::decode(&upper), Ok(expected));
    assert_eq!(ContentAddress::decode(&mixed), Ok(expected));
    assert_eq!(ContentAddress::decode(&lower), Ok(expected));
}

#[test]
fn decode_rejects_a_character_that_is_not_hex() {
    let text = format!("{}g", "0".repeat(63));
    assert_eq!(ContentAddress::decode(&text), Err(AddressError::InvalidEncoding));
}

#[test]
fn decode_rejects_an_odd_number_of_digits() {
    let text = "a".repeat(63);
    assert_eq!(ContentAddress::decode(&text), Err(AddressError::InvalidEncoding));
    assert_eq!(ContentAddress::decode("abc"), Err(AddressError::InvalidEncoding));
}

#[test]
fn decode_rejects_text_outside_ascii() {
    let text = "é".repeat(32);
    assert_eq!(text.len(), 64);
    assert_eq!(ContentAddress::decode(&text), Err(AddressError::InvalidEncoding));
}

#[test]
fn decode_reports_the_length_it_found() {
    assert_eq!(ContentAddress::decode("abcd"), Err(AddressError::InvalidLength { actual: 2 }));
    assert_eq!(ContentAddress::decode(""), Err(AddressError::InvalidLength { actual: 0 }));
    let long = "00".repeat(33);
    assert_eq!(ContentAddress::decode(&long), Err(AddressError::InvalidLength { actual: 33 }));
    let short = "00".repeat(31);
    assert_eq!(ContentAddress::decode(&short), Err(AddressError::InvalidLength { actual: 31 }));
}

#[test]
fn decode_prefers_the_encoding_error() {
    assert_eq!(ContentAddress::decode("zz"), Err(AddressError::InvalidEncoding));
    assert_eq!(ContentAddress::decode(" "), Err(AddressError::InvalidEncoding));
}

#[test]
fn encode_writes_lower_case_digits() {
    let address = ContentAddress::from_bytes(sample_bytes());
    assert_eq!(address.encode(), SAMPLE);
    let high = ContentAddress::from_bytes([0xAB; 32]);
    assert_eq!(high.encode(), "ab".repeat(32));
}

#[test]
fn encode_then_decode_gives_the_address_back() {
    for seed in 0u8..=255 {
        let mut bytes = [0u8; 32];
        for (i, b) in bytes.iter_mut().enumerate() {
            *b = seed.wrapping_mul(31).wrapping_add((i as u8).wrapping_mul(7));
        }
        let address = ContentAddress::from_bytes(bytes);
        let text = address.encode();
        assert_eq!(text.len(), 64);
        assert_eq!(ContentAddress::decode(&text), Ok(address));
    }
}

#[test]
fn decode_then_encode_then_decode_gives_the_same_bytes() {
    let text = "DeadBeef".repeat(8);
    let first = ContentAddress::decode(&text).unwrap();
    let second = ContentAddress::decode(&first.encode()).unwrap();
    assert_eq!(first.to_bytes(), second.to_bytes());
    assert_eq!(first.encode(), "deadbeef".repeat(8));
}

#[test]
fn addresses_are_equal_when_their_bytes_are() {
    let a = ContentAddress::from_bytes([7; 32]);
    let b = ContentAddress::from_bytes([7; 32]);
    let mut other = [7u8; 32];
    other[31] = 8;
    let c = ContentAddress::from_bytes(other);
    assert_eq!(a, b);
    assert_ne!(a, c);
}
