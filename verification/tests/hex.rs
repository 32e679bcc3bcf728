use electrum_client::hex::{from_hex, from_hex_32, from_hex_array, from_hex_txid, to_hex};
use electrum_client::{Error, HexError};

const DIGITS_64: &str = "000102030405060708090a0b0c0d0e0f101112131415161718191a1b1c1d1e1f";

fn counting() -> [u8; 32] {
    let mut bytes = [0u8; 32];
    for (i, b) in bytes.iter_mut().enumerate() {
        *b = i as u8;
    }
    bytes
}

fn hex_error<T: std::fmt::Debug>(r: Result<T, Error>) -> HexError {
    match r {
        Err(Error::Hex(e)) => e,
        other => panic!("expected a hex error, got {:?}", other),
    }
}

#[test]
fn reads_lower_and_upper_case() {
    assert_eq!(
        from_hex("0123456789abcdef").unwrap(),
        vec![0x01, 0x23, 0x45, 0x67, 0x89, 0xab, 0xcd, 0xef]
    );
    assert_eq!(
        from_hex("0123456789ABCDEF").unwrap(),
        vec![0x01, 0x23, 0x45, 0x67, 0x89, 0xab, 0xcd, 0xef]
    );
    assert_eq!(from_hex("").unwrap(), Vec::<u8>::new());
}

#[test]
fn odd_length_is_a_hex_error() {
    assert_eq!(hex_error(from_hex("abc")), HexError::OddLengthString(3));
    assert_eq!(hex_error(from_hex_32("abc")), HexError::OddLengthString(3));
    assert_eq!(hex_error(from_hex_txid("abc")), HexError::OddLengthString(3));
}

#[test]
fn first_invalid_byte_is_reported() {
    assert_eq!(hex_error(from_hex("0g")), HexError::InvalidChar(b'g'));
    assert_eq!(hex_error(from_hex("00zy")), HexError::InvalidChar(b'z'));
    assert_eq!(hex_error(from_hex("0x1y")), HexError::InvalidChar(b'x'));
    assert_eq!(hex_error(from_hex("é")), HexError::InvalidChar(0xc3));
}

#[test]
fn fixed_size_needs_64_digits() {
    assert_eq!(from_hex_32(DIGITS_64).unwrap(), counting());
    assert_eq!(hex_error(from_hex_32("0011")), HexError::InvalidLength(64, 4));
    assert_eq!(hex_error(from_hex_32("zz")), HexError::InvalidLength(64, 2));
    let long = format!("{}00", DIGITS_64);
    assert_eq!(hex_error(from_hex_32(&long)), HexError::InvalidLength(64, 66));
    let bad = format!("{}0q", &DIGITS_64[..62]);
    assert_eq!(hex_error(from_hex_32(&bad)), HexError::InvalidChar(b'q'));
}

#[test]
fn transaction_id_is_read_backward() {
    let mut expected = counting();
    expected.reverse();
    assert_eq!(from_hex_txid(DIGITS_64).unwrap(), expected);
    assert_eq!(hex_error(from_hex_txid("00")), HexError::InvalidLength(64, 2));
    // two bad bytes: the one nearer the end of the text is reported
    let bad = format!("x0{}0y", &DIGITS_64[2..62]);
    assert_eq!(hex_error(from_hex_txid(&bad)), HexError::InvalidChar(b'y'));
    // within one pair the first byte is reported
    let bad = format!("{}pq", &DIGITS_64[..62]);
    assert_eq!(hex_error(from_hex_txid(&bad)), HexError::InvalidChar(b'p'));
}

#[test]
fn array_keeps_order() {
    let ones = "11".repeat(32);
    let twos = "22".repeat(32);
    let list = vec![ones.as_str(), twos.as_str(), DIGITS_64];
    assert_eq!(from_hex_array(&list).unwrap(), vec![[0x11u8; 32], [0x22u8; 32], counting()]);
    assert_eq!(from_hex_array(&Vec::new()).unwrap(), Vec::<[u8; 32]>::new());
}

#[test]
fn array_fails_with_first_failure() {
    let ones = "11".repeat(32);
    let list = vec![ones.as_str(), "abc", "zz"];
    assert_eq!(hex_error(from_hex_array(&list)), HexError::OddLengthString(3));
    let list = vec!["zz", "abc"];
    assert_eq!(hex_error(from_hex_array(&list)), HexError::InvalidLength(64, 2));
}

#[test]
fn writes_lower_case() {
    assert_eq!(to_hex(&[0x01, 0x23, 0x45, 0x67, 0x89, 0xab, 0xcd, 0xef]), "0123456789abcdef");
    assert_eq!(to_hex(&[]), "");
    assert_eq!(to_hex(&[0x00, 0xff, 0x0a, 0xa0]), "00ff0aa0");
    assert_eq!(to_hex(&counting()), DIGITS_64);
}

#[test]
fn round_trip_of_lower_case_text() {
    for text in ["", "00", "deadbeef", "0123456789abcdef", DIGITS_64] {
        let bytes = from_hex(text).unwrap();
        assert_eq!(bytes.len() * 2, text.len());
        assert_eq!(to_hex(&bytes), text);
    }
    // upper case is read, and written back in lower case
    assert_eq!(to_hex(&from_hex("DEADBEEF").unwrap()), "deadbeef");
}

#[test]
fn round_trip_of_bytes() {
    let all: Vec<u8> = (0..=255u8).collect();
    assert_eq!(from_hex(&to_hex(&all)).unwrap(), all);
}
