use electrum_client::hex::from_hex_32;
use electrum_client::script_hash::reversed;
use electrum_client::{to_script_hash, ToElectrumScriptHash};

fn digest(hex: &str) -> [u8; 32] {
    from_hex_32(hex).unwrap()
}

#[test]
fn script_hash_is_reversed_sha256() {
    // SHA-256 of the empty string
    let empty = digest("e3b0c44298fc1c149afbf4c8996fb92427ae41e4649b934ca495991b7852b855");
    assert_eq!(to_script_hash(&[]), reversed(empty));
    assert_eq!(
        to_script_hash(&[]),
        digest("55b852781b9995a44c939b64e441ae2724b96f99c8f4fb9a141cfc9842c4b0e3")
    );
    // SHA-256 of "abc"
    let abc = digest("ba7816bf8f01cfea414140de5dae2223b00361a396177a9cb410ff61f20015ad");
    assert_eq!(to_script_hash(b"abc"), reversed(abc));
}

#[test]
fn script_hash_is_not_the_plain_digest() {
    let abc = digest("ba7816bf8f01cfea414140de5dae2223b00361a396177a9cb410ff61f20015ad");
    assert_ne!(to_script_hash(b"abc"), abc);
    assert_ne!(to_script_hash(b"abc"), [0u8; 32]);
}

#[test]
fn script_hash_is_deterministic() {
    let script = [0x76u8, 0xa9, 0x14, 0x00, 0x88, 0xac];
    assert_eq!(to_script_hash(&script), to_script_hash(&script));
    let mut changed = script;
    changed[3] = 0x01;
    assert_ne!(to_script_hash(&script), to_script_hash(&changed));
}

#[test]
fn script_hash_of_a_script() {
    // a pay-to-public-key-hash script
    let bytes = vec![
        0x76, 0xa9, 0x14, 0x62, 0xe9, 0x07, 0xb1, 0x5c, 0xbf, 0x27, 0xd5, 0x42, 0x53, 0x99, 0xeb,
        0xf6, 0xf0, 0xfb, 0x50, 0xeb, 0xb8, 0x8f, 0x18, 0x88, 0xac,
    ];
    let script = bitcoin::Script::from(bytes.clone());
    assert_eq!(script.to_electrum_scripthash(), to_script_hash(&bytes));
    assert_eq!(bitcoin::Script::new().to_electrum_scripthash(), to_script_hash(&[]));
}

#[test]
fn reversed_turns_the_bytes_round() {
    let mut bytes = [0u8; 32];
    for (i, b) in bytes.iter_mut().enumerate() {
        *b = i as u8;
    }
    let back = reversed(bytes);
    for i in 0..32 {
        assert_eq!(back[i], bytes[31 - i]);
    }
    assert_eq!(reversed(back), bytes);
}
