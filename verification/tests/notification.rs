use electrum_client::json::parse;
use electrum_client::{
    ConsensusError, Error, HeaderNotification, HexError, JsonError, ScriptNotification,
};

const GENESIS: &str = "0100000000000000000000000000000000000000000000000000000000000000000000003ba3edfd7a7b12b27ac72c3e67768f617fc81bc3888a51323a9fb8aa4b1e5e4a29ab5f49ffff001d1dac2b7c";

fn numbers(from: u8) -> String {
    let items: Vec<String> = (0..32u8).map(|i| (from + i).to_string()).collect();
    format!("[{}]", items.join(","))
}

#[test]
fn header_notification_decodes_the_header() {
    let text = format!("{{\"height\":0,\"hex\":\"{}\"}}", GENESIS);
    let note = HeaderNotification::from_value(&parse(&text).unwrap()).unwrap();
    assert_eq!(note.height, 0);
    assert_eq!(note.header.version, 1);
    assert_eq!(note.header.prev_blockhash, [0u8; 32]);
    assert_eq!(note.header.merkle_root[0], 0x3b);
    assert_eq!(note.header.merkle_root[31], 0x4a);
    assert_eq!(note.header.time, 1231006505);
    assert_eq!(note.header.bits, 0x1d00ffff);
    assert_eq!(note.header.nonce, 2083236893);
}

#[test]
fn header_notification_failures() {
    let text = format!("{{\"height\":5,\"hex\":\"{}\"}}", &GENESIS[..40]);
    match HeaderNotification::from_value(&parse(&text).unwrap()) {
        Err(Error::Bitcoin(ConsensusError::Io(_))) => {}
        other => panic!("unexpected {:?}", other),
    }
    // bytes that are no header count before a missing member does
    let text = format!("{{\"hex\":\"{}00\"}}", GENESIS);
    match HeaderNotification::from_value(&parse(&text).unwrap()) {
        Err(Error::Bitcoin(ConsensusError::ParseFailed(_))) => {}
        other => panic!("unexpected {:?}", other),
    }
    let text = "{\"height\":5,\"hex\":\"abc\"}";
    match HeaderNotification::from_value(&parse(text).unwrap()) {
        Err(Error::Hex(HexError::OddLengthString(3))) => {}
        other => panic!("unexpected {:?}", other),
    }
    let text = format!("{{\"hex\":\"{}\"}}", GENESIS);
    match HeaderNotification::from_value(&parse(&text).unwrap()) {
        Err(Error::JSON(JsonError::MissingField("height"))) => {}
        other => panic!("unexpected {:?}", other),
    }
    match HeaderNotification::from_value(&parse("{\"height\":5}").unwrap()) {
        Err(Error::JSON(JsonError::MissingField("hex"))) => {}
        other => panic!("unexpected {:?}", other),
    }
    match HeaderNotification::from_value(&parse("{\"height\":\"5\",\"hex\":\"abc\"}").unwrap()) {
        Err(Error::JSON(JsonError::WrongType("height"))) => {}
        other => panic!("unexpected {:?}", other),
    }
    match HeaderNotification::from_value(&parse("\"text\"").unwrap()) {
        Err(Error::JSON(JsonError::NotAnObject)) => {}
        other => panic!("unexpected {:?}", other),
    }
}

#[test]
fn script_notification_takes_the_bytes_as_they_are() {
    let text = format!("{{\"scripthash\":{},\"status\":{}}}", numbers(0), numbers(200));
    let note = ScriptNotification::from_value(&parse(&text).unwrap()).unwrap();
    for i in 0..32 {
        assert_eq!(note.scripthash[i], i as u8);
        assert_eq!(note.status[i], 200 + i as u8);
    }
}

#[test]
fn script_notification_failures() {
    let text = format!("{{\"scripthash\":{}}}", numbers(0));
    match ScriptNotification::from_value(&parse(&text).unwrap()) {
        Err(Error::JSON(JsonError::MissingField("status"))) => {}
        other => panic!("unexpected {:?}", other),
    }
    let text = format!("{{\"status\":{}}}", numbers(0));
    match ScriptNotification::from_value(&parse(&text).unwrap()) {
        Err(Error::JSON(JsonError::MissingField("scripthash"))) => {}
        other => panic!("unexpected {:?}", other),
    }
    let text = format!("{{\"scripthash\":[1,2,3],\"status\":{}}}", numbers(0));
    match ScriptNotification::from_value(&parse(&text).unwrap()) {
        Err(Error::JSON(JsonError::WrongType("scripthash"))) => {}
        other => panic!("unexpected {:?}", other),
    }
    let too_large = numbers(0).replace("[0,", "[256,");
    let text = format!("{{\"scripthash\":{},\"status\":{}}}", numbers(0), too_large);
    match ScriptNotification::from_value(&parse(&text).unwrap()) {
        Err(Error::JSON(JsonError::WrongType("status"))) => {}
        other => panic!("unexpected {:?}", other),
    }
    let text = format!("{{\"scripthash\":\"{}\",\"status\":{}}}", "11".repeat(32), numbers(0));
    match ScriptNotification::from_value(&parse(&text).unwrap()) {
        Err(Error::JSON(JsonError::WrongType("scripthash"))) => {}
        other => panic!("unexpected {:?}", other),
    }
}
