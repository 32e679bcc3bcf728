use electrum_client::{ConsensusError, Error, HexError, JsonError};

#[test]
fn hex_failure_is_lifted() {
    match Error::from(HexError::InvalidChar(b'z')) {
        Error::Hex(HexError::InvalidChar(b'z')) => {}
        other => panic!("unexpected {:?}", other),
    }
}

#[test]
fn json_failure_is_lifted() {
    match Error::from(JsonError::MissingField("height")) {
        Error::JSON(JsonError::MissingField("height")) => {}
        other => panic!("unexpected {:?}", other),
    }
}

#[test]
fn io_failure_is_lifted_with_its_cause() {
    let cause = std::io::Error::new(std::io::ErrorKind::BrokenPipe, "gone");
    match Error::from(cause) {
        Error::IOError(e) => {
            assert_eq!(e.kind(), std::io::ErrorKind::BrokenPipe);
            assert_eq!(e.to_string(), "gone");
        }
        other => panic!("unexpected {:?}", other),
    }
}

#[test]
fn consensus_failure_is_lifted() {
    match Error::from(ConsensusError::ParseFailed("left over")) {
        Error::Bitcoin(ConsensusError::ParseFailed("left over")) => {}
        other => panic!("unexpected {:?}", other),
    }
}

#[test]
fn kinds_that_carry_a_script_hash_or_a_message() {
    let hash = [7u8; 32];
    assert!(matches!(Error::AlreadySubscribed(hash), Error::AlreadySubscribed(h) if h == hash));
    assert!(matches!(Error::NotSubscribed(hash), Error::NotSubscribed(h) if h == hash));
    assert!(matches!(Error::Message("no".to_string()), Error::Message(m) if m == "no"));
    assert!(matches!(
        Error::InvalidDNSNameError("x y".to_string()),
        Error::InvalidDNSNameError(m) if m == "x y"
    ));
    assert!(matches!(Error::MissingDomain, Error::MissingDomain));
}

#[test]
fn server_errors_are_kept_as_they_came() {
    let payload = electrum_client::json::parse("{\"code\":-32601,\"message\":\"unknown method\"}")
        .unwrap();
    match Error::Protocol(payload.clone()) {
        Error::Protocol(v) => assert_eq!(v, payload),
        other => panic!("unexpected {:?}", other),
    }
    match Error::InvalidResponse(payload.clone()) {
        Error::InvalidResponse(v) => assert_eq!(v, payload),
        other => panic!("unexpected {:?}", other),
    }
}
