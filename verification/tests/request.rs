use electrum_client::request::{frame, join, push_decimal, Param, Request};

#[test]
fn new_request_has_id_zero() {
    let request = Request::new("server.version", vec![]);
    assert_eq!(request.id, 0);
    assert_eq!(request.method, "server.version");
    assert!(request.params.is_empty());
    assert_eq!(request.jsonrpc(), "2.0");
}

#[test]
fn server_version_request_serializes_exactly() {
    let request = Request::new("server.version", vec![]);
    assert_eq!(
        request.to_json().unwrap(),
        "{\"jsonrpc\":\"2.0\",\"id\":0,\"method\":\"server.version\",\"params\":[]}"
    );
}

#[test]
fn params_are_written_as_bare_values() {
    let request = Request::new_id(
        42,
        "blockchain.scripthash.subscribe",
        vec![
            Param::U32(7),
            Param::Usize(1234567890),
            Param::String("a\"b".to_string()),
            Param::Bool(true),
            Param::Bool(false),
            Param::Json(serde_json::Value::Null),
        ],
    );
    assert_eq!(request.id, 42);
    assert_eq!(
        request.to_json().unwrap(),
        "{\"jsonrpc\":\"2.0\",\"id\":42,\"method\":\"blockchain.scripthash.subscribe\",\"params\":[7,1234567890,\"a\\\"b\",true,false,null]}"
    );
}

#[test]
fn new_id_keeps_the_given_id() {
    let request = Request::new_id(usize::MAX, "server.ping", vec![Param::Bool(true)]);
    assert_eq!(request.id, usize::MAX);
    assert_eq!(request.method, "server.ping");
    assert_eq!(request.params.len(), 1);
    assert_eq!(request.jsonrpc(), "2.0");
    let text = request.to_json().unwrap();
    assert!(text.starts_with("{\"jsonrpc\":\"2.0\",\"id\":"));
    assert_eq!(
        text,
        format!(
            "{{\"jsonrpc\":\"2.0\",\"id\":{},\"method\":\"server.ping\",\"params\":[true]}}",
            usize::MAX
        )
    );
}

#[test]
fn json_param_is_written_as_it_is() {
    let value = electrum_client::json::parse("{\"b\": [1, 2.5, \"x\"], \"a\": null}").unwrap();
    let request =
        Request::new("m", vec![Param::Json(value), Param::String("line\nbreak".to_string())]);
    assert_eq!(
        request.to_json().unwrap(),
        "{\"jsonrpc\":\"2.0\",\"id\":0,\"method\":\"m\",\"params\":[{\"a\":null,\"b\":[1,2.5,\"x\"]},\"line\\nbreak\"]}"
    );
}

#[test]
fn each_param_alone() {
    assert_eq!(Param::U32(0).to_json().unwrap(), "0");
    assert_eq!(Param::U32(u32::MAX).to_json().unwrap(), "4294967295");
    assert_eq!(Param::Usize(10).to_json().unwrap(), "10");
    assert_eq!(Param::Usize(909).to_json().unwrap(), "909");
    assert_eq!(Param::Bool(false).to_json().unwrap(), "false");
    assert_eq!(Param::String(String::new()).to_json().unwrap(), "\"\"");
    assert_eq!(Param::String("a\\b".to_string()).to_json().unwrap(), "\"a\\\\b\"");
    assert_eq!(Param::Json(serde_json::Value::Bool(true)).to_json().unwrap(), "true");
}

#[test]
fn method_is_quoted_and_escaped() {
    let request = Request::new("a\"b", vec![]);
    assert_eq!(
        request.to_json().unwrap(),
        "{\"jsonrpc\":\"2.0\",\"id\":0,\"method\":\"a\\\"b\",\"params\":[]}"
    );
}

#[test]
fn frame_and_join() {
    let params = vec!["1".to_string(), "\"x\"".to_string()];
    assert_eq!(join(&params), "1,\"x\"");
    assert_eq!(join(&Vec::new()), "");
    assert_eq!(
        frame(3, "\"m\"", &params),
        "{\"jsonrpc\":\"2.0\",\"id\":3,\"method\":\"m\",\"params\":[1,\"x\"]}"
    );
    let mut out = String::from("n=");
    push_decimal(&mut out, 18446744073709551615);
    assert_eq!(out, "n=18446744073709551615");
}

#[test]
fn writing_never_fails() {
    let awkward = "\u{0}\u{1f}\"\\\u{7f}\u{e9}\u{1f600}\n\t";
    assert!(Param::String(awkward.to_string()).to_json().is_ok());
    assert_eq!(
        Param::String("\u{1}\t".to_string()).to_json().unwrap(),
        "\"\\u0001\\t\""
    );
    let nested = electrum_client::json::parse("[[[{\"k\":[0.5,-1,{}]}]]]").unwrap();
    assert_eq!(Param::Json(nested.clone()).to_json().unwrap(), "[[[{\"k\":[0.5,-1,{}]}]]]");
    let request = Request::new(awkward, vec![Param::Json(nested), Param::String(awkward.to_string())]);
    assert!(request.to_json().is_ok());
}
