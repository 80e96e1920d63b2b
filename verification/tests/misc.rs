use jsonrpc_proxy::canonical;
use jsonrpc_proxy::cli_params::Parser;
use jsonrpc_proxy::ipc_upstream;
use jsonrpc_proxy::rpc::{Call, Id, MethodCall, Number, Output, Params, Success, Value};
use jsonrpc_proxy::table::Table;
use jsonrpc_proxy::upstream::connection::{Dispatched, Frame};
use jsonrpc_proxy::ws_upstream;
use jsonrpc_proxy::ws_upstream::{CloseData, Handled, Message};

#[test]
fn it_works() {
    assert_eq!(2 + 2, 4);
}

fn text(params: &Params) -> String {
    String::from_utf8(canonical::params_text(params)).unwrap()
}

#[test]
fn canonical_text_is_compact_json() {
    assert_eq!(text(&Params::Absent), "null");
    assert_eq!(text(&Params::Positional(vec![])), "[]");
    assert_eq!(text(&Params::Named(vec![])), "{}");
    let values = vec![
        Value::Null,
        Value::Bool(true),
        Value::Bool(false),
        Value::Number(Number::PosInt(0)),
        Value::Number(Number::PosInt(u64::MAX)),
        Value::Number(Number::NegInt(-1)),
        Value::Number(Number::NegInt(i64::MIN)),
        Value::Number(Number::Float("2.5".into())),
        Value::String("hello".into()),
        Value::Array(vec![Value::Number(Number::PosInt(10)), Value::Array(vec![])]),
        Value::Object(vec![("key".into(), Value::String("value".into())), ("n".into(), Value::Null)]),
    ];
    let expected = r#"[null,true,false,0,18446744073709551615,-1,-9223372036854775808,2.5,"hello",[10,[]],{"key":"value","n":null}]"#;
    assert_eq!(text(&Params::Positional(values.clone())), expected);
    let parsed: serde_json::Value = serde_json::from_str(expected).unwrap();
    assert_eq!(serde_json::to_string(&parsed).unwrap(), expected);
    assert_eq!(
        text(&Params::Named(vec![("a".into(), Value::Number(Number::PosInt(1))), ("b".into(), Value::Null)])),
        r#"{"a":1,"b":null}"#
    );
}

#[test]
fn canonical_text_escapes_strings() {
    let value = Value::String("a\"b\\c\n\u{1}é".into());
    let written = text(&Params::Positional(vec![value]));
    assert_eq!(written, "[\"a\\\"b\\\\c\\u000a\\u0001é\"]");
    let parsed: serde_json::Value = serde_json::from_str(&written).unwrap();
    assert_eq!(parsed, serde_json::Value::Array(vec![serde_json::Value::String("a\"b\\c\n\u{1}é".into())]));
}

#[test]
fn deep_copy_is_equal() {
    let value = Value::Object(vec![(
        "a".into(),
        Value::Array(vec![Value::Number(Number::Float("1e3".into())), Value::String("x".into())]),
    )]);
    assert_eq!(value.duplicate(), value);
    assert_eq!(value.clone(), value);
    let output = Output::Success(Success { jsonrpc: None, result: value, id: Id::Str("i".into()) });
    assert_eq!(output.duplicate(), output);
    assert_eq!(output.id(), &Id::Str("i".into()));
    let call = Call::MethodCall(MethodCall {
        jsonrpc: None,
        method: "m".into(),
        params: Params::Named(vec![("k".into(), Value::Null)]),
        id: Id::Null,
    });
    assert_eq!(call.duplicate(), call);
    assert!(Id::Num(1).same(&Id::Num(1)));
    assert!(!Id::Num(1).same(&Id::Str("1".into())));
    assert!(Id::Null.same(&Id::Null));
}

#[test]
fn table_holds_one_value_for_each_key() {
    let mut table: Table<String, u32> = Table::new();
    assert_eq!(table.insert("a".into(), 1), None);
    assert_eq!(table.insert("b".into(), 2), None);
    assert_eq!(table.insert("a".into(), 3), Some(1));
    assert_eq!(table.len(), 2);
    assert_eq!(table.get(&"a".to_string()), Some(&3));
    assert!(table.contains_key(&"b".to_string()));
    assert_eq!(table.remove(&"b".to_string()), Some(2));
    assert_eq!(table.remove(&"b".to_string()), None);
    assert_eq!(table.get(&"b".to_string()), None);
    assert_eq!(table.take_all(), vec![("a".to_string(), 3)]);
    assert_eq!(table.len(), 0);
}

#[test]
fn ipc_upstream_takes_the_last_path() {
    let params = ipc_upstream::config::params();
    assert_eq!(params.len(), 1);
    assert_eq!(params[0].name, "upstream-ipc");
    assert_eq!(params[0].default_value, "/var/tmp/parity.ipc");
    let default = params[0].parse(None).unwrap();
    assert_eq!(default, ipc_upstream::config::Param::Path("/var/tmp/parity.ipc".into()));
    let given = params[0].parse(Some("/tmp/x.ipc".into())).unwrap();
    assert_eq!(ipc_upstream::IPC::new(vec![default, given]).path(), "/tmp/x.ipc");
    assert_eq!(ipc_upstream::IPC::new(vec![]).path(), "/var/tmp/parity.ipc");
    let mut ipc = ipc_upstream::IPC::new(vec![]);
    let frame = Frame { text: "x".into(), notification: None, call: None, success: None };
    assert!(matches!(ipc.process_message(frame), Dispatched::Unexpected));
}

#[test]
fn ws_upstream_reads_addresses() {
    let params = ws_upstream::config::params();
    assert_eq!(params[0].name, "upstream-ws");
    assert_eq!(params[0].category, "WebSockets upstream");
    let default = match params[0].parse(None) {
        Ok(ws_upstream::config::Param::Url(url)) => url,
        Err(e) => panic!("the default address is valid: {}", e),
    };
    assert_eq!(default.as_str(), "ws://127.0.0.1:9944/");
    assert_eq!(default.port(), Some(9944));
    match ws_upstream::config::UrlParser.parse("not an address".into()) {
        Err(e) => assert_eq!(e, "Invalid upstream address: RelativeUrlWithoutBase"),
        Ok(_) => panic!("the text names no address"),
    }
    let given = url::Url::parse("ws://example.org:1234").unwrap();
    let transport = ws_upstream::WebSocket::new(vec![
        ws_upstream::config::Param::Url(default),
        ws_upstream::config::Param::Url(given.clone()),
    ])
    .unwrap();
    assert_eq!(transport.url(), &given);
    assert_eq!(ws_upstream::WebSocket::new(vec![]).unwrap().url().as_str(), "ws://127.0.0.1:9944/");
}

#[test]
fn ws_upstream_answers_pings_and_echoes_close() {
    let mut transport = ws_upstream::WebSocket::new(vec![]).unwrap();
    assert!(matches!(transport.process_message(Message::Ping(vec![1, 2])), Handled::Pong(d) if d == vec![1, 2]));
    let close = Some(CloseData { status_code: 1000, reason: "bye".into() });
    assert!(matches!(transport.process_message(Message::Close(close.clone())), Handled::EchoClose(d) if d == close));
    assert!(matches!(transport.process_message(Message::Close(None)), Handled::EchoClose(None)));
    assert!(matches!(transport.process_message(Message::Pong(vec![])), Handled::Ignored));
    assert!(matches!(transport.process_message(Message::Binary(vec![1])), Handled::Ignored));
    let frame = Frame { text: "x".into(), notification: None, call: Some(Call::Invalid { id: Id::Num(1) }), success: None };
    assert!(matches!(
        transport.process_message(Message::Text(frame)),
        Handled::Frame(Dispatched::UnknownRequest)
    ));
}

#[test]
fn canonical_text_does_not_depend_on_the_order_of_members() {
    let inner = |first: &str, second: &str| {
        Value::Object(vec![(first.into(), Value::Null), (second.into(), Value::Null)])
    };
    let one = Params::Named(vec![
        ("to".into(), inner("y", "x")),
        ("from".into(), Value::Bool(true)),
        ("value".into(), Value::Number(Number::PosInt(7))),
        ("fro".into(), Value::Null),
        ("é".into(), Value::Null),
        ("Z".into(), Value::Null),
    ]);
    let other = Params::Named(vec![
        ("é".into(), Value::Null),
        ("value".into(), Value::Number(Number::PosInt(7))),
        ("Z".into(), Value::Null),
        ("fro".into(), Value::Null),
        ("to".into(), inner("x", "y")),
        ("from".into(), Value::Bool(true)),
    ]);
    let expected = r#"{"Z":null,"fro":null,"from":true,"to":{"x":null,"y":null},"value":7,"é":null}"#;
    assert_eq!(text(&one), expected);
    assert_eq!(text(&other), expected);
    let parsed: serde_json::Value = serde_json::from_str(expected).unwrap();
    assert_eq!(serde_json::to_string(&parsed).unwrap(), expected);
    assert_eq!(canonical::order_of(&vec![
        ("b".to_string(), Value::Null),
        ("a".to_string(), Value::Null),
        ("b".to_string(), Value::Bool(true)),
        ("".to_string(), Value::Null),
    ]), vec![3, 1, 0, 2]);
}

#[test]
fn texts_are_ordered_as_their_bytes() {
    let pairs = [("", ""), ("", "a"), ("a", ""), ("a", "b"), ("b", "a"), ("ab", "abc"), ("abc", "ab"), ("Z", "a"), ("z", "é"), ("é", "z"), ("\u{10000}", "\u{ffff}")];
    for (a, b) in pairs {
        assert_eq!(jsonrpc_proxy::text::are_in_order(a, b), a.as_bytes() <= b.as_bytes(), "{:?} {:?}", a, b);
    }
}
