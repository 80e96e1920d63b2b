use jsonrpc_proxy::pubsub::{SessionId, SubscriptionId};
use jsonrpc_proxy::rpc::{
    Call, Id, MethodCall, Notification, Number, Output, Params, Success, Value, Version,
};
use jsonrpc_proxy::upstream::config::{add_subscriptions, Param};
use jsonrpc_proxy::upstream::connection::{Connection, Dispatched, Frame, SubscribeError};
use jsonrpc_proxy::upstream::helpers;
use jsonrpc_proxy::upstream::recorder::{Recorded, Recorder};
use jsonrpc_proxy::upstream::shared::{Notified, PendingKind, Shared};
use jsonrpc_proxy::upstream::{Middleware, Route, Subscription};

fn eth() -> Subscription {
    Subscription {
        subscribe: "eth_subscribe".into(),
        unsubscribe: "eth_unsubscribe".into(),
        name: "eth_subscription".into(),
    }
}

fn call(id: u64, method: &str, params: Vec<Value>) -> Call {
    Call::MethodCall(MethodCall {
        jsonrpc: None,
        method: method.into(),
        params: Params::Positional(params),
        id: Id::Num(id),
    })
}

fn response(text: &str, id: Id, result: Value) -> Frame {
    Frame {
        text: text.into(),
        notification: None,
        call: Some(Call::Invalid { id: id.clone() }),
        success: Some(Success { jsonrpc: None, result, id }),
    }
}

fn notification(text: &str, subscription: Value) -> Frame {
    Frame {
        text: text.into(),
        notification: Some(Notification {
            jsonrpc: None,
            method: "eth_subscription".into(),
            params: Params::Named(vec![
                ("subscription".into(), subscription),
                ("result".into(), Value::Object(vec![])),
            ]),
        }),
        call: None,
        success: None,
    }
}

#[test]
fn subscribe_and_notify_scenario() {
    let mut upstream = Connection::new();
    let session = SessionId(7);
    assert!(upstream.open_session(session));
    let sent = upstream
        .subscribe(call(1, "eth_subscribe", vec![Value::String("newHeads".into())]), Some(session), eth())
        .unwrap();
    let receiver = sent.receiver.unwrap();
    assert_eq!(sent.abandoned, None);

    let answer = r#"{"id":1,"result":"0xabc"}"#;
    match upstream.process_frame(response(answer, Id::Num(1), Value::String("0xabc".into()))) {
        Dispatched::Response { sink, frame, cancel } => {
            assert_eq!(sink, receiver);
            assert_eq!(frame, answer);
            assert!(cancel.is_none());
        }
        _ => panic!("the frame answers the subscribe request"),
    }

    for text in ["first", "second"] {
        match upstream.process_frame(notification(text, Value::String("0xabc".into()))) {
            Dispatched::Notification(Notified::Deliver(to, payload)) => {
                assert_eq!(to, session);
                assert_eq!(payload, text);
            }
            _ => panic!("the notification belongs to the session"),
        }
    }
}

#[test]
fn closing_the_client_unsubscribes_once() {
    let mut upstream = Connection::new();
    let session = SessionId(7);
    upstream.open_session(session);
    upstream
        .subscribe(call(1, "eth_subscribe", vec![Value::String("newHeads".into())]), Some(session), eth())
        .unwrap();
    upstream.process_frame(response("r", Id::Num(1), Value::String("0xabc".into())));

    let sent = upstream.close_session(session);
    assert_eq!(sent.len(), 1);
    assert_eq!(
        sent[0].write,
        Call::MethodCall(MethodCall {
            jsonrpc: Some(Version::V2),
            method: "eth_unsubscribe".into(),
            params: Params::Positional(vec![Value::String("0xabc".into())]),
            id: Id::Num(1),
        })
    );
    assert!(sent[0].receiver.is_some());
    // The subscription is forgotten and the session is gone.
    assert!(matches!(
        upstream.process_frame(notification("late", Value::String("0xabc".into()))),
        Dispatched::Notification(Notified::Unknown)
    ));
    assert!(upstream.close_session(session).is_empty());
}

#[test]
fn hooks_run_in_order_under_fresh_ids() {
    let mut upstream = Connection::new();
    let session = SessionId(1);
    upstream.open_session(session);
    for (id, subscription) in [(10u64, 5u64), (11, 6)] {
        upstream.subscribe(call(id, "eth_subscribe", vec![]), Some(session), eth()).unwrap();
        upstream.process_frame(response("r", Id::Num(id), Value::Number(Number::PosInt(subscription))));
    }
    let sent = upstream.close_session(session);
    assert_eq!(sent.len(), 2);
    match (&sent[0].write, &sent[1].write) {
        (Call::MethodCall(first), Call::MethodCall(second)) => {
            assert_eq!(first.id, Id::Num(1));
            assert_eq!(second.id, Id::Num(2));
            assert_eq!(first.params, Params::Positional(vec![Value::Number(Number::PosInt(5))]));
            assert_eq!(second.params, Params::Positional(vec![Value::Number(Number::PosInt(6))]));
        }
        _ => panic!("hooks make method calls"),
    }
}

#[test]
fn subscribe_without_session_is_an_error() {
    let mut upstream = Connection::new();
    let result = upstream.subscribe(call(1, "eth_subscribe", vec![]), None, eth());
    assert!(matches!(result, Err(SubscribeError::NoSession)));
    assert!(matches!(
        upstream.process_frame(response("r", Id::Num(1), Value::Null)),
        Dispatched::UnknownRequest
    ));
}

#[test]
fn subscription_for_a_session_that_is_gone_is_cancelled() {
    let mut upstream = Connection::new();
    let session = SessionId(3);
    upstream.open_session(session);
    upstream.subscribe(call(4, "eth_subscribe", vec![]), Some(session), eth()).unwrap();
    assert!(upstream.close_session(session).is_empty());
    match upstream.process_frame(response("r", Id::Num(4), Value::String("0x1".into()))) {
        Dispatched::Response { cancel: Some(sent), .. } => match sent.write {
            Call::MethodCall(inner) => {
                assert_eq!(inner.method, "eth_unsubscribe");
                assert_eq!(inner.params, Params::Positional(vec![Value::String("0x1".into())]));
            }
            _ => panic!("the cancellation is a method call"),
        },
        _ => panic!("the subscription is cancelled at once"),
    }
}

#[test]
fn responses_are_matched_by_id_alone() {
    let mut upstream = Connection::new();
    let a = upstream.send(call(1, "a", vec![])).receiver.unwrap();
    let b = upstream
        .send(Call::MethodCall(MethodCall {
            jsonrpc: None,
            method: "b".into(),
            params: Params::Absent,
            id: Id::Str("x".into()),
        }))
        .receiver
        .unwrap();
    assert_ne!(a, b);
    assert!(matches!(
        upstream.process_frame(response("second", Id::Str("x".into()), Value::Null)),
        Dispatched::Response { sink, .. } if sink == b
    ));
    assert!(matches!(
        upstream.process_frame(response("first", Id::Num(1), Value::Null)),
        Dispatched::Response { sink, .. } if sink == a
    ));
    assert!(matches!(
        upstream.process_frame(response("again", Id::Num(1), Value::Null)),
        Dispatched::UnknownRequest
    ));
}

#[test]
fn a_call_without_id_awaits_no_response() {
    let mut upstream = Connection::new();
    let sent = upstream.send(Call::Notification(Notification {
        jsonrpc: None,
        method: "a".into(),
        params: Params::Absent,
    }));
    assert_eq!(sent.receiver, None);
    assert!(upstream.disconnect().is_empty());
}

#[test]
fn a_second_request_under_the_same_id_abandons_the_first() {
    let mut upstream = Connection::new();
    let first = upstream.send(call(1, "a", vec![]));
    let second = upstream.send(call(1, "b", vec![]));
    assert_eq!(second.abandoned, first.receiver);
    assert!(matches!(
        upstream.process_frame(response("r", Id::Num(1), Value::Null)),
        Dispatched::Response { sink, .. } if Some(sink) == second.receiver
    ));
}

#[test]
fn disconnect_abandons_every_pending_request() {
    let mut upstream = Connection::new();
    upstream.send(call(1, "a", vec![]));
    upstream.send(call(2, "b", vec![]));
    let abandoned = upstream.disconnect();
    assert_eq!(abandoned.len(), 2);
    assert!(matches!(
        upstream.process_frame(response("r", Id::Num(1), Value::Null)),
        Dispatched::UnknownRequest
    ));
}

#[test]
fn a_frame_that_is_neither_is_dropped() {
    let mut upstream = Connection::new();
    let frame = Frame { text: "?".into(), notification: None, call: None, success: None };
    assert!(matches!(upstream.process_frame(frame), Dispatched::Unexpected));
}

#[test]
fn unknown_subscription_changes_nothing() {
    let mut shared = Shared::new();
    shared.open_session(SessionId(1));
    shared.add_subscription(SubscriptionId::Number(1), SessionId(1), eth());
    assert_eq!(
        shared.notify_subscription(&SubscriptionId::Number(2), "x".into()),
        Notified::Unknown
    );
    assert_eq!(
        shared.notify_subscription(&SubscriptionId::String("1".into()), "x".into()),
        Notified::Unknown
    );
    assert_eq!(
        shared.notify_subscription(&SubscriptionId::Number(1), "x".into()),
        Notified::Deliver(SessionId(1), "x".into())
    );
}

#[test]
fn subscription_of_a_session_that_is_gone_stays_until_removed() {
    let mut shared = Shared::new();
    shared.add_subscription(SubscriptionId::Number(1), SessionId(9), eth());
    assert_eq!(shared.notify_subscription(&SubscriptionId::Number(1), "x".into()), Notified::SessionGone);
    assert_eq!(shared.notify_subscription(&SubscriptionId::Number(1), "y".into()), Notified::SessionGone);
    shared.remove_subscription(&SubscriptionId::Number(1));
    shared.remove_subscription(&SubscriptionId::Number(1));
    assert_eq!(shared.notify_subscription(&SubscriptionId::Number(1), "x".into()), Notified::Unknown);
}

#[test]
fn pending_requests_are_taken_once() {
    let mut shared = Shared::new();
    let added = shared.add_pending(Some(&Id::Num(1)), PendingKind::Regular);
    assert_eq!(added.receiver, Some(0));
    assert_eq!(shared.add_pending(None, PendingKind::Regular).receiver, None);
    let next = shared.add_pending(Some(&Id::Null), PendingKind::Subscribe(SessionId(1), eth()));
    assert_eq!(next.receiver, Some(1));
    let taken = shared.remove_pending(&Id::Num(1)).unwrap();
    assert_eq!(taken.sink, 0);
    assert_eq!(taken.kind, PendingKind::Regular);
    assert!(shared.remove_pending(&Id::Num(1)).is_none());
    assert_eq!(shared.remove_pending(&Id::Null).unwrap().kind, PendingKind::Subscribe(SessionId(1), eth()));
}

#[test]
fn helpers_pick_the_fields() {
    let method = call(3, "m", vec![Value::String("0xabc".into()), Value::Null]);
    assert_eq!(helpers::get_method_name(&method), Some(&"m".to_string()));
    assert_eq!(helpers::get_id(&method), Some(&Id::Num(3)));
    assert_eq!(helpers::get_unsubscribe_id(&method), Some(SubscriptionId::String("0xabc".into())));
    let none = call(3, "m", vec![]);
    assert_eq!(helpers::get_unsubscribe_id(&none), None);
    let wrong = call(3, "m", vec![Value::Bool(true)]);
    assert_eq!(helpers::get_unsubscribe_id(&wrong), None);
    let invalid = Call::Invalid { id: Id::Null };
    assert_eq!(helpers::get_method_name(&invalid), None);
    assert_eq!(helpers::get_id(&invalid), Some(&Id::Null));
    assert_eq!(helpers::get_unsubscribe_id(&invalid), None);
    let note = Notification { jsonrpc: None, method: "n".into(), params: Params::Positional(vec![Value::Number(Number::PosInt(4))]) };
    assert_eq!(helpers::get_id(&Call::Notification(note.clone())), None);
    assert_eq!(helpers::get_unsubscribe_id(&Call::Notification(note.clone())), Some(SubscriptionId::Number(4)));
    assert_eq!(helpers::peek_id(&Some(Call::Notification(note.clone()))), None);
    assert_eq!(helpers::peek_id(&Some(method)), Some(Id::Num(3)));
    assert_eq!(helpers::peek_id(&None), None);
    assert_eq!(helpers::peek_subscription_id(&Some(note)), None);
    assert_eq!(helpers::peek_subscription_id(&None), None);
    let frame = notification("x", Value::Number(Number::PosInt(8)));
    assert_eq!(helpers::peek_subscription_id(&frame.notification), Some(SubscriptionId::Number(8)));
    let negative = notification("x", Value::Number(Number::NegInt(-8)));
    assert_eq!(helpers::peek_subscription_id(&negative.notification), None);
    let success = Success { jsonrpc: None, result: Value::Bool(true), id: Id::Null };
    assert_eq!(helpers::peek_result(&Some(success)), Some(Value::Bool(true)));
    assert_eq!(helpers::peek_result(&None), None);
}

#[test]
fn the_last_member_of_a_name_counts() {
    let members = vec![
        ("subscription".to_string(), Value::Null),
        ("other".to_string(), Value::Bool(true)),
        ("subscription".to_string(), Value::String("s".into())),
    ];
    assert_eq!(helpers::find_member(&members, "subscription"), Some(&Value::String("s".into())));
    assert_eq!(helpers::find_member(&members, "none"), None);
}

#[test]
fn subscription_ids_are_strings_or_non_negative_integers() {
    assert_eq!(SubscriptionId::parse_value(&Value::String("a".into())), Some(SubscriptionId::String("a".into())));
    assert_eq!(SubscriptionId::parse_value(&Value::Number(Number::PosInt(0))), Some(SubscriptionId::Number(0)));
    assert_eq!(SubscriptionId::parse_value(&Value::Number(Number::NegInt(-1))), None);
    assert_eq!(SubscriptionId::parse_value(&Value::Number(Number::Float("1.5".into()))), None);
    assert_eq!(SubscriptionId::parse_value(&Value::Null), None);
    assert_eq!(SubscriptionId::parse_value(&Value::Array(vec![])), None);
    assert_eq!(SubscriptionId::Number(3).into_value(), Value::Number(Number::PosInt(3)));
    assert_eq!(SubscriptionId::String("x".into()).into_value(), Value::String("x".into()));
}

fn passthrough() -> Middleware<Recorder> {
    let other = Subscription {
        subscribe: "parity_subscribe".into(),
        unsubscribe: "parity_unsubscribe".into(),
        name: "parity_subscription".into(),
    };
    Middleware::new(
        Recorder::new(None),
        &vec![Param::PubSubMethods(vec![eth()]), Param::PubSubMethods(vec![other])],
    )
}

#[test]
fn calls_are_routed_by_their_method() {
    let middleware = passthrough();
    assert!(matches!(middleware.route(&call(1, "eth_subscribe", vec![])), Route::Subscribe(s) if s == eth()));
    assert!(matches!(middleware.route(&call(1, "eth_unsubscribe", vec![])), Route::Unsubscribe(s) if s == eth()));
    assert!(matches!(middleware.route(&call(1, "parity_subscribe", vec![])), Route::Subscribe(s) if s.name == "parity_subscription"));
    assert!(matches!(middleware.route(&call(1, "eth_call", vec![])), Route::Send));
    assert!(matches!(middleware.route(&Call::Invalid { id: Id::Null }), Route::Send));
}

#[test]
fn passthrough_gives_what_the_transport_answers() {
    let answer = Some(Output::Success(Success { jsonrpc: None, result: Value::Null, id: Id::Num(1) }));
    let mut middleware = Middleware::new(Recorder::new(answer.clone()), &vec![Param::PubSubMethods(vec![eth()])]);
    assert_eq!(middleware.on_call(call(1, "eth_call", vec![]), None), answer);
    assert_eq!(middleware.on_call(call(2, "eth_subscribe", vec![]), Some(SessionId(4))), answer);
    assert_eq!(middleware.on_call(call(3, "eth_unsubscribe", vec![]), None), answer);
    let recorded = middleware.transport().recorded();
    assert_eq!(recorded.len(), 3);
    assert!(matches!(&recorded[0], Recorded::Send(c) if *c == call(1, "eth_call", vec![])));
    assert!(matches!(&recorded[1], Recorded::Subscribe(_, Some(SessionId(4)), s) if *s == eth()));
    assert!(matches!(&recorded[2], Recorded::Unsubscribe(_, s) if *s == eth()));
}

#[test]
fn add_subscriptions_extends_every_option() {
    let mut params = vec![Param::PubSubMethods(vec![]), Param::PubSubMethods(vec![eth()])];
    add_subscriptions(&mut params, vec![eth()]);
    assert_eq!(params, vec![Param::PubSubMethods(vec![eth()]), Param::PubSubMethods(vec![eth(), eth()])]);
}
