use std::sync::atomic;
use std::sync::Arc;

use jsonrpc_proxy::permissioning::config::Param;
use jsonrpc_proxy::permissioning::{Access, Action, Method, Middleware, Permissioning};
use jsonrpc_proxy::rpc::{Call, Error, Failure, Id, MethodCall, Notification, Output, Params, Version};

fn callback() -> (impl FnOnce(Call, ()) -> Option<Output>, Arc<atomic::AtomicBool>) {
    let called = Arc::new(atomic::AtomicBool::new(false));
    let called2 = called.clone();
    let next = move |_, _| {
        called2.store(true, atomic::Ordering::SeqCst);
        None
    };

    (next, called)
}

fn method_call(name: &str) -> Call {
    Call::MethodCall(MethodCall {
        id: Id::Num(1),
        jsonrpc: Some(Version::V2),
        method: name.into(),
        params: Params::Positional(vec![]),
    })
}

fn middleware(config: Permissioning) -> Middleware {
    Middleware::new(&vec![Param::Config(config)])
}

fn not_allowed() -> Option<Output> {
    Some(Output::Failure(Failure {
        id: Id::Num(1),
        error: Error {
            code: -1,
            message: "You are not allowed to call that method.".into(),
            data: None,
        },
        jsonrpc: Some(Version::V2),
    }))
}

#[test]
fn should_allow_method_by_global_policy() {
    // given
    let middleware = middleware(Default::default());
    let (next, called) = callback();

    // when
    let result = middleware.on_call(method_call("eth_getBlock"), (), next);

    // then
    assert_eq!(called.load(atomic::Ordering::SeqCst), true);
    assert_eq!(result, None);
}

#[test]
fn should_deny_blacklisted_method() {
    // given
    let middleware = middleware(Permissioning {
        policy: Access::Allow,
        methods: vec![Method {
            name: "eth_getBlock".into(),
            policy: Access::Deny,
        }],
    });
    let (next, called) = callback();

    // when
    let result = middleware.on_call(method_call("eth_getBlock"), (), next);

    // then
    assert_eq!(called.load(atomic::Ordering::SeqCst), false);
    assert_eq!(result, not_allowed());
}

#[test]
fn should_deny_method_by_global_policy() {
    // given
    let middleware = middleware(Permissioning {
        policy: Access::Deny,
        methods: vec![],
    });
    let (next, called) = callback();

    // when
    let result = middleware.on_call(method_call("eth_getBlock"), (), next);

    // then
    assert_eq!(called.load(atomic::Ordering::SeqCst), false);
    assert_eq!(result, not_allowed());
}

#[test]
fn should_allow_whitelisted_method() {
    // given
    let middleware = middleware(Permissioning {
        policy: Access::Deny,
        methods: vec![Method {
            name: "eth_getBlock".into(),
            policy: Access::Allow,
        }],
    });
    let (next, called) = callback();

    // when
    let result = middleware.on_call(method_call("eth_getBlock"), (), next);

    // then
    assert_eq!(called.load(atomic::Ordering::SeqCst), true);
    assert_eq!(result, None);
}

#[test]
fn allow_override_under_allow_base_changes_nothing() {
    let answer = Some(Output::Failure(Failure {
        id: Id::Num(7),
        error: Error { code: 3, message: "x".into(), data: None },
        jsonrpc: None,
    }));
    let middleware = middleware(Permissioning {
        policy: Access::Allow,
        methods: vec![Method { name: "eth_getBlock".into(), policy: Access::Allow }],
    });
    let expected = answer.clone();
    let result = middleware.on_call(method_call("eth_getBlock"), (), move |_, _| answer);
    assert_eq!(result, expected);
    assert_eq!(middleware.access(&method_call("other")), Access::Allow);
}

#[test]
fn the_last_of_two_policies_for_a_method_counts() {
    let middleware = middleware(Permissioning {
        policy: Access::Allow,
        methods: vec![
            Method { name: "eth_getBlock".into(), policy: Access::Deny },
            Method { name: "eth_getBlock".into(), policy: Access::Allow },
        ],
    });
    assert_eq!(middleware.access(&method_call("eth_getBlock")), Access::Allow);
}

#[test]
fn the_last_configuration_counts() {
    let middleware = Middleware::new(&vec![
        Param::Config(Permissioning { policy: Access::Deny, methods: vec![] }),
        Param::Config(Permissioning { policy: Access::Allow, methods: vec![] }),
    ]);
    assert_eq!(middleware.access(&method_call("eth_getBlock")), Access::Allow);
    let none = Middleware::new(&vec![]);
    assert_eq!(none.access(&method_call("eth_getBlock")), Access::Allow);
}

#[test]
fn a_denied_notification_gets_no_answer() {
    let middleware = middleware(Permissioning { policy: Access::Deny, methods: vec![] });
    let call = Call::Notification(Notification {
        jsonrpc: Some(Version::V2),
        method: "eth_getBlock".into(),
        params: Params::Absent,
    });
    let (next, called) = callback();
    assert_eq!(middleware.on_call(call, (), next), None);
    assert_eq!(called.load(atomic::Ordering::SeqCst), false);
}

#[test]
fn a_denied_invalid_call_is_answered_without_version() {
    let middleware = middleware(Permissioning {
        policy: Access::Deny,
        methods: vec![Method { name: "eth_getBlock".into(), policy: Access::Allow }],
    });
    let result = match middleware.decide(Call::Invalid { id: Id::Str("a".into()) }) {
        Action::Reject(output) => output,
        Action::Next(_) => panic!("an invalid call has the base policy"),
    };
    assert_eq!(
        result,
        Some(Output::Failure(Failure {
            id: Id::Str("a".into()),
            error: Error {
                code: -1,
                message: "You are not allowed to call that method.".into(),
                data: None,
            },
            jsonrpc: None,
        }))
    );
}

#[test]
fn deny_scenario() {
    let middleware = middleware(Permissioning {
        policy: Access::Allow,
        methods: vec![Method { name: "eth_getBlock".into(), policy: Access::Deny }],
    });
    let call = Call::MethodCall(MethodCall {
        id: Id::Num(1),
        jsonrpc: None,
        method: "eth_getBlock".into(),
        params: Params::Positional(vec![]),
    });
    let (next, called) = callback();
    let result = middleware.on_call(call, (), next);
    assert_eq!(called.load(atomic::Ordering::SeqCst), false);
    match result {
        Some(Output::Failure(failure)) => {
            assert_eq!(failure.id, Id::Num(1));
            assert_eq!(failure.error.code, -1);
            assert_eq!(failure.error.message, "You are not allowed to call that method.");
            assert_eq!(failure.error.data, None);
        }
        _ => panic!("a denied call is answered with a failure"),
    }
}
