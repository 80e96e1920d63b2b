use jsonrpc_proxy::accounts;
use jsonrpc_proxy::generic_proxy::{Handled, Handler};
use jsonrpc_proxy::permissioning;
use jsonrpc_proxy::pubsub::SessionId;
use jsonrpc_proxy::rpc::{Call, Id, MethodCall, Output, Params, Success, Value, Version};
use jsonrpc_proxy::simple_cache;
use jsonrpc_proxy::simple_cache::{CacheEviction, Duration, Method};
use jsonrpc_proxy::upstream;
use jsonrpc_proxy::upstream::recorder::{Recorded, Recorder};
use jsonrpc_proxy::upstream::Subscription;

fn answer_under(id: u64) -> Option<Output> {
    Some(Output::Success(Success {
        jsonrpc: Some(Version::V2),
        result: Value::String("0x10".into()),
        id: Id::Num(id),
    }))
}

fn answer() -> Option<Output> {
    answer_under(99)
}

fn call(id: u64, method: &str) -> Call {
    Call::MethodCall(MethodCall {
        jsonrpc: Some(Version::V2),
        method: method.into(),
        params: Params::Positional(vec![]),
        id: Id::Num(id),
    })
}

fn pipeline(
    cache: simple_cache::config::Cache,
    policy: permissioning::Permissioning,
    extra: accounts::Middleware,
) -> Handler<Recorder> {
    let subscriptions = vec![Subscription {
        subscribe: "eth_subscribe".into(),
        unsubscribe: "eth_unsubscribe".into(),
        name: "eth_subscription".into(),
    }];
    Handler::handler(
        Recorder::new(answer()),
        extra,
        &vec![simple_cache::config::Param::Config(cache)],
        &vec![permissioning::config::Param::Config(policy)],
        &vec![upstream::config::Param::PubSubMethods(subscriptions)],
    )
}

fn done(handled: Handled) -> Option<Output> {
    match handled {
        Handled::Done(output) => output,
        Handled::Compose(..) => panic!("nothing is to be composed"),
    }
}

fn no_cache() -> simple_cache::config::Cache {
    simple_cache::config::Cache { enabled: false, methods: vec![] }
}

#[test]
fn plain_pipeline_is_the_upstream() {
    let mut handler = pipeline(no_cache(), Default::default(), accounts::Middleware::with_secret(None));
    for (id, method) in [(1, "eth_call"), (2, "eth_sendTransaction"), (3, "eth_accounts")] {
        assert_eq!(done(handler.handle(call(id, method), None, 0)), answer());
    }
    assert_eq!(done(handler.handle(call(4, "eth_subscribe"), Some(SessionId(1)), 0)), answer());
    let recorded = handler.transport().recorded();
    assert_eq!(recorded.len(), 4);
    assert!(matches!(&recorded[0], Recorded::Send(c) if *c == call(1, "eth_call")));
    assert!(matches!(&recorded[1], Recorded::Send(c) if *c == call(2, "eth_sendTransaction")));
    assert!(matches!(&recorded[3], Recorded::Subscribe(c, Some(SessionId(1)), _) if *c == call(4, "eth_subscribe")));
}

#[test]
fn allow_policies_change_nothing() {
    let policy = permissioning::Permissioning {
        policy: permissioning::Access::Allow,
        methods: vec![permissioning::Method { name: "eth_call".into(), policy: permissioning::Access::Allow }],
    };
    let mut with = pipeline(no_cache(), policy, accounts::Middleware::with_secret(None));
    let mut without = pipeline(no_cache(), Default::default(), accounts::Middleware::with_secret(None));
    assert_eq!(
        done(with.handle(call(1, "eth_call"), None, 0)),
        done(without.handle(call(1, "eth_call"), None, 0))
    );
    assert_eq!(with.transport().count(), without.transport().count());
}

#[test]
fn denied_call_does_not_reach_upstream() {
    let policy = permissioning::Permissioning {
        policy: permissioning::Access::Allow,
        methods: vec![permissioning::Method { name: "eth_getBlock".into(), policy: permissioning::Access::Deny }],
    };
    let mut handler = pipeline(no_cache(), policy, accounts::Middleware::with_secret(None));
    match done(handler.handle(call(1, "eth_getBlock"), None, 0)) {
        Some(Output::Failure(failure)) => {
            assert_eq!(failure.error.code, -1);
            assert_eq!(failure.id, Id::Num(1));
        }
        _ => panic!("the call is denied"),
    }
    assert_eq!(handler.transport().count(), 0);
}

#[test]
fn cached_call_reaches_upstream_once_per_window() {
    let cache = simple_cache::config::Cache {
        enabled: true,
        methods: vec![Method::new("eth_blockNumber", CacheEviction::Time(Duration::from_secs(3)))],
    };
    let mut handler = pipeline(cache, Default::default(), accounts::Middleware::with_secret(None));
    let first = done(handler.handle(call(1, "eth_blockNumber"), None, 0));
    let second = done(handler.handle(call(2, "eth_blockNumber"), None, 2_999_999_999));
    assert_eq!(first, answer());
    assert_eq!(second, answer_under(2));
    assert_eq!(handler.transport().count(), 1);
    done(handler.handle(call(3, "eth_blockNumber"), None, 3_000_000_000));
    assert_eq!(handler.transport().count(), 2);
    done(handler.handle(call(4, "eth_other"), None, 3_000_000_000));
    done(handler.handle(call(5, "eth_other"), None, 3_000_000_000));
    assert_eq!(handler.transport().count(), 4);
}

#[test]
fn signing_pipeline_rewrites_and_completes() {
    let secret = ethsign::SecretKey::from_raw(&[7u8; 32]).unwrap();
    let cache = simple_cache::config::Cache {
        enabled: true,
        methods: vec![Method::new("eth_sendTransaction", CacheEviction::Time(Duration::from_secs(3)))],
    };
    let mut handler = pipeline(cache, Default::default(), accounts::Middleware::with_secret(Some(secret)));
    let (rewrite, slot) = match handler.handle(call(1, "eth_sendTransaction"), None, 5) {
        Handled::Compose(rewrite, slot) => (rewrite, slot),
        Handled::Done(_) => panic!("the call is rewritten"),
    };
    assert_eq!(rewrite.id, Id::Num(1));
    assert!(slot.is_some());
    assert_eq!(handler.transport().count(), 0);
    assert!(handler.extension_mut().try_start(rewrite.ticket));
    assert!(handler.extension_mut().complete(rewrite.ticket));
    handler.finish(slot, &answer());
    assert_eq!(done(handler.handle(call(2, "eth_sendTransaction"), None, 6)), answer_under(2));

    match done(handler.handle(call(3, "eth_accounts"), None, 0)) {
        Some(Output::Success(success)) => assert_eq!(success.result, Value::String("0x10".into())),
        _ => panic!("the response of upstream is passed on"),
    }
}
