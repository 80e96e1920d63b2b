use std::hash::Hasher;
use std::sync::{atomic, Arc};

use jsonrpc_proxy::rpc::{Call, Id, MethodCall, Number, Output, Params, Success, Value, Version};
use jsonrpc_proxy::simple_cache::config;
use jsonrpc_proxy::simple_cache::{Action, CacheEviction, Duration, Method, MethodMeta, Middleware};

fn callback() -> (impl Fn(Call, ()) -> Option<Output>, Arc<atomic::AtomicUsize>) {
    let called = Arc::new(atomic::AtomicUsize::new(0));
    let called2 = called.clone();
    let next = move |_, _| {
        called2.fetch_add(1, atomic::Ordering::SeqCst);
        None
    };

    (next, called)
}

fn method_call(name: &str, param: &str) -> Call {
    Call::MethodCall(MethodCall {
        id: Id::Num(1),
        jsonrpc: Some(Version::V2),
        method: name.into(),
        params: Params::Positional(vec![Value::String(param.into())]),
    })
}

fn middleware(config: config::Cache) -> Middleware {
    Middleware::new(&vec![config::Param::Config(config)])
}

#[test]
fn should_forward_if_cache_disabled() {
    // given
    let mut middleware = middleware(config::Cache {
        enabled: false,
        methods: vec![Method::new("eth_getBlock", CacheEviction::Time(Duration::from_secs(1)))],
    });
    let (next, called) = callback();

    // when
    let res1 = middleware.on_call(method_call("eth_getBlock", "xyz"), (), 0, &next);
    let res2 = middleware.on_call(method_call("eth_getBlock", "xyz"), (), 0, &next);

    // then
    assert_eq!(called.load(atomic::Ordering::SeqCst), 2);
    assert_eq!(res1, None);
    assert_eq!(res2, None);
}

#[test]
fn should_return_cached_result() {
    // given
    let mut middleware = middleware(config::Cache {
        enabled: true,
        methods: vec![Method::new("eth_getBlock", CacheEviction::Time(Duration::from_secs(1)))],
    });
    let (next, called) = callback();

    // when
    let res1 = middleware.on_call(method_call("eth_getBlock", "xyz"), (), 0, &next);
    let res2 = middleware.on_call(method_call("eth_getBlock", "xyz"), (), 0, &next);

    // then
    assert_eq!(called.load(atomic::Ordering::SeqCst), 1);
    assert_eq!(res1, None);
    assert_eq!(res2, None);
}

#[test]
fn should_not_cache_when_params_different() {
    // given
    let mut middleware = middleware(config::Cache {
        enabled: true,
        methods: vec![Method::new("eth_getBlock", CacheEviction::Time(Duration::from_secs(1)))],
    });
    let (next, called) = callback();

    // when
    let res1 = middleware.on_call(method_call("eth_getBlock", "xyz1"), (), 0, &next);
    let res2 = middleware.on_call(method_call("eth_getBlock", "xyz2"), (), 0, &next);

    // then
    assert_eq!(called.load(atomic::Ordering::SeqCst), 2);
    assert_eq!(res1, None);
    assert_eq!(res2, None);
}

#[test]
fn should_invalidate_cache_after_specified_time() {
    // given
    let mut middleware = middleware(config::Cache {
        enabled: true,
        methods: vec![Method::new("eth_getBlock", CacheEviction::Time(Duration::from_millis(1)))],
    });
    let (next, called) = callback();

    // when
    let res1 = middleware.on_call(method_call("eth_getBlock", "xyz"), (), 0, &next);
    let res2 = middleware.on_call(method_call("eth_getBlock", "xyz"), (), 0, &next);
    let later = Duration::from_millis(2).as_nanos() as u64;
    let res3 = middleware.on_call(method_call("eth_getBlock", "xyz"), (), later, &next);

    // then
    assert_eq!(called.load(atomic::Ordering::SeqCst), 2);
    assert_eq!(res1, None);
    assert_eq!(res2, None);
    assert_eq!(res3, None);
}

fn block_number(id: u64) -> Call {
    Call::MethodCall(MethodCall {
        id: Id::Num(id),
        jsonrpc: Some(Version::V2),
        method: "eth_blockNumber".into(),
        params: Params::Positional(vec![]),
    })
}

#[test]
fn cache_hit_scenario() {
    let mut middleware = middleware(config::Cache {
        enabled: true,
        methods: vec![Method::new("eth_blockNumber", CacheEviction::Time(Duration::from_secs(3)))],
    });
    let calls = Arc::new(atomic::AtomicUsize::new(0));
    let seen = calls.clone();
    let upstream = move |_: Call, _: ()| {
        seen.fetch_add(1, atomic::Ordering::SeqCst);
        Some(Output::Success(Success {
            jsonrpc: Some(Version::V2),
            result: Value::String("0x10".into()),
            id: Id::Num(1),
        }))
    };
    let first = middleware.on_call(block_number(1), (), 1_000, &upstream);
    let second = middleware.on_call(block_number(2), (), 1_001, &upstream);
    assert_eq!(calls.load(atomic::Ordering::SeqCst), 1);
    let answer = |id: u64| {
        Some(Output::Success(Success {
            jsonrpc: Some(Version::V2),
            result: Value::String("0x10".into()),
            id: Id::Num(id),
        }))
    };
    assert_eq!(first, answer(1));
    assert_eq!(second, answer(2));
}

#[test]
fn entry_is_fresh_until_its_deadline() {
    let method = Method::new("m", CacheEviction::Time(Duration::new(2, 5)));
    assert_eq!(method.meta(10), MethodMeta::Deadline(2_000_000_015));
    let meta = method.meta(10);
    assert!(method.is_fresh(&meta, 10));
    assert!(method.is_fresh(&meta, 2_000_000_014));
    assert!(!method.is_fresh(&meta, 2_000_000_015));
    assert!(!method.is_fresh(&meta, u64::MAX));
    let long = Method::new("m", CacheEviction::Time(Duration::from_secs(u64::MAX)));
    assert_eq!(
        long.meta(u64::MAX),
        MethodMeta::Deadline(u64::MAX as u128 + u64::MAX as u128 * 1_000_000_000)
    );
}

#[test]
fn durations_count_nanoseconds() {
    assert_eq!(Duration::from_secs(3).as_nanos(), 3_000_000_000);
    assert_eq!(Duration::from_millis(1_500).as_nanos(), 1_500_000_000);
    assert_eq!(Duration::new(1, 1_500_000_000).as_nanos(), 2_500_000_000);
    assert_eq!(Duration::new(0, 7).as_nanos(), 7);
    assert_eq!(Duration::from_millis(u64::MAX).as_nanos(), u64::MAX as u128 * 1_000_000);
}

#[test]
fn digest_depends_on_name_and_parameters() {
    let a = Method::new("eth_getBlock", CacheEviction::Time(Duration::from_secs(1)));
    let b = Method::new("eth_getBlockX", CacheEviction::Time(Duration::from_secs(1)));
    let one = Params::Positional(vec![Value::String("xyz".into())]);
    let same = Params::Positional(vec![Value::String("xyz".into())]);
    let other = Params::Positional(vec![Value::String("xyw".into())]);
    assert_eq!(a.hash(&one), a.hash(&same));
    assert_ne!(a.hash(&one), a.hash(&other));
    assert_ne!(a.hash(&one), b.hash(&one));
    assert_ne!(a.hash(&Params::Absent), a.hash(&Params::Positional(vec![])));
    assert_ne!(a.hash(&Params::Positional(vec![])), a.hash(&Params::Named(vec![])));
}

#[test]
fn digest_is_xxhash_of_name_and_canonical_text() {
    let method = Method::new("m", CacheEviction::Time(Duration::from_secs(1)));
    let params = Params::Positional(vec![
        Value::Null,
        Value::Bool(true),
        Value::Number(Number::NegInt(-12)),
        Value::String("a\"b".into()),
    ]);
    let mut hasher = twox_hash::XxHash64::with_seed(0);
    hasher.write(b"m\xff[null,true,-12,\"a\\\"b\"]");
    assert_eq!(method.hash(&params), hasher.finish());
}

#[test]
fn stale_entry_is_overwritten() {
    let mut middleware = middleware(config::Cache {
        enabled: true,
        methods: vec![Method::new("eth_getBlock", CacheEviction::Time(Duration::from_secs(1)))],
    });
    let call = method_call("eth_getBlock", "xyz");
    let (hash, meta) = match middleware.decide(&call, 0) {
        Action::NextAndCache(hash, meta) => (hash, meta),
        _ => panic!("nothing is cached yet"),
    };
    assert_eq!(meta, MethodMeta::Deadline(1_000_000_000));
    let old = Some(Output::Success(Success { jsonrpc: None, result: Value::Bool(false), id: Id::Null }));
    middleware.store(hash, &old, meta);
    let old = Some(Output::Success(Success { jsonrpc: None, result: Value::Bool(false), id: Id::Num(1) }));
    assert!(matches!(middleware.decide(&call, 999_999_999), Action::Return(ref o) if *o == old));
    let (again, later) = match middleware.decide(&call, 1_000_000_000) {
        Action::NextAndCache(hash, meta) => (hash, meta),
        _ => panic!("the entry is stale at its deadline"),
    };
    assert_eq!(again, hash);
    let new = Some(Output::Success(Success { jsonrpc: None, result: Value::Bool(true), id: Id::Null }));
    middleware.store(again, &new, later);
    let new = Some(Output::Success(Success { jsonrpc: None, result: Value::Bool(true), id: Id::Num(1) }));
    assert!(matches!(middleware.decide(&call, 1_500_000_000), Action::Return(ref o) if *o == new));
}

#[test]
fn only_cacheable_method_calls_are_cached() {
    let middleware = middleware(config::Cache {
        enabled: true,
        methods: vec![Method::new("eth_getBlock", CacheEviction::Time(Duration::from_secs(1)))],
    });
    assert!(matches!(middleware.decide(&method_call("eth_other", "xyz"), 0), Action::Next));
    assert!(matches!(middleware.decide(&Call::Invalid { id: Id::Num(1) }, 0), Action::Next));
}

#[test]
fn add_methods_extends_every_option() {
    let mut params = vec![
        config::Param::Config(config::Cache::default()),
        config::Param::Config(config::Cache {
            enabled: false,
            methods: vec![Method::new("a", CacheEviction::Time(Duration::from_secs(1)))],
        }),
    ];
    config::add_methods(
        &mut params,
        vec![Method::new("b", CacheEviction::Time(Duration::from_secs(3)))],
    );
    match (&params[0], &params[1]) {
        (config::Param::Config(first), config::Param::Config(second)) => {
            assert!(first.enabled);
            assert_eq!(first.methods.len(), 1);
            assert_eq!(first.methods[0].name(), "b");
            assert!(!second.enabled);
            assert_eq!(second.methods.len(), 2);
            assert_eq!(second.methods[0].name(), "a");
            assert_eq!(second.methods[1].name(), "b");
        }
    }
}

#[test]
fn cached_failure_and_absent_output_are_answered_under_the_call() {
    let failure = Some(Output::Failure(jsonrpc_proxy::rpc::Failure {
        jsonrpc: Some(Version::V2),
        error: jsonrpc_proxy::rpc::Error { code: -32000, message: "no".into(), data: None },
        id: Id::Num(1),
    }));
    let call = Call::MethodCall(MethodCall {
        id: Id::Str("seven".into()),
        jsonrpc: Some(Version::V2),
        method: "m".into(),
        params: Params::Absent,
    });
    match jsonrpc_proxy::rpc::put_under_id(failure, &call) {
        Some(Output::Failure(f)) => {
            assert_eq!(f.id, Id::Str("seven".into()));
            assert_eq!(f.error.code, -32000);
        }
        _ => panic!("a failure stays a failure"),
    }
    assert_eq!(jsonrpc_proxy::rpc::put_under_id(None, &call), None);
}

#[test]
fn digest_does_not_depend_on_the_order_of_named_parameters() {
    let method = Method::new("m", CacheEviction::Time(Duration::from_secs(1)));
    let one = Params::Named(vec![("a".into(), Value::Null), ("b".into(), Value::Bool(true))]);
    let other = Params::Named(vec![("b".into(), Value::Bool(true)), ("a".into(), Value::Null)]);
    assert_eq!(method.hash(&one), method.hash(&other));
    let differs = Params::Named(vec![("b".into(), Value::Null), ("a".into(), Value::Bool(true))]);
    assert_ne!(method.hash(&one), method.hash(&differs));
}
