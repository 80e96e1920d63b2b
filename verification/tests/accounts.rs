use jsonrpc_proxy::accounts::config::{account_param, password_param};
use jsonrpc_proxy::accounts::keys::Recoverable;
use jsonrpc_proxy::accounts::{selection, Intercept, Middleware, Prepared};
use jsonrpc_proxy::rpc::{
    Call, Error, Failure, Id, MethodCall, Output, Params, Success, Value, Version,
};
use jsonrpc_proxy::transaction::{
    Address, SignTransaction, SignedTransaction, Transaction, U256,
};

fn secret() -> ethsign::SecretKey {
    ethsign::SecretKey::from_raw(&[7u8; 32]).unwrap()
}

fn local() -> Address {
    Address { bytes: *secret().public().address() }
}

fn signer() -> Middleware {
    Middleware::with_secret(Some(secret()))
}

fn call(method: &str, id: Id) -> Call {
    Call::MethodCall(MethodCall {
        jsonrpc: Some(Version::V2),
        method: method.into(),
        params: Params::Positional(vec![Value::Object(vec![("from".into(), Value::String("A".into()))])]),
        id,
    })
}

fn success(id: u64, result: Value) -> Output {
    Output::Success(Success { jsonrpc: Some(Version::V2), result, id: Id::Num(id) })
}

fn transaction(from: Address) -> Transaction {
    Transaction {
        from,
        to: Some(Address::repeat_byte(2)),
        nonce: U256::from_u64(5),
        gas: U256::from_u64(21_000),
        gas_price: U256::from_u64(1),
        value: U256::from_u64(10),
        data: Default::default(),
    }
}

#[test]
fn without_key_every_call_passes() {
    let mut middleware = Middleware::with_secret(None);
    for method in ["eth_sendTransaction", "eth_accounts", "eth_call"] {
        let given = call(method, Id::Num(1));
        match middleware.on_call(given.clone()) {
            Intercept::Forward(same) => assert_eq!(same, given),
            _ => panic!("without a key nothing is intercepted"),
        }
    }
    let none = Middleware::new(vec![account_param(None), password_param("pw".into())]).unwrap();
    assert!(matches!(none.sign_transaction(SignTransaction::owned(transaction(local()), 1), None, Id::Null), None));
}

#[test]
fn send_transaction_is_rewritten() {
    let mut middleware = signer();
    let rewrite = match middleware.on_call(call("eth_sendTransaction", Id::Num(1))) {
        Intercept::Compose(rewrite) => rewrite,
        _ => panic!("a call to send a transaction is rewritten"),
    };
    assert_eq!(rewrite.id, Id::Num(1));
    assert_eq!(rewrite.jsonrpc, Some(Version::V2));
    assert_eq!(rewrite.ticket, 0);
    match rewrite.compose {
        Call::MethodCall(inner) => {
            assert_eq!(inner.method, "parity_composeTransaction");
            assert_eq!(inner.id, Id::Num(10_000));
            assert_eq!(
                inner.params,
                Params::Positional(vec![Value::Object(vec![("from".into(), Value::String("A".into()))])])
            );
        }
        _ => panic!("the compose request is a method call"),
    }
    assert_eq!(
        rewrite.chain_id,
        Call::MethodCall(MethodCall {
            jsonrpc: Some(Version::V2),
            method: "eth_chainId".into(),
            params: Params::Positional(vec![]),
            id: Id::Num(10_001),
        })
    );
    let second = match middleware.on_call(call("parity_postTransaction", Id::Str("b".into()))) {
        Intercept::Compose(rewrite) => rewrite,
        _ => panic!("a call to post a transaction is rewritten"),
    };
    assert_eq!(second.ticket, 1);
    assert_eq!(second.id, Id::Str("b".into()));
    assert!(matches!(second.compose, Call::MethodCall(ref inner) if inner.id == Id::Num(10_002)));
    assert!(matches!(middleware.on_call(call("eth_call", Id::Num(3))), Intercept::Forward(_)));
    assert!(matches!(middleware.on_call(call("eth_accounts", Id::Num(3))), Intercept::Accounts(_)));
}

#[test]
fn rewrites_are_serialised() {
    let mut middleware = signer();
    for _ in 0..3 {
        middleware.on_call(call("eth_sendTransaction", Id::Num(1)));
    }
    assert!(!middleware.try_start(1));
    assert!(!middleware.try_start(3));
    assert!(middleware.try_start(0));
    assert!(!middleware.try_start(0));
    assert!(!middleware.try_start(1));
    assert!(!middleware.complete(1));
    assert!(middleware.complete(0));
    assert!(!middleware.complete(0));
    assert!(!middleware.try_start(2));
    assert!(middleware.try_start(1));
    assert!(middleware.complete(1));
    assert!(middleware.try_start(2));
    assert!(middleware.complete(2));
    assert!(!middleware.try_start(3));
}

#[test]
fn accounts_get_the_local_account_in_front() {
    let middleware = signer();
    let hex = format!("0x{}", local().bytes.iter().map(|b| format!("{:02x}", b)).collect::<String>());
    let answered = middleware.complete_accounts(Some(success(1, Value::Array(vec![Value::String("0xother".into())]))));
    assert_eq!(
        answered,
        Some(success(1, Value::Array(vec![Value::String(hex.clone()), Value::String("0xother".into())])))
    );
    let twice = middleware.complete_accounts(Some(success(1, Value::Array(vec![Value::String(hex.clone())]))));
    assert_eq!(twice, Some(success(1, Value::Array(vec![Value::String(hex.clone()), Value::String(hex)]))));
    let other = Some(success(1, Value::String("x".into())));
    assert_eq!(middleware.complete_accounts(other.clone()), other);
    let failure = Some(Output::Failure(Failure {
        jsonrpc: None,
        error: Error { code: 5, message: "m".into(), data: None },
        id: Id::Null,
    }));
    assert_eq!(middleware.complete_accounts(failure.clone()), failure);
    assert_eq!(middleware.complete_accounts(None), None);
}

fn failure(id: Id, message: &str) -> Output {
    Output::Failure(Failure {
        jsonrpc: Some(Version::V2),
        error: Error { code: 1, message: message.into(), data: None },
        id,
    })
}

#[test]
fn prepare_follows_the_answers_of_upstream() {
    let middleware = signer();
    let composed = success(10_000, Value::Object(vec![]));
    let chain = success(10_001, Value::String("0x69".into()));
    let upstream_failure = Output::Failure(Failure {
        jsonrpc: None,
        error: Error { code: -32000, message: "no".into(), data: Some(Value::Null) },
        id: Id::Num(10_000),
    });
    let id = Id::Num(1);
    let version = Some(Version::V2);

    let run = |composed: Output, chain: Output, tx: Option<Transaction>, chain_id: Option<u64>| {
        middleware.prepare(version, id.clone(), composed, chain, tx, chain_id)
    };
    let reply = |prepared: Prepared| match prepared {
        Prepared::Reply(output) => output,
        Prepared::Sign(_) => panic!("nothing is to be signed"),
    };

    assert_eq!(
        reply(run(upstream_failure.clone(), chain.clone(), None, Some(105))),
        Output::Failure(Failure {
            jsonrpc: None,
            error: Error { code: -32000, message: "no".into(), data: Some(Value::Null) },
            id: Id::Num(1),
        })
    );
    assert_eq!(
        reply(run(composed.clone(), chain.clone(), None, Some(105))),
        failure(Id::Num(1), "Unable to construct transaction")
    );
    assert_eq!(
        reply(run(composed.clone(), upstream_failure.clone(), Some(transaction(local())), None)),
        Output::Failure(Failure {
            jsonrpc: None,
            error: Error { code: -32000, message: "no".into(), data: Some(Value::Null) },
            id: Id::Num(1),
        })
    );
    assert_eq!(
        reply(run(composed.clone(), chain.clone(), Some(transaction(local())), None)),
        failure(Id::Num(1), "Unable to construct transaction")
    );
    assert_eq!(
        reply(run(composed.clone(), chain.clone(), Some(transaction(Address::repeat_byte(1))), Some(105))),
        failure(Id::Num(1), "Invalid `from` address")
    );
    match run(composed, chain, Some(transaction(local())), Some(105)) {
        Prepared::Sign(request) => {
            assert_eq!(request.chain_id, 105);
            assert_eq!(request.transaction, transaction(local()));
        }
        Prepared::Reply(_) => panic!("the transaction is to be signed"),
    }
}

#[test]
fn signed_call_submits_the_raw_transaction() {
    let signature = Recoverable { v: 1, r: [3; 32], s: [4; 32] };
    let request = SignTransaction::owned(transaction(local()), 105);
    let submitted = Middleware::signed_call(request, &signature, None, Id::Num(1)).unwrap();
    let signed = SignedTransaction::new(transaction(local()), 105, 1, [3; 32], [4; 32]);
    let hex = format!("0x{}", signed.to_rlp().iter().map(|b| format!("{:02x}", b)).collect::<String>());
    assert_eq!(
        submitted,
        Call::MethodCall(MethodCall {
            jsonrpc: None,
            method: "eth_sendRawTransaction".into(),
            params: Params::Positional(vec![Value::String(hex)]),
            id: Id::Num(1),
        })
    );
    let too_large = SignTransaction::owned(transaction(local()), u64::MAX);
    assert_eq!(Middleware::signed_call(too_large, &signature, None, Id::Num(1)), None);
}

#[test]
fn send_transaction_scenario() {
    let mut middleware = signer();
    let rewrite = match middleware.on_call(call("eth_sendTransaction", Id::Num(1))) {
        Intercept::Compose(rewrite) => rewrite,
        _ => panic!("a call to send a transaction is rewritten"),
    };
    assert!(middleware.try_start(rewrite.ticket));
    let prepared = middleware.prepare(
        rewrite.jsonrpc,
        rewrite.id.clone(),
        success(10_000, Value::Object(vec![])),
        success(10_001, Value::String("0x69".into())),
        Some(transaction(local())),
        Some(105),
    );
    let request = match prepared {
        Prepared::Sign(request) => request,
        Prepared::Reply(_) => panic!("the transaction is to be signed"),
    };
    let hash = request.hash();
    let submitted = middleware.sign_transaction(request, rewrite.jsonrpc, rewrite.id).unwrap();
    assert!(middleware.complete(rewrite.ticket));
    let raw = match submitted {
        Call::MethodCall(inner) => {
            assert_eq!(inner.method, "eth_sendRawTransaction");
            assert_eq!(inner.id, Id::Num(1));
            match inner.params {
                Params::Positional(mut items) if items.len() == 1 => match items.remove(0) {
                    Value::String(text) => text,
                    _ => panic!("the parameter is hexadecimal text"),
                },
                _ => panic!("the call has one parameter"),
            }
        }
        _ => panic!("the submission is a method call"),
    };
    let bytes: Vec<u8> = (2..raw.len())
        .step_by(2)
        .map(|i| u8::from_str_radix(&raw[i..i + 2], 16).unwrap())
        .collect();
    let signed = SignedTransaction::decode(&bytes).unwrap();
    assert_eq!(signed.chain_id(), Some(105));
    assert_eq!(signed.transaction.nonce, U256::from_u64(5));
    assert_eq!(signed.bare_hash(), hash);
    let signature = ethsign::Signature { v: signed.standard_v(), r: signed.r.bytes, s: signed.s.bytes };
    assert_eq!(signature.recover(&hash).unwrap().address(), &local().bytes);
}

#[test]
fn middleware_from_options() {
    let none = Middleware::new(vec![]).unwrap();
    assert!(none.sign_transaction(SignTransaction::owned(transaction(local()), 1), None, Id::Null).is_none());
    let mut forwards = Middleware::new(vec![password_param("x".into()), account_param(None)]).unwrap();
    assert!(matches!(forwards.on_call(call("eth_sendTransaction", Id::Num(1))), Intercept::Forward(_)));
}

#[test]
fn the_last_keyfile_and_the_last_password_count() {
    let (account, pass) = selection(vec![
        password_param("first".into()),
        account_param(None),
        password_param("second".into()),
    ]);
    assert!(matches!(account, Some(None)));
    assert_eq!(pass.map(|p| p.as_ref().to_vec()), Some(b"second".to_vec()));

    let (account, pass) = selection(vec![]);
    assert!(account.is_none());
    assert!(pass.is_none());
}

#[test]
fn the_key_signs_the_hash_of_the_transaction() {
    let request = SignTransaction::owned(transaction(local()), 105);
    let own = secret().sign(&request.hash()).unwrap();
    let signature = Recoverable { v: own.v, r: own.r, s: own.s };
    let expected = Middleware::signed_call(request, &signature, Some(Version::V2), Id::Num(7));
    assert!(expected.is_some());
    let request = SignTransaction::owned(transaction(local()), 105);
    assert_eq!(signer().sign_transaction(request, Some(Version::V2), Id::Num(7)), expected);
}
