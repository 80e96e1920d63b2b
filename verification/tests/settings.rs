use jsonrpc_proxy::accounts;
use jsonrpc_proxy::accounts::config::{AccountsParser, Reader};
use jsonrpc_proxy::accounts::keys::Derivation;
use jsonrpc_proxy::cli;
use jsonrpc_proxy::cli_params::{Param, Parser};
use jsonrpc_proxy::permissioning;
use jsonrpc_proxy::proxy;
use jsonrpc_proxy::proxy::caching;
use jsonrpc_proxy::rpc::{Call, Id, MethodCall, Output, Params, Success, Value};
use jsonrpc_proxy::simple_cache;
use jsonrpc_proxy::table::Table;
use jsonrpc_proxy::text;
use jsonrpc_proxy::transaction::{SignTransaction, Transaction};
use jsonrpc_proxy::transports;
use jsonrpc_proxy::transports::{Kind, RestApi, Separator, Setting};
use jsonrpc_proxy::upstream;
use jsonrpc_proxy::upstream::recorder::Recorder;
use jsonrpc_proxy::ws_upstream;

fn read(kind: Kind, value: &str) -> Result<Setting, String> {
    kind.parse(value.to_string())
}

#[test]
fn numbers_are_read_as_the_standard_library_reads_them() {
    assert_eq!(read(Kind::Port, "9934"), Ok(Setting::Port(9934)));
    assert_eq!(read(Kind::Port, "+80"), Ok(Setting::Port(80)));
    assert_eq!(
        read(Kind::Port, "x"),
        Err("Invalid port number x: invalid digit found in string".to_string())
    );
    assert_eq!(
        read(Kind::Port, "65536"),
        Err("Invalid port number 65536: number too large to fit in target type".to_string())
    );
    assert_eq!(
        read(Kind::Port, ""),
        Err("Invalid port number : cannot parse integer from empty string".to_string())
    );
    assert_eq!(read(Kind::Threads, "4"), Ok(Setting::Threads(4)));
    assert_eq!(
        read(Kind::Threads, "-1"),
        Err("Invalid threads number -1: invalid digit found in string".to_string())
    );
    assert_eq!(read(Kind::MaxConnections, "100"), Ok(Setting::MaxConnections(100)));
    assert_eq!(
        read(Kind::MaxConnections, "many"),
        Err("Invalid number of connections many: invalid digit found in string".to_string())
    );
    assert_eq!(read(Kind::MaxPayload, "5"), Ok(Setting::MaxPayload(5)));
    assert_eq!(
        read(Kind::MaxPayload, "5MB"),
        Err("Invalid maximal payload size (5MB): invalid digit found in string".to_string())
    );
    assert_eq!(read(Kind::CorsMaxAge, "3600000"), Ok(Setting::CorsMaxAge(Some(3_600_000))));
    assert_eq!(read(Kind::CorsMaxAge, "0"), Ok(Setting::CorsMaxAge(None)));
    assert_eq!(
        read(Kind::CorsMaxAge, "4294967296"),
        Err("Invalid cors max age 4294967296: number too large to fit in target type".to_string())
    );
}

#[test]
fn separators_are_a_byte_or_none() {
    assert_eq!(read(Kind::Separator, "none"), Ok(Setting::Separator(Separator::Empty)));
    assert_eq!(read(Kind::Separator, "10"), Ok(Setting::Separator(Separator::Byte(10))));
    assert_eq!(
        read(Kind::Separator, "256"),
        Err("Invalid separator code 256: number too large to fit in target type".to_string())
    );
}

#[test]
fn lists_are_read() {
    assert_eq!(read(Kind::Hosts, "none"), Ok(Setting::Hosts(Some(vec![]))));
    for all in ["*", "all", "any"] {
        assert_eq!(read(Kind::Hosts, all), Ok(Setting::Hosts(None)));
        assert_eq!(read(Kind::Cors, all), Ok(Setting::Cors(None)));
        assert_eq!(read(Kind::Origins, all), Ok(Setting::Origins(None)));
    }
    assert_eq!(
        read(Kind::Cors, "a.com,b.org"),
        Ok(Setting::Cors(Some(vec!["a.com".to_string(), "b.org".to_string()])))
    );
    assert_eq!(read(Kind::Origins, "null"), Ok(Setting::Origins(Some(vec!["null".to_string()]))));
    assert_eq!(read(Kind::Hosts, ""), Ok(Setting::Hosts(Some(vec!["".to_string()]))));
}

#[test]
fn text_is_split_as_the_standard_library_splits_it() {
    for value in ["", ",", "a", "a,b", ",a,,b,", "é,ü", "no comma"] {
        let expected: Vec<String> = value.split(',').map(Into::into).collect();
        assert_eq!(text::split(value, ','), expected);
    }
    assert_eq!(text::join("a", "b"), "ab");
    assert!(text::is_text(&"x".to_string(), "x"));
    assert!(!text::is_text(&"x".to_string(), "y"));
}

#[test]
fn rest_api_is_read() {
    for value in ["disabled", "off", "no"] {
        assert_eq!(read(Kind::RestApi, value), Ok(Setting::RestApi(RestApi::Disabled)));
    }
    for value in ["secure", "on", "yes"] {
        assert_eq!(read(Kind::RestApi, value), Ok(Setting::RestApi(RestApi::Secure)));
    }
    assert_eq!(read(Kind::RestApi, "unsecure"), Ok(Setting::RestApi(RestApi::Unsecure)));
    assert_eq!(read(Kind::RestApi, "maybe"), Err("Invalid value for rest-api: maybe".to_string()));
}

#[test]
fn paths_are_kept_as_written() {
    assert_eq!(read(Kind::Path, "./x.ipc"), Ok(Setting::Path("./x.ipc".to_string())));
    assert_eq!(read(Kind::Path, ""), Ok(Setting::Path("".to_string())));
}

#[test]
fn interfaces_are_read_as_the_standard_library_reads_them() {
    assert_eq!(read(Kind::Ip, "127.0.0.1"), Ok(Setting::Ip([127, 0, 0, 1])));
    assert_eq!(
        read(Kind::Ip, "localhost"),
        Err("Invalid port number localhost: invalid IPv4 address syntax".to_string())
    );
    let valid = [
        ("0.0.0.0", [0, 0, 0, 0]),
        ("255.255.255.255", [255, 255, 255, 255]),
        ("192.168.0.254", [192, 168, 0, 254]),
        ("10.0.0.0", [10, 0, 0, 0]),
        ("99.99.99.99", [99, 99, 99, 99]),
        ("100.200.250.255", [100, 200, 250, 255]),
    ];
    for (sample, expected) in valid {
        assert_eq!(transports::address::read_ipv4(sample), Some(expected), "{:?}", sample);
        assert_eq!(read(Kind::Ip, sample), Ok(Setting::Ip(expected)));
    }
    let invalid = [
        "256.0.0.1", "1.2.3", "1.2.3.4.5", "", " 1.2.3.4", "1.2.3.4 ", "01.2.3.4", "1.02.3.4",
        "00.0.0.0", "0.0.0.00", "1..3.4", ".1.2.3", "1.2.3.", "a.b.c.d", "1.2.3.x", "+1.2.3.4",
        "-1.2.3.4", "1.2.3.4/8", "999.1.1.1", "1000.1.1.1", "0001.1.1.1", "１.2.3.4", "1,2,3,4",
        "1.2.3.0x4", "0.0.0.0.", "::1", "...", "0.0.0", "100.200.250.256",
    ];
    for sample in invalid {
        assert_eq!(transports::address::read_ipv4(sample), None, "{:?}", sample);
        assert_eq!(
            read(Kind::Ip, sample),
            Err(format!("Invalid port number {}: invalid IPv4 address syntax", sample))
        );
    }
}

#[test]
fn payload_is_counted_in_megabytes() {
    assert_eq!(transports::payload_bytes(5), Some(5 * 1024 * 1024));
    assert_eq!(transports::payload_bytes(0), Some(0));
    assert_eq!(transports::payload_bytes(usize::MAX / (1024 * 1024)), Some(usize::MAX / (1024 * 1024) * 1024 * 1024));
    assert_eq!(transports::payload_bytes(usize::MAX / (1024 * 1024) + 1), None);
}

fn names_and_defaults(params: &[Param<Kind>]) -> Vec<(String, String)> {
    params.iter().map(|p| (p.name.clone(), p.default_value.clone())).collect()
}

fn pairs(items: &[(&str, &str)]) -> Vec<(String, String)> {
    items.iter().map(|(a, b)| (a.to_string(), b.to_string())).collect()
}

#[test]
fn servers_have_their_parameters() {
    assert_eq!(
        names_and_defaults(&transports::http::params()),
        pairs(&[
            ("http-port", "9934"),
            ("http-ip", "127.0.0.1"),
            ("http-threads", "4"),
            ("http-rest-api", "disabled"),
            ("http-hosts", "none"),
            ("http-cors", "none"),
            ("http-cors-max-age", "3600000"),
            ("http-max-payload", "5"),
        ])
    );
    assert_eq!(
        names_and_defaults(&transports::ws::params()),
        pairs(&[
            ("websockets-port", "9945"),
            ("websockets-ip", "127.0.0.1"),
            ("websockets-hosts", "none"),
            ("websockets-origins", "none"),
            ("websockets-max-connections", "100"),
        ])
    );
    assert_eq!(
        names_and_defaults(&transports::tcp::params()),
        pairs(&[("tcp-port", "9955"), ("tcp-ip", "127.0.0.1"), ("tcp-request-separator", "10")])
    );
    assert_eq!(
        names_and_defaults(&transports::ipc::params()),
        pairs(&[("ipc-path", "./jsonrpc.ipc"), ("ipc-request-separator", "none")])
    );
    let http = transports::http::params();
    assert_eq!(http[0].category, "HTTP Server");
    assert_eq!(http[7].parse(None), Ok(Setting::MaxPayload(5)));
    assert_eq!(transports::tcp::params()[2].parse(None), Ok(Setting::Separator(Separator::Byte(10))));
}

fn given(values: &[(&str, &str)]) -> Table<String, String> {
    let mut table = Table::new();
    for (name, value) in values {
        table.insert(name.to_string(), value.to_string());
    }
    table
}

#[test]
fn values_of_the_command_line_are_parsed_in_order() {
    let params = transports::tcp::params();
    assert_eq!(
        cli::parse_matches(&given(&[]), &params),
        Ok(vec![
            Setting::Port(9955),
            Setting::Ip([127, 0, 0, 1]),
            Setting::Separator(Separator::Byte(10)),
        ])
    );
    assert_eq!(
        cli::parse_matches(
            &given(&[("tcp-port", "1"), ("tcp-request-separator", "none"), ("other", "x")]),
            &params
        ),
        Ok(vec![Setting::Port(1), Setting::Ip([127, 0, 0, 1]), Setting::Separator(Separator::Empty)])
    );
    assert_eq!(
        cli::parse_matches(&given(&[("tcp-port", "p"), ("tcp-request-separator", "s")]), &params),
        Err("Invalid port number p: invalid digit found in string".to_string())
    );
}

struct Files;

impl simple_cache::config::Loader for Files {
    fn load(&self, path: &String) -> Result<simple_cache::config::Cache, String> {
        if path == "cache.json" {
            Ok(simple_cache::config::Cache { enabled: false, methods: vec![] })
        } else {
            Err(format!("Can't open cache file at {}", path))
        }
    }
}

impl permissioning::config::Loader for Files {
    fn load(&self, path: &String) -> Result<permissioning::Permissioning, String> {
        if path == "permissioning.json" {
            Ok(permissioning::Permissioning { policy: permissioning::Access::Deny, methods: vec![] })
        } else {
            Err(format!("Can't open permissioning file at {}", path))
        }
    }
}

impl upstream::config::Loader for Files {
    fn load(&self, path: &String) -> Result<Vec<upstream::Subscription>, String> {
        if path == "upstream.json" {
            Ok(vec![upstream::Subscription {
                subscribe: "s".into(),
                unsubscribe: "u".into(),
                name: "n".into(),
            }])
        } else {
            Err(format!("Can't open upstream config file at {}", path))
        }
    }
}

#[test]
fn configurations_come_from_files_or_are_the_default() {
    let cache = simple_cache::config::params(Files);
    assert_eq!(cache[0].name, "simple-cache-config");
    assert_eq!(
        cache[0].parse(None),
        Ok(simple_cache::config::Param::Config(simple_cache::config::Cache { enabled: true, methods: vec![] }))
    );
    assert_eq!(
        cache[0].parse(Some("cache.json".into())),
        Ok(simple_cache::config::Param::Config(simple_cache::config::Cache { enabled: false, methods: vec![] }))
    );
    assert_eq!(cache[0].parse(Some("x".into())), Err("Can't open cache file at x".to_string()));

    let policy = permissioning::config::params(Files);
    assert_eq!(policy[0].name, "permissioning-config");
    assert_eq!(
        policy[0].parse(None),
        Ok(permissioning::config::Param::Config(permissioning::Permissioning {
            policy: permissioning::Access::Allow,
            methods: vec![],
        }))
    );
    assert_eq!(
        policy[0].parse(Some("permissioning.json".into())),
        Ok(permissioning::config::Param::Config(permissioning::Permissioning {
            policy: permissioning::Access::Deny,
            methods: vec![],
        }))
    );

    let upstream = upstream::config::params(Files);
    assert_eq!(upstream[0].name, "upstream-config");
    assert_eq!(upstream[0].parse(None), Ok(upstream::config::Param::PubSubMethods(vec![])));
    match upstream[0].parse(Some("upstream.json".into())) {
        Ok(upstream::config::Param::PubSubMethods(methods)) => assert_eq!(methods[0].name, "n"),
        Err(e) => panic!("the file is there: {}", e),
    }
    assert!(upstream[0].parse(Some("y".into())).is_err());
}

struct Wallet(Vec<u8>);

impl Reader for Wallet {
    fn read(&self, path: &String) -> Result<Vec<u8>, String> {
        if path == "wallet.json" {
            Ok(self.0.clone())
        } else {
            Err("no such file".to_string())
        }
    }
}

fn key_file(secret: &ethsign::SecretKey, password: &str) -> ethsign::KeyFile {
    ethsign::KeyFile {
        id: "id".into(),
        version: 3,
        crypto: secret.to_crypto(&password.into(), 16).unwrap(),
        address: None,
    }
}

#[test]
fn keyfile_is_opened_with_the_last_password() {
    let secret = ethsign::SecretKey::from_raw(&[9u8; 32]).unwrap();
    let wallet = Wallet(serde_json::to_vec(&key_file(&secret, "pw")).unwrap());
    let params = accounts::config::params(wallet);
    assert_eq!(params[0].name, "account-password");
    assert_eq!(params[1].name, "account-file");

    let no_account = params[1].parse(None).unwrap();
    assert!(matches!(no_account, accounts::config::Param::Account(None)));
    assert!(matches!(params[1].parse(Some("other.json".into())), Err(e) if e == "no such file"));
    let broken = AccountsParser::AccountFile(Wallet(b"{".to_vec()));
    assert!(broken.parse("wallet.json".into()).is_err());

    let open = |passwords: &[&str]| {
        let mut options = vec![params[1].parse(Some("wallet.json".into())).unwrap()];
        for password in passwords {
            options.push(params[0].parse(Some(password.to_string())).unwrap());
        }
        accounts::Middleware::new(options)
    };
    assert!(open(&["pw"]).is_some());
    assert!(open(&["wrong", "pw"]).is_some());
    assert!(open(&["pw", "wrong"]).is_none());
    assert!(open(&[]).is_none());

    let from = jsonrpc_proxy::transaction::Address { bytes: *secret.public().address() };
    let transaction = Transaction { from, ..Default::default() };
    let signer = open(&["pw"]).unwrap();
    let expected = accounts::Middleware::with_secret(Some(secret));
    let call = signer.sign_transaction(SignTransaction::owned(transaction.clone(), 1), None, Id::Num(1));
    assert!(call.is_some());
    assert_eq!(call, expected.sign_transaction(SignTransaction::owned(transaction, 1), None, Id::Num(1)));
}

#[test]
fn empty_password_opens_a_keyfile_without_password() {
    let secret = ethsign::SecretKey::from_raw(&[9u8; 32]).unwrap();
    let file = key_file(&secret, "");
    assert!(accounts::Middleware::new(vec![accounts::config::account_param(Some(file.clone()))]).is_some());
    assert!(accounts::Middleware::new(vec![
        accounts::config::account_param(Some(file)),
        accounts::config::password_param("x".into()),
    ])
    .is_none());
}

#[test]
fn socket_addresses_are_read() {
    let params = ws_upstream::params::all();
    assert_eq!(params[0].name, "upstream-ws");
    assert_eq!(params[0].default_value, "127.0.0.1:9944");
    match params[0].parse(Some("ws://example.org:1/".into())) {
        Ok(ws_upstream::params::Configuration::Url(url)) => {
            assert_eq!(url.as_str(), "ws://example.org:1/");
            assert_eq!(url.port(), Some(1));
        }
        Err(e) => panic!("the address is valid: {}", e),
    }
    assert!(matches!(params[0].parse(Some("::".into())), Err(e) if e.starts_with("Invalid upstream address: ")));
}

fn call(id: u64, method: &str) -> Call {
    Call::MethodCall(MethodCall {
        jsonrpc: None,
        method: method.into(),
        params: Params::Absent,
        id: Id::Num(id),
    })
}

#[test]
fn cache_by_name_keeps_the_first_response() {
    let mut middleware = caching::Middleware::new(vec![
        caching::Method::ignore_params("a"),
        caching::Method::new("b", caching::ParamsCache::IgnoreParams),
    ]);
    assert_eq!(caching::Method::ignore_params("a").hash(&Some(Params::Absent)), "a");
    assert_eq!(caching::Method::ignore_params("a").hash(&None), "a");
    assert!(matches!(middleware.decide(&call(1, "c")), caching::Action::Next));
    let name = match middleware.decide(&call(1, "a")) {
        caching::Action::NextAndCache(name) => name,
        _ => panic!("nothing is cached yet"),
    };
    assert_eq!(name, "a");
    let output = Some(Output::Success(Success { jsonrpc: None, result: Value::Null, id: Id::Num(1) }));
    middleware.store(name, &output);
    let under = Some(Output::Success(Success { jsonrpc: None, result: Value::Null, id: Id::Num(2) }));
    assert!(matches!(middleware.decide(&call(2, "a")), caching::Action::Return(o) if o == under));
    assert!(matches!(middleware.decide(&call(2, "b")), caching::Action::NextAndCache(n) if n == "b"));
    assert!(matches!(middleware.decide(&Call::Invalid { id: Id::Null }), caching::Action::Next));
}

#[test]
fn plain_proxy_passes_calls_to_the_transport() {
    let output = Some(Output::Success(Success { jsonrpc: None, result: Value::Bool(true), id: Id::Num(1) }));
    let mut handler = proxy::handler(Recorder::new(output.clone()));
    assert_eq!(handler.handle(call(1, "a"), None), output);
    assert_eq!(handler.handle(call(2, "state_subscribeStorage"), None), output);
}

fn scrypt_file(n: u32, r: u32, p: u32) -> ethsign::KeyFile {
    let secret = ethsign::SecretKey::from_raw(&[9u8; 32]).unwrap();
    let mut file = key_file(&secret, "pw");
    file.crypto.kdf = ethsign::keyfile::Kdf::Scrypt(ethsign::keyfile::Scrypt {
        dklen: 32,
        p,
        n,
        r,
        salt: ethsign::keyfile::Bytes(vec![1u8; 32]),
    });
    file
}

#[test]
fn keyfile_whose_key_cannot_be_derived_is_not_opened() {
    let open = |file: ethsign::KeyFile| {
        accounts::Middleware::new(vec![
            accounts::config::account_param(Some(file)),
            accounts::config::password_param("pw".into()),
        ])
    };
    assert!(open(scrypt_file(0, 8, 1)).is_none());
    assert!(open(scrypt_file(u32::MAX, u32::MAX, 1)).is_none());
    assert!(open(scrypt_file(2, 0, 1)).is_none());
    assert!(open(scrypt_file(2, 1, 1)).is_none());
}

#[test]
fn derivations_fit_where_scrypt_can_ask_for_its_memory() {
    assert!(Derivation::Pbkdf2.fits());
    assert!(Derivation::Scrypt { n: 262_144, r: 8, p: 1 }.fits());
    assert!(Derivation::Scrypt { n: 1, r: 0, p: 0 }.fits());
    assert!(!Derivation::Scrypt { n: 0, r: 8, p: 1 }.fits());
    assert!(!Derivation::Scrypt { n: 0, r: 0, p: 0 }.fits());
    assert!(!Derivation::Scrypt { n: u32::MAX, r: u32::MAX, p: 1 }.fits());
    assert!(!Derivation::Scrypt { n: 2, r: u32::MAX, p: u32::MAX }.fits());
}
