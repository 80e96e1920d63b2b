//! The settings of the WebSockets server.

use vstd::prelude::*;

use super::{kinds_and_defaults, names, option_name, param, Kind};
use crate::cli_params::Param;

verus! {

/// Returns all configuration parameters of the WebSockets server.
pub fn params() -> (r: Vec<Param<Kind>>)
    ensures
        names(r@) == seq![
            "websockets-port"@,
            "websockets-ip"@,
            "websockets-hosts"@,
            "websockets-origins"@,
            "websockets-max-connections"@,
        ],
        kinds_and_defaults(r@) == seq![
            (Kind::Port, "9945"@),
            (Kind::Ip, "127.0.0.1"@),
            (Kind::Hosts, "none"@),
            (Kind::Origins, "none"@),
            (Kind::MaxConnections, "100"@),
        ],
        forall|i: int| 0 <= i < r@.len() ==> (#[trigger] r@[i]).category@ == "WebSockets Server"@,
{
    let category = "WebSockets Server";
    let prefix = "websockets";
    let mut out: Vec<Param<Kind>> = Vec::new();
    out.push(
        param(category, prefix, "port", "9945", "Configures WebSockets server listening port.", Kind::Port),
    );
    out.push(param(category, prefix, "ip", "127.0.0.1", "Configures WebSockets server interface.", Kind::Ip));
    out.push(
        param(
            category,
            prefix,
            "hosts",
            "none",
            " List of allowed Host header values. This option will validate the Host header sent by the browser, it is additional security against some attack vectors. Special options: \"all\", \"none\".",
            Kind::Hosts,
        ),
    );
    out.push(
        param(
            category,
            prefix,
            "origins",
            "none",
            " Specify Origin header values allowed to connect. Special options: \"all\", \"none\". ",
            Kind::Origins,
        ),
    );
    out.push(
        param(
            category,
            prefix,
            "max-connections",
            "100",
            "Maximum number of allowed concurrent WebSockets JSON-RPC connections.",
            Kind::MaxConnections,
        ),
    );
    proof {
        reveal_strlit("websockets");
        reveal_strlit("-");
        reveal_strlit("port");
        reveal_strlit("websockets-port");
        assert(option_name("websockets"@, "port"@) =~= "websockets-port"@);
        reveal_strlit("ip");
        reveal_strlit("websockets-ip");
        assert(option_name("websockets"@, "ip"@) =~= "websockets-ip"@);
        reveal_strlit("hosts");
        reveal_strlit("websockets-hosts");
        assert(option_name("websockets"@, "hosts"@) =~= "websockets-hosts"@);
        reveal_strlit("origins");
        reveal_strlit("websockets-origins");
        assert(option_name("websockets"@, "origins"@) =~= "websockets-origins"@);
        reveal_strlit("max-connections");
        reveal_strlit("websockets-max-connections");
        assert(option_name("websockets"@, "max-connections"@) =~= "websockets-max-connections"@);
    }
    assert(names(out@) =~= seq![
        "websockets-port"@,
        "websockets-ip"@,
        "websockets-hosts"@,
        "websockets-origins"@,
        "websockets-max-connections"@,
    ]);
    assert(kinds_and_defaults(out@) =~= seq![
        (Kind::Port, "9945"@),
        (Kind::Ip, "127.0.0.1"@),
        (Kind::Hosts, "none"@),
        (Kind::Origins, "none"@),
        (Kind::MaxConnections, "100"@),
    ]);
    out
}

} // verus!
