//! The settings of the TCP server.

use vstd::prelude::*;

use super::{kinds_and_defaults, names, option_name, param, Kind};
use crate::cli_params::Param;

verus! {

/// Returns all configuration parameters of the TCP server.
pub fn params() -> (r: Vec<Param<Kind>>)
    ensures
        names(r@) == seq![
            "tcp-port"@,
            "tcp-ip"@,
            "tcp-request-separator"@,
        ],
        kinds_and_defaults(r@) == seq![
            (Kind::Port, "9955"@),
            (Kind::Ip, "127.0.0.1"@),
            (Kind::Separator, "10"@),
        ],
        forall|i: int| 0 <= i < r@.len() ==> (#[trigger] r@[i]).category@ == "TCP Server"@,
{
    let category = "TCP Server";
    let prefix = "tcp";
    let mut out: Vec<Param<Kind>> = Vec::new();
    out.push(param(category, prefix, "port", "9955", "Configures TCP server listening port.", Kind::Port));
    out.push(param(category, prefix, "ip", "127.0.0.1", "Configures TCP server interface.", Kind::Ip));
    out.push(
        param(
            category,
            prefix,
            "request-separator",
            "10",
            "Configures TCP server request separator (single byte). If \"none\" the parser will try to figure out requests boundaries. Default is new line character.",
            Kind::Separator,
        ),
    );
    proof {
        reveal_strlit("tcp");
        reveal_strlit("-");
        reveal_strlit("port");
        reveal_strlit("tcp-port");
        assert(option_name("tcp"@, "port"@) =~= "tcp-port"@);
        reveal_strlit("ip");
        reveal_strlit("tcp-ip");
        assert(option_name("tcp"@, "ip"@) =~= "tcp-ip"@);
        reveal_strlit("request-separator");
        reveal_strlit("tcp-request-separator");
        assert(option_name("tcp"@, "request-separator"@) =~= "tcp-request-separator"@);
    }
    assert(names(out@) =~= seq![
        "tcp-port"@,
        "tcp-ip"@,
        "tcp-request-separator"@,
    ]);
    assert(kinds_and_defaults(out@) =~= seq![
        (Kind::Port, "9955"@),
        (Kind::Ip, "127.0.0.1"@),
        (Kind::Separator, "10"@),
    ]);
    out
}

} // verus!
