//! The settings of the HTTP server.

use vstd::prelude::*;

use super::{kinds_and_defaults, names, option_name, param, Kind};
use crate::cli_params::Param;

verus! {

/// Returns all configuration parameters of the HTTP server.
pub fn params() -> (r: Vec<Param<Kind>>)
    ensures
        names(r@) == seq![
            "http-port"@,
            "http-ip"@,
            "http-threads"@,
            "http-rest-api"@,
            "http-hosts"@,
            "http-cors"@,
            "http-cors-max-age"@,
            "http-max-payload"@,
        ],
        kinds_and_defaults(r@) == seq![
            (Kind::Port, "9934"@),
            (Kind::Ip, "127.0.0.1"@),
            (Kind::Threads, "4"@),
            (Kind::RestApi, "disabled"@),
            (Kind::Hosts, "none"@),
            (Kind::Cors, "none"@),
            (Kind::CorsMaxAge, "3600000"@),
            (Kind::MaxPayload, "5"@),
        ],
        forall|i: int| 0 <= i < r@.len() ==> (#[trigger] r@[i]).category@ == "HTTP Server"@,
{
    let category = "HTTP Server";
    let prefix = "http";
    let mut out: Vec<Param<Kind>> = Vec::new();
    out.push(param(category, prefix, "port", "9934", "Configures HTTP server listening port.", Kind::Port));
    out.push(param(category, prefix, "ip", "127.0.0.1", "Configures HTTP server interface.", Kind::Ip));
    out.push(param(category, prefix, "threads", "4", "Configures HTTP server threads.", Kind::Threads));
    out.push(
        param(
            category,
            prefix,
            "rest-api",
            "disabled",
            "Enables REST -> RPC converter for HTTP server. Allows you tocall RPC methods with `POST /<methodname>/<param1>/<param2>`.The \"secure\" option requires the `Content-Type: application/json`header to be sent with the request (even though the payload is ignored)to prevent accepting POST requests from any website (via form submission).The \"unsecure\" option does not require any `Content-Type`.Possible options: \"unsecure\", \"secure\", \"disabled\".",
            Kind::RestApi,
        ),
    );
    out.push(
        param(
            category,
            prefix,
            "hosts",
            "none",
            "List of allowed Host header values. This option willvalidate the Host header sent by the browser, it isadditional security against some attack vectors. Specialoptions: \"all\", \"none\".",
            Kind::Hosts,
        ),
    );
    out.push(
        param(
            category,
            prefix,
            "cors",
            "none",
            "Specify CORS header for HTTP JSON-RPC API responses.Special options: \"all\", \"null\", \"none\".",
            Kind::Cors,
        ),
    );
    out.push(
        param(
            category,
            prefix,
            "cors-max-age",
            "3600000",
            "Configures AccessControlMaxAge header value in milliseconds.Informs the client that the preflight request is not required for the specified time. Use 0 to disable.",
            Kind::CorsMaxAge,
        ),
    );
    out.push(
        param(
            category,
            prefix,
            "max-payload",
            "5",
            "Maximal HTTP server payload in Megabytes.",
            Kind::MaxPayload,
        ),
    );
    proof {
        reveal_strlit("http");
        reveal_strlit("-");
        reveal_strlit("port");
        reveal_strlit("http-port");
        assert(option_name("http"@, "port"@) =~= "http-port"@);
        reveal_strlit("ip");
        reveal_strlit("http-ip");
        assert(option_name("http"@, "ip"@) =~= "http-ip"@);
        reveal_strlit("threads");
        reveal_strlit("http-threads");
        assert(option_name("http"@, "threads"@) =~= "http-threads"@);
        reveal_strlit("rest-api");
        reveal_strlit("http-rest-api");
        assert(option_name("http"@, "rest-api"@) =~= "http-rest-api"@);
        reveal_strlit("hosts");
        reveal_strlit("http-hosts");
        assert(option_name("http"@, "hosts"@) =~= "http-hosts"@);
        reveal_strlit("cors");
        reveal_strlit("http-cors");
        assert(option_name("http"@, "cors"@) =~= "http-cors"@);
        reveal_strlit("cors-max-age");
        reveal_strlit("http-cors-max-age");
        assert(option_name("http"@, "cors-max-age"@) =~= "http-cors-max-age"@);
        reveal_strlit("max-payload");
        reveal_strlit("http-max-payload");
        assert(option_name("http"@, "max-payload"@) =~= "http-max-payload"@);
    }
    assert(names(out@) =~= seq![
        "http-port"@,
        "http-ip"@,
        "http-threads"@,
        "http-rest-api"@,
        "http-hosts"@,
        "http-cors"@,
        "http-cors-max-age"@,
        "http-max-payload"@,
    ]);
    assert(kinds_and_defaults(out@) =~= seq![
        (Kind::Port, "9934"@),
        (Kind::Ip, "127.0.0.1"@),
        (Kind::Threads, "4"@),
        (Kind::RestApi, "disabled"@),
        (Kind::Hosts, "none"@),
        (Kind::Cors, "none"@),
        (Kind::CorsMaxAge, "3600000"@),
        (Kind::MaxPayload, "5"@),
    ]);
    out
}

} // verus!
