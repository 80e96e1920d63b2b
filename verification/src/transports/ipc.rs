//! The settings of the IPC server.

use vstd::prelude::*;

use super::{kinds_and_defaults, names, option_name, param, Kind};
use crate::cli_params::Param;

verus! {

/// Returns all configuration parameters of the IPC server.
pub fn params() -> (r: Vec<Param<Kind>>)
    ensures
        names(r@) == seq![
            "ipc-path"@,
            "ipc-request-separator"@,
        ],
        kinds_and_defaults(r@) == seq![(Kind::Path, "./jsonrpc.ipc"@), (Kind::Separator, "none"@)],
        forall|i: int| 0 <= i < r@.len() ==> (#[trigger] r@[i]).category@ == "IPC Server"@,
{
    let category = "IPC Server";
    let prefix = "ipc";
    let mut out: Vec<Param<Kind>> = Vec::new();
    out.push(
        param(category, prefix, "path", "./jsonrpc.ipc", "Configures IPC server socket path.", Kind::Path),
    );
    out.push(
        param(
            category,
            prefix,
            "request-separator",
            "none",
            "Configures TCP server request separator (single byte). If \"none\" the parser will try to figure out requests boundaries.",
            Kind::Separator,
        ),
    );
    proof {
        reveal_strlit("ipc");
        reveal_strlit("-");
        reveal_strlit("path");
        reveal_strlit("ipc-path");
        assert(option_name("ipc"@, "path"@) =~= "ipc-path"@);
        reveal_strlit("request-separator");
        reveal_strlit("ipc-request-separator");
        assert(option_name("ipc"@, "request-separator"@) =~= "ipc-request-separator"@);
    }
    assert(names(out@) =~= seq![
        "ipc-path"@,
        "ipc-request-separator"@,
    ]);
    assert(kinds_and_defaults(out@) =~= seq![
        (Kind::Path, "./jsonrpc.ipc"@),
        (Kind::Separator, "none"@),
    ]);
    out
}

} // verus!
