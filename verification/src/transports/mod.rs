//! The settings of the servers that clients connect to: what can be set on
//! the command line for each transport, and how the values are read.

use vstd::prelude::*;

pub mod address;
pub mod http;
pub mod ipc;
pub mod numbers;
pub mod tcp;
pub mod ws;

use self::numbers::{
    parse_u16, parse_u32, parse_u8, parse_usize, parsed_u16, parsed_u32, parsed_u8, parsed_usize,
};
use crate::cli_params::{Param, Parser};
use self::address::{ipv4_of, read_ipv4};
use crate::text::{is_text, join, pieces, split, text, texts_view};

verus! {

/// Whether calls can be made by the path of a request.
#[derive(Debug, Clone, Copy, PartialEq, Eq, Structural)]
pub enum RestApi {
    /// Calls by path are not accepted.
    Disabled,
    /// Calls by path need a JSON content type.
    Secure,
    /// Calls by path need no content type.
    Unsecure,
}

/// How requests are told apart on a stream.
#[derive(Debug, Clone, Copy, PartialEq, Eq, Structural)]
pub enum Separator {
    /// The server finds the boundaries of the requests itself.
    Empty,
    /// One byte ends each request.
    Byte(u8),
}

/// One setting of a server.
#[derive(Debug, Clone, PartialEq, Eq)]
pub enum Setting {
    /// The port to listen on.
    Port(u16),
    /// The interface to listen on, as the four bytes of its address.
    Ip([u8; 4]),
    /// The number of threads.
    Threads(usize),
    /// Whether calls can be made by the path of a request.
    RestApi(RestApi),
    /// The values of the `Host` header that are accepted; none where every value is.
    Hosts(Option<Vec<String>>),
    /// The origins that the CORS header names; none where every origin is named.
    Cors(Option<Vec<String>>),
    /// The time in milliseconds for which a preflight request stays valid; none where it does not.
    CorsMaxAge(Option<u32>),
    /// The largest payload, in megabytes.
    MaxPayload(usize),
    /// The origins that may connect; none where every origin may.
    Origins(Option<Vec<String>>),
    /// The largest number of connections at a time.
    MaxConnections(usize),
    /// How requests are told apart.
    Separator(Separator),
    /// The path of the socket.
    Path(String),
}

/// The mathematical content of a [`Setting`].
pub enum SettingView {
    Port(u16),
    Ip(Seq<u8>),
    Threads(usize),
    RestApi(RestApi),
    Hosts(Option<Seq<Seq<char>>>),
    Cors(Option<Seq<Seq<char>>>),
    CorsMaxAge(Option<u32>),
    MaxPayload(usize),
    Origins(Option<Seq<Seq<char>>>),
    MaxConnections(usize),
    Separator(Separator),
    Path(Seq<char>),
}

/// The view of an optional list of texts.
pub open spec fn list_view(list: Option<Vec<String>>) -> Option<Seq<Seq<char>>> {
    match list {
        Some(items) => Some(texts_view(items@)),
        None => None,
    }
}

impl View for Setting {
    type V = SettingView;

    open spec fn view(&self) -> SettingView {
        match self {
            Setting::Port(port) => SettingView::Port(*port),
            Setting::Ip(ip) => SettingView::Ip(ip@),
            Setting::Threads(threads) => SettingView::Threads(*threads),
            Setting::RestApi(api) => SettingView::RestApi(*api),
            Setting::Hosts(hosts) => SettingView::Hosts(list_view(*hosts)),
            Setting::Cors(cors) => SettingView::Cors(list_view(*cors)),
            Setting::CorsMaxAge(age) => SettingView::CorsMaxAge(*age),
            Setting::MaxPayload(size) => SettingView::MaxPayload(*size),
            Setting::Origins(origins) => SettingView::Origins(list_view(*origins)),
            Setting::MaxConnections(count) => SettingView::MaxConnections(*count),
            Setting::Separator(separator) => SettingView::Separator(*separator),
            Setting::Path(path) => SettingView::Path(path@),
        }
    }
}

/// The kind of a setting, which says how its value is read.
#[derive(Debug, Clone, Copy, PartialEq, Eq, Structural)]
pub enum Kind {
    Port,
    Ip,
    Threads,
    RestApi,
    Hosts,
    Cors,
    CorsMaxAge,
    MaxPayload,
    Origins,
    MaxConnections,
    Separator,
    Path,
}

/// A message, the value that it is about, a colon and the reason.
pub open spec fn complaint(message: Seq<char>, value: Seq<char>, reason: Seq<char>) -> Seq<char> {
    message + value + ": "@ + reason
}

/// The list that a value stands for: `none` is the empty list; `*`, `all`
/// and `any` are no list at all; any other value is the list of its pieces
/// between commas.
pub open spec fn list_of(value: Seq<char>) -> Option<Seq<Seq<char>>> {
    if value == "none"@ {
        Some(Seq::empty())
    } else if value == "*"@ || value == "all"@ || value == "any"@ {
        None
    } else {
        Some(pieces(value, ','))
    }
}

/// What a value of REST API stands for.
pub open spec fn rest_api_of(value: Seq<char>) -> Option<RestApi> {
    if value == "disabled"@ || value == "off"@ || value == "no"@ {
        Some(RestApi::Disabled)
    } else if value == "secure"@ || value == "on"@ || value == "yes"@ {
        Some(RestApi::Secure)
    } else if value == "unsecure"@ {
        Some(RestApi::Unsecure)
    } else {
        None
    }
}

/// The setting that a value of a kind stands for, or the complaint about the value.
pub open spec fn setting_of(kind: Kind, value: Seq<char>) -> Result<SettingView, Seq<char>> {
    match kind {
        Kind::Port => match parsed_u16(value) {
            Ok(port) => Ok(SettingView::Port(port)),
            Err(e) => Err(complaint("Invalid port number "@, value, e)),
        },
        Kind::Ip => match ipv4_of(value) {
            Some(ip) => Ok(SettingView::Ip(ip)),
            None => Err(complaint("Invalid port number "@, value, "invalid IPv4 address syntax"@)),
        },
        Kind::Threads => match parsed_usize(value) {
            Ok(threads) => Ok(SettingView::Threads(threads)),
            Err(e) => Err(complaint("Invalid threads number "@, value, e)),
        },
        Kind::RestApi => match rest_api_of(value) {
            Some(api) => Ok(SettingView::RestApi(api)),
            None => Err("Invalid value for rest-api: "@ + value),
        },
        Kind::Hosts => Ok(SettingView::Hosts(list_of(value))),
        Kind::Cors => Ok(SettingView::Cors(list_of(value))),
        Kind::Origins => Ok(SettingView::Origins(list_of(value))),
        Kind::CorsMaxAge => match parsed_u32(value) {
            Ok(age) => Ok(
                SettingView::CorsMaxAge(
                    if age == 0 {
                        None
                    } else {
                        Some(age)
                    },
                ),
            ),
            Err(e) => Err(complaint("Invalid cors max age "@, value, e)),
        },
        Kind::MaxPayload => match parsed_usize(value) {
            Ok(size) => Ok(SettingView::MaxPayload(size)),
            Err(e) => Err("Invalid maximal payload size ("@ + value + "): "@ + e),
        },
        Kind::MaxConnections => match parsed_usize(value) {
            Ok(count) => Ok(SettingView::MaxConnections(count)),
            Err(e) => Err(complaint("Invalid number of connections "@, value, e)),
        },
        Kind::Separator => if value == "none"@ {
            Ok(SettingView::Separator(Separator::Empty))
        } else {
            match parsed_u8(value) {
                Ok(byte) => Ok(SettingView::Separator(Separator::Byte(byte))),
                Err(e) => Err(complaint("Invalid separator code "@, value, e)),
            }
        },
        Kind::Path => Ok(SettingView::Path(value)),
    }
}

/// The view of the result of reading a setting.
pub open spec fn setting_view(result: Result<Setting, String>) -> Result<SettingView, Seq<char>> {
    match result {
        Ok(setting) => Ok(setting@),
        Err(e) => Err(e@),
    }
}

/// A complaint about a value.
fn complain(message: &str, value: &String, reason: &String) -> (r: String)
    ensures
        r@ == complaint(message@, value@, reason@),
{
    let about = join(message, value.as_str());
    let colon = join(about.as_str(), ": ");
    join(colon.as_str(), reason.as_str())
}

/// Reads a list of hosts or origins.
pub fn read_list(value: &String) -> (r: Option<Vec<String>>)
    ensures
        list_view(r) == list_of(value@),
{
    if is_text(value, "none") {
        let none: Vec<String> = Vec::new();
        assert(texts_view(none@) =~= Seq::<Seq<char>>::empty());
        Some(none)
    } else if is_text(value, "*") || is_text(value, "all") || is_text(value, "any") {
        None
    } else {
        Some(split(value.as_str(), ','))
    }
}

/// Reads a value of REST API.
pub fn read_rest_api(value: &String) -> (r: Option<RestApi>)
    ensures
        r == rest_api_of(value@),
{
    if is_text(value, "disabled") || is_text(value, "off") || is_text(value, "no") {
        Some(RestApi::Disabled)
    } else if is_text(value, "secure") || is_text(value, "on") || is_text(value, "yes") {
        Some(RestApi::Secure)
    } else if is_text(value, "unsecure") {
        Some(RestApi::Unsecure)
    } else {
        None
    }
}

/// The largest payload in bytes, for a size in megabytes; none where the
/// number of bytes cannot be represented.
pub fn payload_bytes(megabytes: usize) -> (r: Option<usize>)
    ensures
        r == if megabytes * 1024 * 1024 <= usize::MAX {
            Some((megabytes * 1024 * 1024) as usize)
        } else {
            None
        },
{
    if megabytes <= usize::MAX / (1024 * 1024) {
        Some(megabytes * 1024 * 1024)
    } else {
        None
    }
}

impl Parser for Kind {
    type Executor = Setting;

    open spec fn parses(&self, value: Seq<char>, result: Result<Setting, String>) -> bool {
        setting_view(result) == setting_of(*self, value)
    }

    fn parse(&self, value: String) -> (r: Result<Setting, String>) {
        match self {
            Kind::Port => match parse_u16(value.as_str()) {
                Ok(port) => Ok(Setting::Port(port)),
                Err(e) => Err(complain("Invalid port number ", &value, &e)),
            },
            Kind::Ip => match read_ipv4(value.as_str()) {
                Some(ip) => Ok(Setting::Ip(ip)),
                None => {
                    let reason = text("invalid IPv4 address syntax");
                    Err(complain("Invalid port number ", &value, &reason))
                },
            },
            Kind::Threads => match parse_usize(value.as_str()) {
                Ok(threads) => Ok(Setting::Threads(threads)),
                Err(e) => Err(complain("Invalid threads number ", &value, &e)),
            },
            Kind::RestApi => match read_rest_api(&value) {
                Some(api) => Ok(Setting::RestApi(api)),
                None => Err(join("Invalid value for rest-api: ", value.as_str())),
            },
            Kind::Hosts => Ok(Setting::Hosts(read_list(&value))),
            Kind::Cors => Ok(Setting::Cors(read_list(&value))),
            Kind::Origins => Ok(Setting::Origins(read_list(&value))),
            Kind::CorsMaxAge => match parse_u32(value.as_str()) {
                Ok(age) => Ok(
                    Setting::CorsMaxAge(
                        if age == 0 {
                            None
                        } else {
                            Some(age)
                        },
                    ),
                ),
                Err(e) => Err(complain("Invalid cors max age ", &value, &e)),
            },
            Kind::MaxPayload => match parse_usize(value.as_str()) {
                Ok(size) => Ok(Setting::MaxPayload(size)),
                Err(e) => {
                    let about = join("Invalid maximal payload size (", value.as_str());
                    let closed = join(about.as_str(), "): ");
                    Err(join(closed.as_str(), e.as_str()))
                },
            },
            Kind::MaxConnections => match parse_usize(value.as_str()) {
                Ok(count) => Ok(Setting::MaxConnections(count)),
                Err(e) => Err(complain("Invalid number of connections ", &value, &e)),
            },
            Kind::Separator => {
                if is_text(&value, "none") {
                    Ok(Setting::Separator(Separator::Empty))
                } else {
                    match parse_u8(value.as_str()) {
                        Ok(byte) => Ok(Setting::Separator(Separator::Byte(byte))),
                        Err(e) => Err(complain("Invalid separator code ", &value, &e)),
                    }
                }
            },
            Kind::Path => Ok(Setting::Path(value)),
        }
    }
}

/// One parameter of a server.
pub fn param(category: &str, prefix: &str, name: &str, default_value: &str, description: &str, kind: Kind) -> (r:
    Param<Kind>)
    ensures
        r.category@ == category@,
        r.name@ == option_name(prefix@, name@),
        r.description@ == description@,
        r.default_value@ == default_value@,
        r.parser == kind,
{
    let dashed = join(prefix, "-");
    let full = join(dashed.as_str(), name);
    Param::new(category, full.as_str(), description, default_value, kind)
}

/// The name of an option of a server: the prefix of the server, a dash
/// and the name of the option.
pub open spec fn option_name(prefix: Seq<char>, name: Seq<char>) -> Seq<char> {
    prefix + "-"@ + name
}

/// The names of a list of parameters, in order.
pub open spec fn names(params: Seq<Param<Kind>>) -> Seq<Seq<char>> {
    Seq::new(params.len(), |i: int| params[i].name@)
}

/// The kinds and the defaults of a list of parameters, in order.
pub open spec fn kinds_and_defaults(params: Seq<Param<Kind>>) -> Seq<(Kind, Seq<char>)> {
    Seq::new(params.len(), |i: int| (params[i].parser, params[i].default_value@))
}

} // verus!
