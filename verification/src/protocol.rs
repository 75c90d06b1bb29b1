//! Building the single HTTP request of an invocation, and classifying what
//! came back.
//!
//! A read command is a GET to its own path; every write command is a POST
//! of its JSON body to the shared command endpoint. The response is sorted
//! into success, rate-limited, unauthorized or other failure from the HTTP
//! status and, for failures, the `error` member of the body.

use vstd::prelude::*;
use vstd::string::StringExecFns;
use crate::command::Command;
use crate::command::body_view;
use crate::command::delay_view;
use crate::command::is_read;
use crate::command::path_view;
use crate::command::server_addr_view;
use crate::outside::duration_of;
use crate::outside::json_str_field_of;
use crate::outside::json_str_field;
use crate::outside::parse_delay_text;

verus! {

/// The base URL of one API endpoint on one server.
pub open spec fn api_url_view(addr: Seq<char>, path: Seq<char>) -> Seq<char> {
    "http://"@ + addr + ":9863/api/v1/"@ + path
}

/// The URL of one API endpoint on one server.
pub fn api_url(addr: &str, path: &str) -> (r: String)
    ensures
        r@ == api_url_view(addr@, path@),
{
    String::from_str("http://").concat(addr).concat(":9863/api/v1/").concat(path)
}

/// The one request an invocation sends, fully resolved.
pub struct RequestPlan {
    /// GET for a read command, POST for a write command.
    pub is_get: bool,
    /// The full URL of the request.
    pub url: String,
    /// The JSON body of a write command; empty for a read.
    pub body: String,
}

/// Resolve a command into the request it sends. A read command addresses
/// its own path; a write command posts its body to the command endpoint.
pub fn build_plan(cmd: &Command) -> (r: RequestPlan)
    ensures
        r.is_get == is_read(*cmd),
        r.body@ == body_view(*cmd),
        r.url@ == match path_view(*cmd) {
            Some(p) => api_url_view(server_addr_view(*cmd), p),
            None => api_url_view(server_addr_view(*cmd), "command"@),
        },
{
    let addr = cmd.get_server_addr();
    match cmd.get_path() {
        Some(p) => RequestPlan { is_get: true, url: api_url(addr, p), body: cmd.get_body() },
        None => RequestPlan { is_get: false, url: api_url(addr, "command"), body: cmd.get_body() },
    }
}

/// The pre-request delay a command asks for.
pub enum DelayResolution {
    /// No delay was given.
    NoDelay,
    /// Suspend for this many whole seconds and subsecond nanoseconds
    /// before sending.
    Wait(u64, u32),
    /// The delay text parses as no span of time; fatal to the invocation,
    /// carried along for the error report.
    Malformed(String),
}

/// Resolve the delay option of a command.
pub fn resolve_delay(cmd: &Command) -> (r: DelayResolution)
    ensures
        match delay_view(*cmd) {
            None => r is NoDelay,
            Some(d) => match duration_of(d) {
                Some(t) => r matches DelayResolution::Wait(s, n) && (s, n) == t,
                None => r matches DelayResolution::Malformed(m) && m@ == d,
            },
        },
{
    match cmd.get_delay() {
        None => DelayResolution::NoDelay,
        Some(d) => match parse_delay_text(d.as_str()) {
            Some(t) => DelayResolution::Wait(t.0, t.1),
            None => DelayResolution::Malformed(d.clone()),
        },
    }
}

/// What one HTTP exchange with the server came to.
pub enum CommandOutcome {
    /// The server accepted the command; the body may be rendered for a
    /// read command.
    Success { body: String },
    /// The server is rate limiting; the command still used a valid token.
    RateLimited { reset: String },
    /// The server reports the bearer token as invalid.
    Unauthorized,
    /// Any other failure, surfaced with its status and body.
    OtherFailure { status: u16, body: String },
}

/// An HTTP status that counts as success.
pub open spec fn is_http_success(status: u16) -> bool {
    200 <= status < 300
}

/// Classify one response: 429 is rate-limited, with the reset header
/// defaulting to "5" seconds; any 2xx is success; everything else is a
/// failure, unauthorized exactly when the body's `error` member says so.
pub fn classify(status: u16, reset_header: Option<String>, body: String) -> (r: CommandOutcome)
    ensures
        status == 429 ==> (r matches CommandOutcome::RateLimited { reset }
            && reset@ == match reset_header { Some(h) => h@, None => "5"@ }),
        status != 429 && is_http_success(status) ==> (r matches CommandOutcome::Success { body: b }
            && b@ == body@),
        status != 429 && !is_http_success(status) ==> (
            if json_str_field_of(body@, "error"@) == Some("UNAUTHORIZED"@) {
                r is Unauthorized
            } else {
                r matches CommandOutcome::OtherFailure { status: s, body: b }
                    && s == status && b@ == body@
            }
        ),
{
    if status == 429 {
        let reset = match reset_header {
            Some(h) => h,
            None => String::from_str("5"),
        };
        return CommandOutcome::RateLimited { reset };
    }
    if 200 <= status && status < 300 {
        return CommandOutcome::Success { body };
    }
    let unauthorized = match json_str_field(body.as_str(), "error") {
        Some(e) => e == String::from_str("UNAUTHORIZED"),
        None => false,
    };
    if unauthorized {
        CommandOutcome::Unauthorized
    } else {
        CommandOutcome::OtherFailure { status, body }
    }
}

} // verus!
