//! The one-shot pairing handshake: a short-lived code is requested from the
//! server, shown to the user for out-of-band approval, and exchanged for a
//! long-lived bearer token.
//!
//! The flow is linear and never branches back: request a code, await
//! approval, request a token, store it. The HTTP calls themselves are made
//! by the caller; the functions here build the two request bodies and decide
//! what each response means. Either step failing is terminal for the
//! invocation: a failed exchange is never retried.

use vstd::prelude::*;
use vstd::string::StringExecFns;
use crate::outside::json_str_field;
use crate::outside::json_str_field_of;

verus! {

/// Why a pairing attempt ended without a token.
pub enum PairingError {
    /// The server refused to hand out a request code; companion
    /// authorization must be enabled on the server and the command rerun.
    CodeUnavailable,
    /// The code response was successful but carried no code string.
    MalformedCodeResponse,
    /// The server refused to exchange the code for a token.
    Denied,
    /// The token response was successful but carried no token string.
    MalformedTokenResponse,
}

impl PairingError {
    /// The user-facing explanation of the failure.
    pub fn message(&self) -> (r: String)
        ensures
            r@ == match *self {
                PairingError::CodeUnavailable => "Failed to get code for token request; Enable companion authorization in YTMD settings and rerun command"@,
                PairingError::MalformedCodeResponse => "Code response from YTMD carried no authorization code"@,
                PairingError::Denied => "Failed to get token; Companion Authorization Request Denied"@,
                PairingError::MalformedTokenResponse => "Token response from YTMD carried no token"@,
            },
    {
        match self {
            PairingError::CodeUnavailable => String::from_str(
                "Failed to get code for token request; Enable companion authorization in YTMD settings and rerun command",
            ),
            PairingError::MalformedCodeResponse => String::from_str(
                "Code response from YTMD carried no authorization code",
            ),
            PairingError::Denied => String::from_str(
                "Failed to get token; Companion Authorization Request Denied",
            ),
            PairingError::MalformedTokenResponse => String::from_str(
                "Token response from YTMD carried no token",
            ),
        }
    }
}

/// The fixed identification payload sent to the code-request endpoint.
pub fn code_request_body() -> (r: String)
    ensures
        r@ == "{\"appId\": \"ytmdctrl\", \"appName\": \"Seta's YTMD CLI\", \"appVersion\": \"0.0.2\"}"@,
{
    String::from_str("{\"appId\": \"ytmdctrl\", \"appName\": \"Seta's YTMD CLI\", \"appVersion\": \"0.0.2\"}")
}

/// The payload that exchanges an approved code for a token.
pub fn token_request_body(code: &str) -> (r: String)
    ensures
        r@ == "{\"appId\": \"ytmdctrl\", \"code\": \""@ + code@ + "\"}"@,
{
    String::from_str("{\"appId\": \"ytmdctrl\", \"code\": \"").concat(code).concat("\"}")
}

/// What the code-request response means: the short code to show the user,
/// or a terminal failure. Any status other than 200 means companion
/// authorization is off; a success without a code string is malformed.
pub fn handle_code_response(status: u16, body: &str) -> (r: Result<String, PairingError>)
    ensures
        status != 200 ==> (r matches Err(e) && e is CodeUnavailable),
        status == 200 ==> match json_str_field_of(body@, "code"@) {
            Some(c) => r matches Ok(s) && s@ == c,
            None => r matches Err(e) && e is MalformedCodeResponse,
        },
{
    if status != 200 {
        return Err(PairingError::CodeUnavailable);
    }
    match json_str_field(body, "code") {
        Some(code) => Ok(code),
        None => Err(PairingError::MalformedCodeResponse),
    }
}

/// What the token-request response means: the bearer token to store, or a
/// terminal failure. Any status other than 200 means the authorization
/// request was denied; a success without a token string is malformed.
pub fn handle_token_response(status: u16, body: &str) -> (r: Result<String, PairingError>)
    ensures
        status != 200 ==> (r matches Err(e) && e is Denied),
        status == 200 ==> match json_str_field_of(body@, "token"@) {
            Some(t) => r matches Ok(s) && s@ == t,
            None => r matches Err(e) && e is MalformedTokenResponse,
        },
{
    if status != 200 {
        return Err(PairingError::Denied);
    }
    match json_str_field(body, "token") {
        Some(token) => Ok(token),
        None => Err(PairingError::MalformedTokenResponse),
    }
}

/// The instruction shown while the user approves the request on the server.
pub fn approval_request_message() -> (r: String)
    ensures
        r@ == "ytmdctrl is not authorized as a companion - please accept the authorization request"@,
{
    String::from_str("ytmdctrl is not authorized as a companion - please accept the authorization request")
}

/// The line that shows the short code to approve.
pub fn approval_code_message(code: &str) -> (r: String)
    ensures
        r@ == "authorization code is "@ + code@,
{
    String::from_str("authorization code is ").concat(code)
}

} // verus!
