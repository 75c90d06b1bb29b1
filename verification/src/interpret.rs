//! Interpreting a classified outcome: what is told to the user, whether the
//! token proved valid, whether the store changed and must be written back,
//! and whether the invocation ends in failure.

use vstd::prelude::*;
use vstd::string::StringExecFns;
use crate::outside::pretty_json;
use crate::outside::pretty_of;
use crate::protocol::CommandOutcome;
use crate::token_store::TokenStore;

verus! {

/// The rate-limit explanation, with the server's reset time spliced in.
pub open spec fn rate_limit_wait_view(reset: Seq<char>) -> Seq<char> {
    "Wait "@ + reset + " seconds before submitting another request"@
}

/// What one outcome comes to for the user and for the token store.
pub struct Report {
    /// User-facing explanation lines, in order.
    pub notes: Vec<String>,
    /// Whether the command exercised a valid token, so a token issued by a
    /// pairing in this invocation deserves to be persisted.
    pub token_valid: bool,
    /// Whether the store changed here and must be written back now.
    pub persist: bool,
    /// Whether the invocation must end with the command-failure status.
    pub exit_failure: bool,
}

/// Interpret one outcome against the token store.
///
/// Rate limiting keeps the token: it is not an authorization failure. An
/// unauthorized response evicts exactly the requesting server's entry, to
/// be persisted at once, and makes this the re-pairing trigger for future
/// invocations. Any other failure is surfaced, pretty-printed when the body
/// is JSON, and ends the invocation in failure. Success says nothing here;
/// rendering a read command's body is its own step.
pub fn interpret(outcome: &CommandOutcome, addr: &str, store: &mut TokenStore) -> (r: Report)
    requires
        old(store).wf(),
    ensures
        final(store).wf(),
        outcome is Unauthorized ==> final(store)@ == old(store)@.remove(addr@)
            && r.persist && !r.token_valid && !r.exit_failure,
        !(outcome is Unauthorized) ==> final(store)@ == old(store)@
            && !r.persist && r.token_valid,
        outcome is Success ==> !r.exit_failure && r.notes@.len() == 0,
        outcome matches CommandOutcome::RateLimited { reset } ==> !r.exit_failure
            && r.notes@.len() == 2
            && r.notes@[0]@ == "Rate limit exceeded"@
            && r.notes@[1]@ == rate_limit_wait_view(reset@),
        outcome is Unauthorized ==> r.notes@.len() == 2
            && r.notes@[0]@ == "Server says token is unauthorized, deleting token."@
            && r.notes@[1]@ == "ytmdctrl will need to reauthorize on next run"@,
        outcome matches CommandOutcome::OtherFailure { status: _, body } ==> r.exit_failure
            && r.notes@.len() == 2
            && match pretty_of(body@) {
                Some(p) => r.notes@[0]@ == "-- Response Body --"@
                    && r.notes@[1]@ == p,
                None => r.notes@[0]@
                    == "-- Response Body (failed to parse json, unformatted) --"@
                    && r.notes@[1]@ == body@,
            },
{
    match outcome {
        CommandOutcome::Success { body: _ } => Report {
            notes: Vec::new(),
            token_valid: true,
            persist: false,
            exit_failure: false,
        },
        CommandOutcome::RateLimited { reset } => {
            let mut notes: Vec<String> = Vec::new();
            notes.push(String::from_str("Rate limit exceeded"));
            notes.push(
                String::from_str("Wait ")
                    .concat(reset.as_str())
                    .concat(" seconds before submitting another request"),
            );
            Report { notes, token_valid: true, persist: false, exit_failure: false }
        },
        CommandOutcome::Unauthorized => {
            store.remove(addr);
            let mut notes: Vec<String> = Vec::new();
            notes.push(String::from_str("Server says token is unauthorized, deleting token."));
            notes.push(String::from_str("ytmdctrl will need to reauthorize on next run"));
            Report { notes, token_valid: false, persist: true, exit_failure: false }
        },
        CommandOutcome::OtherFailure { status: _, body } => {
            let mut notes: Vec<String> = Vec::new();
            match pretty_json(body.as_str()) {
                Some(p) => {
                    notes.push(String::from_str("-- Response Body --"));
                    notes.push(p);
                },
                None => {
                    notes.push(String::from_str(
                        "-- Response Body (failed to parse json, unformatted) --",
                    ));
                    notes.push(body.clone());
                },
            }
            Report { notes, token_valid: true, persist: false, exit_failure: true }
        },
    }
}

} // verus!
