//! Trusted bindings to the outside crates the library computes with.
//!
//! Each function here is believed, not verified: its body makes one call
//! into an outside crate (or a short chain over one value), and its contract
//! states only what that crate's source shows. Results that would take pages
//! to state are given a name (an uninterpreted spec function) instead.

use vstd::prelude::*;
use std::collections::HashMap;
use crate::token_store::keys_distinct;
use crate::token_store::pairs_map;

verus! {

/// The string-to-string mapping held by a piece of JSON text, when the text
/// is a JSON object whose members are all strings; nothing otherwise.
pub uninterp spec fn store_map_of(s: Seq<char>) -> Option<Map<Seq<char>, Seq<char>>>;

/// Relies on serde_json::from_str reading a JSON object of string members
/// into a string-to-string map. The mapping read is a function of the text
/// alone; only the order in which the map hands its entries out is not, so
/// the contract speaks of the mapping, never of the order.
#[verifier::external_body]
pub(crate) fn parse_store_json(s: &str) -> (r: Option<Vec<(String, String)>>)
    ensures
        match r {
            Some(v) => keys_distinct(v@) && store_map_of(s@) == Some(pairs_map(v@)),
            None => store_map_of(s@) is None,
        },
{
    serde_json::from_str::<HashMap<String, String>>(s)
        .ok()
        .map(|m| m.into_iter().collect())
}

/// Relies on serde_json::to_string writing a string-to-string map as a JSON
/// object that serde_json::from_str reads back to the same map. Serializing
/// such a map cannot fail, so the expect below never fires.
#[verifier::external_body]
pub(crate) fn store_json_of(entries: &Vec<(String, String)>) -> (r: String)
    requires
        keys_distinct(entries@),
    ensures
        store_map_of(r@) == Some(pairs_map(entries@)),
{
    let m: HashMap<&str, &str> = entries.iter().map(|p| (p.0.as_str(), p.1.as_str())).collect();
    serde_json::to_string(&m).expect("a map of strings always serializes")
}

/// The string member named `key` of the JSON text `s`, when `s` is a JSON
/// object and that member is a string; nothing otherwise.
pub uninterp spec fn json_str_field_of(s: Seq<char>, key: Seq<char>) -> Option<Seq<char>>;

/// Relies on serde_json::from_str, Value::get and Value::as_str, each a
/// function of its argument alone: parses `body`, looks the member `key` up,
/// and hands its text back when that member is a string.
#[verifier::external_body]
pub(crate) fn json_str_field(body: &str, key: &str) -> (r: Option<String>)
    ensures
        match r {
            Some(v) => json_str_field_of(body@, key@) == Some(v@),
            None => json_str_field_of(body@, key@) is None,
        },
{
    match serde_json::from_str::<serde_json::Value>(body) {
        Ok(v) => match v.get(key) {
            Some(f) => f.as_str().map(|t| t.to_string()),
            None => None,
        },
        Err(_) => None,
    }
}

/// The pretty-printed form of the JSON text `s`, when `s` parses as JSON;
/// nothing otherwise. With this crate's default build the parsed value keeps
/// its object members in a sorted map, so the rendering is a function of the
/// text alone.
pub uninterp spec fn pretty_of(s: Seq<char>) -> Option<Seq<char>>;

/// Relies on serde_json::from_str and serde_json::to_string_pretty; printing
/// an already-parsed value cannot fail.
#[verifier::external_body]
pub(crate) fn pretty_json(s: &str) -> (r: Option<String>)
    ensures
        match r {
            Some(p) => pretty_of(s@) == Some(p@),
            None => pretty_of(s@) is None,
        },
{
    match serde_json::from_str::<serde_json::Value>(s) {
        Ok(v) => serde_json::to_string_pretty(&v).ok(),
        Err(_) => None,
    }
}

/// The span of time the text `s` names, as whole seconds and subsecond
/// nanoseconds; nothing when the text parses as no span at all.
pub uninterp spec fn duration_of(s: Seq<char>) -> Option<(u64, u32)>;

/// Relies on parse_duration::parse, a pure text parser: the result depends
/// on the characters alone.
#[verifier::external_body]
pub(crate) fn parse_delay_text(s: &str) -> (r: Option<(u64, u32)>)
    ensures
        r == duration_of(s@),
{
    parse_duration::parse(s).ok().map(|d| (d.as_secs(), d.subsec_nanos()))
}

/// The lowercase form of a text.
pub uninterp spec fn lower_of(s: Seq<char>) -> Seq<char>;

/// Relies on str::to_lowercase: the result depends on the characters alone.
#[verifier::external_body]
pub(crate) fn lowercase(s: &str) -> (r: String)
    ensures
        r@ == lower_of(s@),
{
    s.to_lowercase()
}

} // verus!
