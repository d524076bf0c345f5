//! The trusted boundary to `serde_json`, which reads raw tool-argument
//! payloads. Each tool parses its payload lazily into the shape it expects;
//! a parse failure is a per-call error.

use vstd::prelude::*;

verus! {

/// The string value of `field` in `s`, when `s` parses as a JSON object
/// holding that field with a string value; nothing otherwise. A function of
/// the two texts alone.
pub uninterp spec fn json_field(s: Seq<char>, field: Seq<char>) -> Option<Seq<char>>;

/// The text of `s`, when `s` parses as one JSON string; nothing otherwise.
/// A function of the text alone.
pub uninterp spec fn json_string(s: Seq<char>) -> Option<Seq<char>>;

/// Relies on `serde_json::from_str::<serde_json::Value>`,
/// `serde_json::Value::get` and `serde_json::Value::as_str`: parses `args`
/// and reads the string value of `field`; the result depends on the two
/// arguments alone.
#[verifier::external_body]
pub(crate) fn parse_string_field(args: &str, field: &str) -> (r: Option<String>)
    ensures
        match r {
            Some(v) => json_field(args@, field@) == Some(v@),
            None => json_field(args@, field@) is None,
        },
{
    match serde_json::from_str::<serde_json::Value>(args) {
        Ok(v) => match v.get(field) {
            Some(x) => x.as_str().map(|t| t.to_string()),
            None => None,
        },
        Err(_) => None,
    }
}

/// Relies on `serde_json::from_str::<String>`: parses `args` as one JSON
/// string; the result depends on the argument alone.
#[verifier::external_body]
pub(crate) fn parse_string_arg(args: &str) -> (r: Option<String>)
    ensures
        match r {
            Some(v) => json_string(args@) == Some(v@),
            None => json_string(args@) is None,
        },
{
    match serde_json::from_str::<String>(args) {
        Ok(v) => Some(v),
        Err(_) => None,
    }
}

} // verus!
