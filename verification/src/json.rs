//! Trusted boundary around `serde_json`.
//!
//! Every read is a function of the document text alone, so each gets a
//! name that contracts elsewhere apply: whether a text parses at all
//! (`json_parses`), and the string member under a top-level key
//! (`json_str_field`). The wrappers here are the only places the
//! library touches `serde_json`'s values.

use vstd::prelude::*;

verus! {

/// Whether `serde_json` accepts this text as a JSON document.
pub uninterp spec fn json_parses(s: Seq<char>) -> bool;

/// The string member of the JSON text `s` under the top-level key
/// `key`: `None` where the text does not parse as an object carrying
/// the key; `Some(None)` where the member exists but is not a string;
/// `Some(Some(v))` where it is the string `v`.
pub uninterp spec fn json_str_field(s: Seq<char>, key: Seq<char>) -> Option<Option<Seq<char>>>;

/// Relies on `serde_json::from_str::<Value>`: whether a text parses
/// depends on the text alone.
#[verifier::external_body]
pub(crate) fn json_parse_check(s: &str) -> (r: bool)
    ensures
        r == json_parses(s@),
{
    serde_json::from_str::<serde_json::Value>(s).is_ok()
}

/// Relies on `serde_json::from_str`, `Value::get` and `Value::as_str`:
/// the member under a top-level key depends on the text and the key
/// alone, and an unparseable text has no members.
#[verifier::external_body]
pub(crate) fn json_str_field_read(s: &str, key: &str) -> (r: Option<Option<String>>)
    ensures
        match r {
            None => json_str_field(s@, key@) is None,
            Some(None) => json_str_field(s@, key@) == Some(Option::<Seq<char>>::None),
            Some(Some(v)) => json_str_field(s@, key@) == Some(Some(v@)),
        },
        !json_parses(s@) ==> r is None,
{
    let v: serde_json::Value = match serde_json::from_str(s) {
        Ok(v) => v,
        Err(_) => return None,
    };
    match v.get(key) {
        None => None,
        Some(f) => Some(f.as_str().map(|t| t.to_owned())),
    }
}

} // verus!
