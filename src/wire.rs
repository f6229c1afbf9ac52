//! Text-level helpers for the wire format: JSON quoting and object reading
//! through serde_json, and the few `str` operations the decoder needs.

use vstd::prelude::*;

verus! {

/// The members of a JSON object, as serde_json reads the text `text`: `None`
/// when the text is not a JSON object; else each member's key with its value
/// when that value is a JSON string (`None` for a value of another kind).
pub uninterp spec fn json_object_members(text: Seq<char>) -> Option<Seq<(Seq<char>, Option<Seq<char>>)>>;

/// The JSON string literal (quoted and escaped) that serde_json writes for `s`.
pub uninterp spec fn json_quoted(s: Seq<char>) -> Seq<char>;

/// The text `s` with its trailing whitespace removed.
pub uninterp spec fn trimmed_end(s: Seq<char>) -> Seq<char>;

/// One member of a JSON object: its key, and its value when that is a string.
pub struct JsonMember {
    pub key: String,
    pub text: Option<String>,
}

pub open spec fn opt_view(o: Option<String>) -> Option<Seq<char>> {
    match o {
        Some(s) => Some(s@),
        None => None,
    }
}

impl View for JsonMember {
    type V = (Seq<char>, Option<Seq<char>>);

    open spec fn view(&self) -> Self::V {
        (self.key@, opt_view(self.text))
    }
}

pub open spec fn members_view(ms: Seq<JsonMember>) -> Seq<(Seq<char>, Option<Seq<char>>)> {
    ms.map_values(|m: JsonMember| m@)
}

/// Relies on `serde_json::from_str` into a `serde_json::Map`: it succeeds
/// exactly on the texts that hold one JSON object, whose members it keeps.
#[verifier::external_body]
pub(crate) fn parse_object(text: &str) -> (r: Option<Vec<JsonMember>>)
    ensures
        match (r, json_object_members(text@)) {
            (None, None) => true,
            (Some(v), Some(m)) => members_view(v@) == m,
            _ => false,
        },
{
    let map = serde_json::from_str::<serde_json::Map<String, serde_json::Value>>(text).ok()?;
    let mut members = Vec::new();
    for (key, value) in map {
        let text = match value {
            serde_json::Value::String(s) => Some(s),
            _ => None,
        };
        members.push(JsonMember { key, text });
    }
    Some(members)
}

/// Relies on `serde_json::to_string` on a `str`: the string written as a JSON
/// string literal. Serialising a `str` into memory does not fail.
#[verifier::external_body]
pub(crate) fn json_quote(s: &str) -> (r: String)
    ensures
        r@ == json_quoted(s@),
{
    serde_json::to_string(s).unwrap_or_default()
}

/// Relies on `str::trim_end`: the text without its trailing whitespace, which
/// is a prefix of the text.
#[verifier::external_body]
pub(crate) fn trim_end(s: &str) -> (r: String)
    ensures
        r@ == trimmed_end(s@),
        r@.is_prefix_of(s@),
{
    s.trim_end().to_string()
}

/// Relies on `str::strip_prefix`: what follows `prefix` in `s`, when `s`
/// starts with it.
#[verifier::external_body]
pub(crate) fn strip_prefix(s: &str, prefix: &str) -> (r: Option<String>)
    ensures
        match r {
            Some(rest) => s@ == prefix@ + rest@,
            None => !prefix@.is_prefix_of(s@),
        },
{
    match s.strip_prefix(prefix) {
        Some(rest) => Some(rest.to_string()),
        None => None,
    }
}

} // verus!
